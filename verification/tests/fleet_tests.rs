use cluster_noodle::config::{ClusterConfig, NodeConfig};
use cluster_noodle::executor::{outcome_from_race, CapturedOutput, CommandOutcome};
use cluster_noodle::fleet::{
    classify_outcome, copy_key_command, deploy_command, fleet_commands, fleet_report,
    install_docker_command, join_cluster, join_command, leave_command, pull_image_command,
    pull_image_commands, remote_target, ssh_keygen_command, tool_needs_install,
    tool_probe_command, FleetOperation, NodeOperationStatus, FLEET_OPERATION_TIMEOUT_SECS,
    KEY_COPY_TIMEOUT_SECS, TOOL_PROBE_TIMEOUT_SECS,
};
use cluster_noodle::selection::Services;

#[test]
fn timeout_policy_is_stated_by_the_library() {
    assert_eq!(FLEET_OPERATION_TIMEOUT_SECS, 1000);
    assert_eq!(TOOL_PROBE_TIMEOUT_SECS, 100);
    assert_eq!(KEY_COPY_TIMEOUT_SECS, 5);
}

#[test]
fn key_generation_command_is_non_interactive() {
    let cmd = ssh_keygen_command("/home/u/.ssh/cluster_noodle");
    assert_eq!(cmd.program, "ssh-keygen");
    assert_eq!(
        cmd.args,
        vec!["-t", "rsa", "-b", "4096", "-f", "/home/u/.ssh/cluster_noodle", "-N", ""]
    );
}

#[test]
fn pull_commands_follow_image_order() {
    let images = vec![String::from("nginx:1"), String::from("mysql:8.4")];
    let cmds = pull_image_commands(&images);
    assert_eq!(cmds.len(), 2);
    assert_eq!(cmds[0], pull_image_command("nginx:1"));
    assert_eq!(cmds[1].args, vec!["pull", "mysql:8.4"]);
}

fn node(ip: &str, user: &str, password: &str) -> NodeConfig {
    NodeConfig {
        ip: String::from(ip),
        username: String::from(user),
        password: String::from(password),
    }
}

fn completed(exit_success: bool, stderr: &str) -> CommandOutcome {
    CommandOutcome::Completed {
        exit_success,
        stdout: String::new(),
        stderr: String::from(stderr),
    }
}

#[test]
fn remote_target_is_username_at_host() {
    assert_eq!(remote_target(&node("10.0.0.5", "admin", "pw")), "admin@10.0.0.5");
}

#[test]
fn install_command_is_key_based_and_non_interactive() {
    let cmd = install_docker_command(&node("10.0.0.5", "admin", "hunter2"));
    assert_eq!(cmd.program, "ssh");
    assert_eq!(
        cmd.args,
        vec![
            "-o",
            "StrictHostKeyChecking=no",
            "admin@10.0.0.5",
            "sudo -n apt-get update -y && sudo -n apt-get install -y docker.io",
        ]
    );
}

#[test]
fn no_remote_command_carries_the_credential() {
    let target = node("10.0.0.5", "admin", "hunter2");
    let commands = vec![
        install_docker_command(&target),
        tool_probe_command(&target, "docker"),
        join_command(&target, "docker swarm join --token T 1.2.3.4:2377"),
        leave_command(&target),
        copy_key_command(&target),
    ];
    for cmd in &commands {
        assert!(!cmd.program.contains("hunter2"));
        for arg in &cmd.args {
            assert!(!arg.contains("hunter2"));
        }
    }
}

#[test]
fn join_command_runs_the_token_over_the_remote_shell() {
    let cmd = join_command(&node("10.0.0.5", "admin", "pw"), "docker swarm join --token T 1.2.3.4:2377");
    assert_eq!(cmd.program, "ssh");
    assert_eq!(
        cmd.args,
        vec![
            "-o",
            "StrictHostKeyChecking=no",
            "admin@10.0.0.5",
            "docker swarm join --token T 1.2.3.4:2377",
        ]
    );
}

#[test]
fn leave_command_forces_the_node_out() {
    let cmd = leave_command(&node("10.0.0.5", "admin", "pw"));
    assert_eq!(cmd.program, "ssh");
    assert_eq!(cmd.args[3], "docker swarm leave --force");
}

#[test]
fn copy_key_command_targets_the_node() {
    let cmd = copy_key_command(&node("10.0.0.5", "admin", "pw"));
    assert_eq!(cmd.program, "ssh-copy-id");
    assert_eq!(cmd.args, vec!["admin@10.0.0.5"]);
}

#[test]
fn pull_and_deploy_commands() {
    let pull = pull_image_command("nginx:latest");
    assert_eq!(pull.program, "docker");
    assert_eq!(pull.args, vec!["pull", "nginx:latest"]);
    let deploy = deploy_command("/home/u/.config/ClusterNoodle/docker-compose.yml");
    assert_eq!(deploy.program, "docker");
    assert_eq!(
        deploy.args,
        vec!["stack", "deploy", "-c", "/home/u/.config/ClusterNoodle/docker-compose.yml", "server"]
    );
}

#[test]
fn fleet_commands_follow_node_order() {
    let nodes = vec![node("1.1.1.1", "a", "x"), node("2.2.2.2", "b", "y")];
    let cmds = fleet_commands(&nodes, &FleetOperation::Leave);
    assert_eq!(cmds.len(), 2);
    assert_eq!(cmds[0].args[2], "a@1.1.1.1");
    assert_eq!(cmds[1].args[2], "b@2.2.2.2");
    let joins = fleet_commands(&nodes, &FleetOperation::Join { join_token: String::from("tok") });
    assert_eq!(joins[0].args[3], "tok");
    assert_eq!(joins[1].args[3], "tok");
}

#[test]
fn outcome_classification_cases() {
    let done = outcome_from_race(Ok(Some(CapturedOutput {
        exit_success: true,
        stdout: String::from("out"),
        stderr: String::new(),
    })));
    assert_eq!(
        done,
        CommandOutcome::Completed {
            exit_success: true,
            stdout: String::from("out"),
            stderr: String::new(),
        }
    );
    assert_eq!(outcome_from_race(Ok(None)), CommandOutcome::TimedOut);
    assert_eq!(
        outcome_from_race(Err(String::from("No such file or directory"))),
        CommandOutcome::LaunchFailed { error: String::from("No such file or directory") }
    );
}

#[test]
fn status_classification_cases() {
    assert_eq!(classify_outcome(&completed(true, "")), NodeOperationStatus::Success);
    assert_eq!(
        classify_outcome(&completed(false, "apt broke")),
        NodeOperationStatus::RemoteFailure { error: String::from("apt broke") }
    );
    assert_eq!(classify_outcome(&CommandOutcome::TimedOut), NodeOperationStatus::Timeout);
    assert_eq!(
        classify_outcome(&CommandOutcome::LaunchFailed { error: String::from("denied") }),
        NodeOperationStatus::LaunchError { error: String::from("denied") }
    );
}

#[test]
fn second_node_failure_leaves_first_and_third_reports_intact() {
    let nodes = vec![
        node("1.1.1.1", "a", "x"),
        node("2.2.2.2", "b", "y"),
        node("3.3.3.3", "c", "z"),
    ];
    let outcomes = vec![completed(true, ""), completed(false, "exit 1"), completed(true, "")];
    let report = fleet_report(&nodes, &outcomes);
    assert_eq!(report.len(), 3);
    assert_eq!(report[0].host, "1.1.1.1");
    assert_eq!(report[0].status, NodeOperationStatus::Success);
    assert_eq!(report[1].host, "2.2.2.2");
    assert_eq!(
        report[1].status,
        NodeOperationStatus::RemoteFailure { error: String::from("exit 1") }
    );
    assert_eq!(report[2].host, "3.3.3.3");
    assert_eq!(report[2].status, NodeOperationStatus::Success);
}

#[test]
fn timeouts_and_launch_errors_do_not_stop_the_batch() {
    let nodes = vec![node("1.1.1.1", "a", "x"), node("2.2.2.2", "b", "y")];
    let outcomes = vec![
        CommandOutcome::TimedOut,
        CommandOutcome::LaunchFailed { error: String::from("no ssh") },
    ];
    let report = fleet_report(&nodes, &outcomes);
    assert_eq!(report[0].status, NodeOperationStatus::Timeout);
    assert_eq!(
        report[1].status,
        NodeOperationStatus::LaunchError { error: String::from("no ssh") }
    );
}

#[test]
fn tool_install_decision_cases() {
    assert!(!tool_needs_install(&completed(true, "")));
    assert!(tool_needs_install(&completed(false, "")));
    assert!(!tool_needs_install(&CommandOutcome::TimedOut));
    assert!(tool_needs_install(&CommandOutcome::LaunchFailed { error: String::from("e") }));
}

#[test]
fn tool_probe_commands_cover_both_tools_per_node() {
    let config = ClusterConfig {
        ip_adress: None,
        nodes_number: 0,
        nodes_configs: vec![node("1.1.1.1", "a", "x"), node("2.2.2.2", "b", "y")],
        cluster_docker_command: String::new(),
        project_folder_path: None,
        project_entry_file_path: None,
        ssl_certificate_path_key: None,
        ssl_certificate_path_crt: None,
        services: Services { server: None, database: None, traefik: false, dashboard: false },
        docker_images: Vec::new(),
    };
    let probes = join_cluster(&config);
    assert_eq!(probes.len(), 2);
    assert_eq!(probes[0].0.program, "ssh");
    assert_eq!(probes[0].0.args[3], "command -v docker");
    assert_eq!(probes[0].1.args[3], "command -v sshpass");
    assert_eq!(probes[1].0.args[2], "b@2.2.2.2");
    let direct = tool_probe_command(&node("1.1.1.1", "a", "x"), "docker");
    assert_eq!(direct, probes[0].0);
}
