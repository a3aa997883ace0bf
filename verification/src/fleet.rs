//! The node fleet orchestrator.
//!
//! One fleet operation applies one logical action — install the container
//! runtime, run the join command, leave the cluster, propagate the login
//! credential — to every configured node independently. This module builds
//! the remote command for each node and classifies each outcome into a
//! per-node report; the binary executes the commands, one node at a time,
//! in the order given here. Reports keep the fleet's input order, and one
//! node's failure never removes another node's entry: the batch always runs
//! to the end.
//!
//! Every remote command goes over the key-based remote shell with
//! non-interactive privilege escalation: a node's login credential never
//! stands in command text (see `lemma_remote_commands_credential_free`).

use vstd::prelude::*;
use vstd::string::*;
use crate::config::{ClusterConfig, NodeConfig, NodeConfigView};
use crate::executor::{CommandOutcome, CommandOutcomeView, CommandSpec, CommandSpecView};

verus! {

/// The fixed generous bound for one remote fleet operation, in seconds:
/// remote package installation can be slow.
pub const FLEET_OPERATION_TIMEOUT_SECS: u64 = 1000;

/// The bound for one tool probe on a node, in seconds.
pub const TOOL_PROBE_TIMEOUT_SECS: u64 = 100;

/// The bound for installing the login key on one node, in seconds.
pub const KEY_COPY_TIMEOUT_SECS: u64 = 5;

/// The remote address of a node, `username@host`: the node's identity.
pub open spec fn spec_remote_target(node: NodeConfigView) -> Seq<char> {
    node.username + "@"@ + node.ip
}

/// Builds the remote address of a node.
pub fn remote_target(node: &NodeConfig) -> (t: String)
    ensures
        t@ == spec_remote_target(node@),
{
    node.username.clone().concat("@").concat(node.ip.as_str())
}

/// The remote script that installs one package: privilege escalation runs
/// non-interactively (`sudo -n`), never fed a credential. The login itself
/// is key-based, so no secret ever stands in command text.
pub open spec fn spec_install_package_script(package: Seq<char>) -> Seq<char> {
    "sudo -n apt-get update -y && sudo -n apt-get install -y "@ + package
}

/// The command that installs one package on a node, over the key-based
/// remote shell.
pub open spec fn spec_install_package_command(node: NodeConfigView, package: Seq<char>) -> CommandSpecView {
    spec_shell_command(node, spec_install_package_script(package))
}

/// The command that probes a node for one installed tool, over the
/// key-based remote shell.
pub open spec fn spec_tool_probe_command(node: NodeConfigView, tool: Seq<char>) -> CommandSpecView {
    spec_shell_command(node, "command -v "@ + tool)
}

/// The command that runs one remote command on a node through the key-based
/// remote shell.
pub open spec fn spec_shell_command(node: NodeConfigView, remote_command: Seq<char>) -> CommandSpecView {
    CommandSpecView {
        program: "ssh"@,
        args: seq![
            "-o"@,
            "StrictHostKeyChecking=no"@,
            spec_remote_target(node),
            remote_command,
        ],
    }
}

/// The command that has a node run the captured join command.
pub open spec fn spec_join_command(node: NodeConfigView, join_token: Seq<char>) -> CommandSpecView {
    spec_shell_command(node, join_token)
}

/// The command that tells a node to leave the cluster.
pub open spec fn spec_leave_command(node: NodeConfigView) -> CommandSpecView {
    spec_shell_command(node, "docker swarm leave --force"@)
}

/// The command that installs the local login key on a node.
pub open spec fn spec_copy_key_command(node: NodeConfigView) -> CommandSpecView {
    CommandSpecView { program: "ssh-copy-id"@, args: seq![spec_remote_target(node)] }
}

/// The command that pulls one image on the local control node.
pub open spec fn spec_pull_image_command(image: Seq<char>) -> CommandSpecView {
    CommandSpecView { program: "docker"@, args: seq!["pull"@, image] }
}

/// The command that applies the deployment descriptor on the local control
/// node.
pub open spec fn spec_deploy_command(descriptor_path: Seq<char>) -> CommandSpecView {
    CommandSpecView {
        program: "docker"@,
        args: seq!["stack"@, "deploy"@, "-c"@, descriptor_path, "server"@],
    }
}

/// Builds the command that installs one package on a node.
pub fn install_package_command(node: &NodeConfig, package: &str) -> (c: CommandSpec)
    ensures
        c@ == spec_install_package_command(node@, package@),
{
    let script = String::from_str("sudo -n apt-get update -y && sudo -n apt-get install -y ")
        .concat(package);
    shell_command(node, script)
}

/// Builds the command that installs the container runtime on a node.
pub fn install_docker_command(node: &NodeConfig) -> (c: CommandSpec)
    ensures
        c@ == spec_install_package_command(node@, "docker.io"@),
{
    install_package_command(node, "docker.io")
}

/// Builds the command that probes a node for one installed tool.
pub fn tool_probe_command(node: &NodeConfig, tool: &str) -> (c: CommandSpec)
    ensures
        c@ == spec_tool_probe_command(node@, tool@),
{
    shell_command(node, String::from_str("command -v ").concat(tool))
}

/// Builds the command that runs one remote command on a node through the
/// key-based remote shell.
fn shell_command(node: &NodeConfig, remote_command: String) -> (c: CommandSpec)
    ensures
        c@ == spec_shell_command(node@, remote_command@),
{
    let c = CommandSpec {
        program: String::from_str("ssh"),
        args: vec![
            String::from_str("-o"),
            String::from_str("StrictHostKeyChecking=no"),
            remote_target(node),
            remote_command,
        ],
    };
    proof {
        assert(c@ =~~= spec_shell_command(node@, remote_command@));
    }
    c
}

/// Builds the command that has a node run the captured join command.
pub fn join_command(node: &NodeConfig, join_token: &str) -> (c: CommandSpec)
    ensures
        c@ == spec_join_command(node@, join_token@),
{
    shell_command(node, join_token.to_owned())
}

/// Builds the command that tells a node to leave the cluster.
pub fn leave_command(node: &NodeConfig) -> (c: CommandSpec)
    ensures
        c@ == spec_leave_command(node@),
{
    shell_command(node, String::from_str("docker swarm leave --force"))
}

/// Builds the command that installs the local login key on a node.
pub fn copy_key_command(node: &NodeConfig) -> (c: CommandSpec)
    ensures
        c@ == spec_copy_key_command(node@),
{
    let c = CommandSpec { program: String::from_str("ssh-copy-id"), args: vec![remote_target(node)] };
    proof {
        assert(c@ =~~= spec_copy_key_command(node@));
    }
    c
}

/// Builds the command that pulls one image on the local control node.
pub fn pull_image_command(image: &str) -> (c: CommandSpec)
    ensures
        c@ == spec_pull_image_command(image@),
{
    let c = CommandSpec {
        program: String::from_str("docker"),
        args: vec![String::from_str("pull"), image.to_owned()],
    };
    proof {
        assert(c@ =~~= spec_pull_image_command(image@));
    }
    c
}

/// Builds the command that applies the deployment descriptor on the local
/// control node.
pub fn deploy_command(descriptor_path: &str) -> (c: CommandSpec)
    ensures
        c@ == spec_deploy_command(descriptor_path@),
{
    let c = CommandSpec {
        program: String::from_str("docker"),
        args: vec![
            String::from_str("stack"),
            String::from_str("deploy"),
            String::from_str("-c"),
            descriptor_path.to_owned(),
            String::from_str("server"),
        ],
    };
    proof {
        assert(c@ =~~= spec_deploy_command(descriptor_path@));
    }
    c
}

/// No remote command carries a node's credential: every command built over
/// a node is the same whatever that node's credential is, so the
/// credential can appear in no program name, no argument and no remote
/// script. Authentication is key-based and privilege escalation is
/// non-interactive.
pub proof fn lemma_remote_commands_credential_free(
    a: NodeConfigView,
    b: NodeConfigView,
    package: Seq<char>,
    tool: Seq<char>,
    remote_command: Seq<char>,
    op: FleetOperation,
)
    requires
        a.ip == b.ip,
        a.username == b.username,
    ensures
        spec_remote_target(a) == spec_remote_target(b),
        spec_shell_command(a, remote_command) == spec_shell_command(b, remote_command),
        spec_install_package_command(a, package) == spec_install_package_command(b, package),
        spec_tool_probe_command(a, tool) == spec_tool_probe_command(b, tool),
        spec_join_command(a, remote_command) == spec_join_command(b, remote_command),
        spec_leave_command(a) == spec_leave_command(b),
        spec_copy_key_command(a) == spec_copy_key_command(b),
        spec_fleet_command(op, a) == spec_fleet_command(op, b),
{
}

/// The command that generates the tool's login key pair at the given path,
/// non-interactively.
pub open spec fn spec_ssh_keygen_command(key_path: Seq<char>) -> CommandSpecView {
    CommandSpecView {
        program: "ssh-keygen"@,
        args: seq!["-t"@, "rsa"@, "-b"@, "4096"@, "-f"@, key_path, "-N"@, ""@],
    }
}

/// Builds the login key generation command.
pub fn ssh_keygen_command(key_path: &str) -> (c: CommandSpec)
    ensures
        c@ == spec_ssh_keygen_command(key_path@),
{
    let c = CommandSpec {
        program: String::from_str("ssh-keygen"),
        args: vec![
            String::from_str("-t"),
            String::from_str("rsa"),
            String::from_str("-b"),
            String::from_str("4096"),
            String::from_str("-f"),
            key_path.to_owned(),
            String::from_str("-N"),
            String::new(),
        ],
    };
    proof {
        reveal_strlit("");
        assert(""@ =~= Seq::<char>::empty());
        assert(c@ =~~= spec_ssh_keygen_command(key_path@));
    }
    c
}

/// Builds the image pull commands for the local control node: one per
/// configured image, in configuration order.
pub fn pull_image_commands(images: &Vec<String>) -> (cmds: Vec<CommandSpec>)
    ensures
        cmds@.len() == images@.len(),
        forall|i: int|
            0 <= i < images@.len() ==> #[trigger] cmds@[i]@ == spec_pull_image_command(
                images@[i]@,
            ),
{
    let mut cmds: Vec<CommandSpec> = Vec::new();
    let mut i: usize = 0;
    while i < images.len()
        invariant
            0 <= i <= images@.len(),
            cmds@.len() == i,
            forall|j: int|
                0 <= j < i ==> #[trigger] cmds@[j]@ == spec_pull_image_command(images@[j]@),
        decreases images@.len() - i,
    {
        cmds.push(pull_image_command(images[i].as_str()));
        i = i + 1;
    }
    cmds
}

/// One logical action applied to every node of the fleet.
pub enum FleetOperation {
    /// Install the container runtime.
    InstallRuntime,
    /// Run the captured join command.
    Join { join_token: String },
    /// Leave the cluster.
    Leave,
    /// Install the local login key.
    PropagateCredential,
}

/// The command one fleet operation runs on one node.
pub open spec fn spec_fleet_command(op: FleetOperation, node: NodeConfigView) -> CommandSpecView {
    match op {
        FleetOperation::InstallRuntime => spec_install_package_command(node, "docker.io"@),
        FleetOperation::Join { join_token } => spec_join_command(node, join_token@),
        FleetOperation::Leave => spec_leave_command(node),
        FleetOperation::PropagateCredential => spec_copy_key_command(node),
    }
}

/// Builds the fleet's command sequence for one operation: one command per
/// node, in the order the nodes were declared.
pub fn fleet_commands(nodes: &Vec<NodeConfig>, op: &FleetOperation) -> (cmds: Vec<CommandSpec>)
    ensures
        cmds@.len() == nodes@.len(),
        forall|i: int|
            0 <= i < nodes@.len() ==> #[trigger] cmds@[i]@ == spec_fleet_command(*op, nodes@[i]@),
{
    let mut cmds: Vec<CommandSpec> = Vec::new();
    let mut i: usize = 0;
    while i < nodes.len()
        invariant
            0 <= i <= nodes@.len(),
            cmds@.len() == i,
            forall|j: int|
                0 <= j < i ==> #[trigger] cmds@[j]@ == spec_fleet_command(*op, nodes@[j]@),
        decreases nodes@.len() - i,
    {
        let node = &nodes[i];
        let cmd = match op {
            FleetOperation::InstallRuntime => install_docker_command(node),
            FleetOperation::Join { join_token } => join_command(node, join_token.as_str()),
            FleetOperation::Leave => leave_command(node),
            FleetOperation::PropagateCredential => copy_key_command(node),
        };
        cmds.push(cmd);
        i = i + 1;
    }
    cmds
}

/// The classification of one node's outcome in a fleet operation.
#[derive(Debug, Clone, PartialEq, Eq)]
pub enum NodeOperationStatus {
    /// The remote command finished and exited zero.
    Success,
    /// The remote command finished and exited non-zero; the message is the
    /// captured error stream.
    RemoteFailure { error: String },
    /// The bound elapsed before the remote command finished.
    Timeout,
    /// The command could not be launched at all.
    LaunchError { error: String },
}

/// The mathematical model of a `NodeOperationStatus`.
#[verifier::ext_equal]
pub enum NodeOperationStatusView {
    Success,
    RemoteFailure { error: Seq<char> },
    Timeout,
    LaunchError { error: Seq<char> },
}

impl View for NodeOperationStatus {
    type V = NodeOperationStatusView;

    open spec fn view(&self) -> NodeOperationStatusView {
        match self {
            NodeOperationStatus::Success => NodeOperationStatusView::Success,
            NodeOperationStatus::RemoteFailure { error } => NodeOperationStatusView::RemoteFailure {
                error: error@,
            },
            NodeOperationStatus::Timeout => NodeOperationStatusView::Timeout,
            NodeOperationStatus::LaunchError { error } => NodeOperationStatusView::LaunchError {
                error: error@,
            },
        }
    }
}

/// The model of outcome classification: exit zero is a success, exit
/// non-zero is a remote failure carrying the captured error stream, an
/// elapsed bound is a timeout, a command that never started is a launch
/// error.
pub open spec fn spec_classify_outcome(outcome: CommandOutcomeView) -> NodeOperationStatusView {
    match outcome {
        CommandOutcomeView::Completed { exit_success, stdout, stderr } => {
            if exit_success {
                NodeOperationStatusView::Success
            } else {
                NodeOperationStatusView::RemoteFailure { error: stderr }
            }
        },
        CommandOutcomeView::TimedOut => NodeOperationStatusView::Timeout,
        CommandOutcomeView::LaunchFailed { error } => NodeOperationStatusView::LaunchError {
            error,
        },
    }
}

/// Classifies one node's outcome.
pub fn classify_outcome(outcome: &CommandOutcome) -> (s: NodeOperationStatus)
    ensures
        s@ == spec_classify_outcome(outcome@),
{
    match outcome {
        CommandOutcome::Completed { exit_success, stdout: _, stderr } => {
            if *exit_success {
                NodeOperationStatus::Success
            } else {
                NodeOperationStatus::RemoteFailure { error: stderr.clone() }
            }
        },
        CommandOutcome::TimedOut => NodeOperationStatus::Timeout,
        CommandOutcome::LaunchFailed { error } => NodeOperationStatus::LaunchError {
            error: error.clone(),
        },
    }
}

/// One node's entry in a fleet report: the node's identity and its
/// classified outcome.
#[derive(Debug, Clone, PartialEq, Eq)]
pub struct NodeOperationReport {
    pub host: String,
    pub username: String,
    pub status: NodeOperationStatus,
}

/// The mathematical model of a `NodeOperationReport`.
#[verifier::ext_equal]
pub struct NodeOperationReportView {
    pub host: Seq<char>,
    pub username: Seq<char>,
    pub status: NodeOperationStatusView,
}

impl View for NodeOperationReport {
    type V = NodeOperationReportView;

    open spec fn view(&self) -> NodeOperationReportView {
        NodeOperationReportView {
            host: self.host@,
            username: self.username@,
            status: self.status@,
        }
    }
}

/// One node's report entry.
pub open spec fn spec_node_report(node: NodeConfigView, outcome: CommandOutcomeView) -> NodeOperationReportView {
    NodeOperationReportView {
        host: node.ip,
        username: node.username,
        status: spec_classify_outcome(outcome),
    }
}

/// Builds the fleet report from the per-node outcomes: one entry per node,
/// in the fleet's input order, each node classified independently of every
/// other. A failing node keeps its entry and takes nothing from the nodes
/// after it — the fleet never fails fast and never retries.
pub fn fleet_report(nodes: &Vec<NodeConfig>, outcomes: &Vec<CommandOutcome>) -> (report: Vec<
    NodeOperationReport,
>)
    requires
        nodes@.len() == outcomes@.len(),
    ensures
        report@.len() == nodes@.len(),
        forall|i: int|
            0 <= i < nodes@.len() ==> #[trigger] report@[i]@ == spec_node_report(
                nodes@[i]@,
                outcomes@[i]@,
            ),
{
    let mut report: Vec<NodeOperationReport> = Vec::new();
    let mut i: usize = 0;
    while i < nodes.len()
        invariant
            0 <= i <= nodes@.len(),
            nodes@.len() == outcomes@.len(),
            report@.len() == i,
            forall|j: int|
                0 <= j < i ==> #[trigger] report@[j]@ == spec_node_report(
                    nodes@[j]@,
                    outcomes@[j]@,
                ),
        decreases nodes@.len() - i,
    {
        let node = &nodes[i];
        report.push(
            NodeOperationReport {
                host: node.ip.clone(),
                username: node.username.clone(),
                status: classify_outcome(&outcomes[i]),
            },
        );
        i = i + 1;
    }
    report
}

/// The model of the tool-preparation decision on one node: the tool is
/// installed when its probe finished with a non-zero exit or could not be
/// launched; a successful probe or an elapsed bound leaves the node alone.
pub open spec fn spec_tool_needs_install(probe: CommandOutcomeView) -> bool {
    match probe {
        CommandOutcomeView::Completed { exit_success, stdout, stderr } => !exit_success,
        CommandOutcomeView::TimedOut => false,
        CommandOutcomeView::LaunchFailed { error } => true,
    }
}

/// Decides from one probe outcome whether the probed tool must be
/// installed on that node.
pub fn tool_needs_install(probe: &CommandOutcome) -> (install: bool)
    ensures
        install == spec_tool_needs_install(probe@),
{
    match probe {
        CommandOutcome::Completed { exit_success, stdout: _, stderr: _ } => !*exit_success,
        CommandOutcome::TimedOut => false,
        CommandOutcome::LaunchFailed { error: _ } => true,
    }
}

/// The tool-preparation pass over the fleet: for every node, in declaration
/// order, the probe commands for the container runtime and for the remote
/// shell helper. The binary runs each probe and, where
/// `tool_needs_install` says so, the matching `install_package_command`.
pub fn join_cluster(config: &ClusterConfig) -> (probes: Vec<(CommandSpec, CommandSpec)>)
    ensures
        probes@.len() == config.nodes_configs@.len(),
        forall|i: int|
            0 <= i < probes@.len() ==> (#[trigger] probes@[i]).0@ == spec_tool_probe_command(
                config.nodes_configs@[i]@,
                "docker"@,
            ) && probes@[i].1@ == spec_tool_probe_command(config.nodes_configs@[i]@, "sshpass"@),
{
    let nodes = &config.nodes_configs;
    let mut probes: Vec<(CommandSpec, CommandSpec)> = Vec::new();
    let mut i: usize = 0;
    while i < nodes.len()
        invariant
            0 <= i <= nodes@.len(),
            probes@.len() == i,
            forall|j: int|
                0 <= j < i ==> (#[trigger] probes@[j]).0@ == spec_tool_probe_command(
                    nodes@[j]@,
                    "docker"@,
                ) && probes@[j].1@ == spec_tool_probe_command(nodes@[j]@, "sshpass"@),
        decreases nodes@.len() - i,
    {
        let node = &nodes[i];
        probes.push((tool_probe_command(node, "docker"), tool_probe_command(node, "sshpass")));
        i = i + 1;
    }
    probes
}

} // verus!
