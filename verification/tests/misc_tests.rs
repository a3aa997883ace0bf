use cluster_noodle::models::{CLIServiceArgs, Service, ServiceManager};
use cluster_noodle::paths::{ApacheConfig, EnvVariables, NginxConfig};
use cluster_noodle::selection::{validate_start_inputs, ConfigConflict, DatabaseType, ServerType, Services};
use cluster_noodle::strutil::{contains_str, lines_of, split_str, starts_with_str, trim_str};

fn selection(server: Option<ServerType>, database: Option<DatabaseType>, traefik: bool) -> Services {
    Services { server, database, traefik, dashboard: false }
}

#[test]
fn start_needs_exactly_one_service_source() {
    let none = selection(None, None, false);
    let some = selection(Some(ServerType::Nginx), None, false);
    assert_eq!(validate_start_inputs(true, &some), Err(ConfigConflict::BothFileAndServices));
    assert_eq!(validate_start_inputs(false, &none), Err(ConfigConflict::Neither));
    assert!(validate_start_inputs(true, &none).is_ok());
    assert!(validate_start_inputs(false, &some).is_ok());
}

#[test]
fn traefik_alone_counts_as_a_service() {
    let sel = selection(None, None, true);
    assert!(sel.any_selected());
    assert!(validate_start_inputs(false, &sel).is_ok());
}

#[test]
fn dashboard_alone_selects_nothing() {
    let sel = Services { server: None, database: None, traefik: false, dashboard: true };
    assert!(!sel.any_selected());
    assert_eq!(validate_start_inputs(false, &sel), Err(ConfigConflict::Neither));
}

#[test]
fn database_alone_counts_as_a_service() {
    let sel = selection(None, Some(DatabaseType::MongoDB), false);
    assert!(sel.any_selected());
}

#[test]
fn paths_are_rooted_at_the_given_home() {
    let env = EnvVariables { home: String::from("/home/u") };
    assert_eq!(env.get_conf_path(), "/home/u/.config/ClusterNoodle");
    assert_eq!(env.get_docker_file_path(), "/home/u/.config/ClusterNoodle/docker-compose.yml");
    assert_eq!(env.get_conf_file_path(), "/home/u/.config/ClusterNoodle/conf.cluster_noodle");
    assert_eq!(env.get_env_file_path(), "/home/u/.config/ClusterNoodle/app.env");
    assert_eq!(env.get_usable_ip_script_path(), "/opt/ClusterNoodle/scripts/usable_ip_adress.sh");
}

#[test]
fn bundled_server_configs_are_rooted_at_the_given_base() {
    let apache = ApacheConfig { base_dir: String::from("/opt/tool") };
    assert_eq!(apache.get_vhost_config_path(), "/opt/tool/src/services/apache/vhost.conf");
    let nginx = NginxConfig { base_dir: String::from("/opt/tool") };
    assert_eq!(nginx.get_config_path(), "/opt/tool/src/services/nginx/nginx.conf");
}

#[test]
fn service_conversion_carries_every_field() {
    let service = Service {
        name: String::from("web"),
        image: String::from("nginx:1"),
        command: Some(vec![String::from("run")]),
        ports: Some(vec![String::from("80:80")]),
        volumes: None,
        environment: Some(vec![(String::from("K"), String::from("V"))]),
        labels: None,
        requiredServices: Some(vec![String::from("db")]),
        networks: Some(vec![String::from("net")]),
    };
    let docker = service.toDockerService();
    assert_eq!(docker.image, "nginx:1");
    assert_eq!(docker.command, Some(vec![String::from("run")]));
    assert_eq!(docker.ports, Some(vec![String::from("80:80")]));
    assert_eq!(docker.volumes, None);
    assert_eq!(docker.environment, Some(vec![(String::from("K"), String::from("V"))]));
    assert_eq!(docker.labels, None);
    assert_eq!(docker.depends_on, Some(vec![String::from("db")]));
    assert_eq!(docker.networks, Some(vec![String::from("net")]));
}

#[test]
fn service_manager_builders_are_empty() {
    assert!(ServiceManager::buildTraefikServices().is_empty());
    assert!(ServiceManager::buldDashboardServices().is_empty());
    assert!(ServiceManager::buildDatabaseServices(String::from("mysql")).is_empty());
    assert!(ServiceManager::buildServersServices(String::from("nginx")).is_empty());
    let built = ServiceManager {}.buildServices(CLIServiceArgs {
        server: Some(String::from("nginx")),
        database: Some(String::from("mysql")),
        traefik: true,
        dashboard: true,
    });
    assert!(built.is_empty());
}

#[test]
fn split_keeps_empty_fragments() {
    assert_eq!(split_str("a,b,c", ','), vec!["a", "b", "c"]);
    assert_eq!(split_str(",b,", ','), vec!["", "b", ""]);
    assert_eq!(split_str("", ','), vec![""]);
    assert_eq!(split_str("abc", ','), vec!["abc"]);
}

#[test]
fn trim_removes_surrounding_whitespace_only() {
    assert_eq!(trim_str("  a b \t\r\n"), "a b");
    assert_eq!(trim_str(""), "");
    assert_eq!(trim_str("   "), "");
    assert_eq!(trim_str("x"), "x");
}

#[test]
fn prefix_and_substring_tests() {
    assert!(starts_with_str("docker swarm join --token", "docker swarm join"));
    assert!(!starts_with_str("docker swarm", "docker swarm join"));
    assert!(contains_str("Error response from daemon: no swarm", "Error response from daemon"));
    assert!(!contains_str("all fine", "Error response from daemon"));
    assert!(contains_str("anything", ""));
}

#[test]
fn lines_drop_final_newline_and_carriage_returns() {
    assert_eq!(lines_of("a\nb\n"), vec!["a", "b"]);
    assert_eq!(lines_of("a\r\nb"), vec!["a", "b"]);
    assert_eq!(lines_of(""), Vec::<String>::new());
    assert_eq!(lines_of("a\n\nb"), vec!["a", "", "b"]);
}
