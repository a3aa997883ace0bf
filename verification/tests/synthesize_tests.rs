use cluster_noodle::config::{ClusterConfig, EnvConfig};
use cluster_noodle::selection::{DatabaseType, ServerType, Services};
use cluster_noodle::synthesize::{db_credentials, synthesize, tls_warning, DbCredentials, TlsWarning};

fn make_config(
    server: Option<ServerType>,
    database: Option<DatabaseType>,
    traefik: bool,
) -> ClusterConfig {
    ClusterConfig {
        ip_adress: None,
        nodes_number: 0,
        nodes_configs: Vec::new(),
        cluster_docker_command: String::new(),
        project_folder_path: None,
        project_entry_file_path: None,
        ssl_certificate_path_key: None,
        ssl_certificate_path_crt: None,
        services: Services { server, database, traefik, dashboard: false },
        docker_images: Vec::new(),
    }
}

fn default_creds() -> DbCredentials {
    db_credentials(&EnvConfig {
        database_user: None,
        database_password: None,
        database_name: None,
        database_rootpassword: None,
    })
}

fn service_names(config: &ClusterConfig) -> Vec<String> {
    let creds = default_creds();
    let (descriptor, _) = synthesize(config, &creds, "/etc/nn.conf", "/etc/aa.conf");
    descriptor.services.iter().map(|entry| entry.0.clone()).collect()
}

#[test]
fn nginx_mysql_traefik_yields_four_services() {
    let config = make_config(Some(ServerType::Nginx), Some(DatabaseType::MySQL), true);
    assert_eq!(service_names(&config), vec!["traefik", "nginx", "mysql", "mysqld_exporter"]);
}

#[test]
fn empty_selection_yields_no_services() {
    let config = make_config(None, None, false);
    assert_eq!(service_names(&config), Vec::<String>::new());
}

#[test]
fn apache_postgres_yields_two_services() {
    let config = make_config(Some(ServerType::Apache), Some(DatabaseType::PostgreSQL), false);
    assert_eq!(service_names(&config), vec!["apache", "postgres"]);
}

#[test]
fn node_mongo_traefik_yields_three_services() {
    let config = make_config(Some(ServerType::NodeJS), Some(DatabaseType::MongoDB), true);
    assert_eq!(service_names(&config), vec!["traefik", "node", "mongo"]);
}

#[test]
fn lone_traefik_yields_one_service() {
    let config = make_config(None, None, true);
    assert_eq!(service_names(&config), vec!["traefik"]);
}

#[test]
fn lone_mysql_yields_database_and_exporter() {
    let config = make_config(None, Some(DatabaseType::MySQL), false);
    assert_eq!(service_names(&config), vec!["mysql", "mysqld_exporter"]);
}

#[test]
fn traefik_service_contents() {
    let config = make_config(None, None, true);
    let creds = default_creds();
    let (descriptor, warning) = synthesize(&config, &creds, "/n.conf", "/a.conf");
    assert!(warning.is_none());
    assert_eq!(descriptor.version, "3.9");
    let (name, traefik) = &descriptor.services[0];
    assert_eq!(name, "traefik");
    assert_eq!(traefik.image, "traefik:v3.0");
    assert_eq!(
        traefik.command.clone().unwrap(),
        vec![
            "--api.dashboard=true",
            "--providers.docker=true",
            "--entrypoints.web.address=:80",
            "--metrics.prometheus=true",
        ]
    );
    assert_eq!(traefik.ports.clone().unwrap(), vec!["80:80", "8080:8080"]);
    assert_eq!(
        traefik.volumes.clone().unwrap(),
        vec!["/var/run/docker.sock:/var/run/docker.sock:ro"]
    );
    assert_eq!(
        traefik.labels.clone().unwrap(),
        vec![
            "traefik.enable=true",
            "traefik.http.routers.traefik.rule=Host(`traefik.localhost`)",
            "traefik.http.routers.traefik.service=api@internal",
        ]
    );
    assert!(traefik.environment.is_none());
    assert!(traefik.depends_on.is_none());
    assert!(descriptor.volumes.is_empty());
}

#[test]
fn nginx_with_both_tls_halves_gets_mounts_and_port() {
    let mut config = make_config(Some(ServerType::Nginx), None, false);
    config.ssl_certificate_path_crt = Some(String::from("/certs/server.crt"));
    config.ssl_certificate_path_key = Some(String::from("/certs/server.key"));
    let creds = default_creds();
    let (descriptor, warning) = synthesize(&config, &creds, "/n.conf", "/a.conf");
    assert!(warning.is_none());
    let (name, nginx) = &descriptor.services[0];
    assert_eq!(name, "nginx");
    let volumes = nginx.volumes.clone().unwrap();
    assert_eq!(
        volumes,
        vec![
            "/n.conf:/etc/nginx/conf.d/server.conf:ro",
            "/certs/server.crt:/etc/nginx/ssl/crt.pem:ro",
            "/certs/server.key:/etc/nginx/ssl/key.pem:ro",
        ]
    );
    assert_eq!(nginx.ports.clone().unwrap(), vec!["80:8080", "443:443"]);
}

#[test]
fn nginx_with_key_only_gets_no_tls_and_warning() {
    let mut config = make_config(Some(ServerType::Nginx), None, false);
    config.ssl_certificate_path_key = Some(String::from("/certs/server.key"));
    let creds = default_creds();
    let (descriptor, warning) = synthesize(&config, &creds, "/n.conf", "/a.conf");
    assert_eq!(warning, Some(TlsWarning::CertificateMissing));
    let (_, nginx) = &descriptor.services[0];
    assert_eq!(
        nginx.volumes.clone().unwrap(),
        vec!["/n.conf:/etc/nginx/conf.d/server.conf:ro"]
    );
    assert_eq!(nginx.ports.clone().unwrap(), vec!["80:8080"]);
}

#[test]
fn nginx_with_crt_only_gets_no_tls_and_warning() {
    let mut config = make_config(Some(ServerType::Nginx), None, false);
    config.ssl_certificate_path_crt = Some(String::from("/certs/server.crt"));
    let creds = default_creds();
    let (descriptor, warning) = synthesize(&config, &creds, "/n.conf", "/a.conf");
    assert_eq!(warning, Some(TlsWarning::KeyMissing));
    let (_, nginx) = &descriptor.services[0];
    assert_eq!(
        nginx.volumes.clone().unwrap(),
        vec!["/n.conf:/etc/nginx/conf.d/server.conf:ro"]
    );
    assert_eq!(nginx.ports.clone().unwrap(), vec!["80:8080"]);
}

#[test]
fn apache_with_both_tls_halves_gets_mounts_and_port() {
    let mut config = make_config(Some(ServerType::Apache), None, false);
    config.ssl_certificate_path_crt = Some(String::from("/c.crt"));
    config.ssl_certificate_path_key = Some(String::from("/k.key"));
    config.project_folder_path = Some(String::from("/srv/app"));
    let creds = default_creds();
    let (descriptor, warning) = synthesize(&config, &creds, "/n.conf", "/a.conf");
    assert!(warning.is_none());
    let (name, apache) = &descriptor.services[0];
    assert_eq!(name, "apache");
    assert_eq!(apache.image, "webdevops/php-apache:8.4");
    assert_eq!(
        apache.volumes.clone().unwrap(),
        vec![
            "/a.conf:/opt/docker/etc/httpd/vhost.conf:ro",
            "/srv/app:/app",
            "/c.crt:/opt/docker/etc/httpd/ssl/server.crt:ro",
            "/k.key:/opt/docker/etc/httpd/ssl/server.key:ro",
        ]
    );
    assert_eq!(apache.ports.clone().unwrap(), vec!["8080:80", "443:443"]);
}

#[test]
fn tls_warning_ignored_for_node_runtime() {
    let mut config = make_config(Some(ServerType::NodeJS), None, false);
    config.ssl_certificate_path_key = Some(String::from("/k.key"));
    let creds = default_creds();
    let (_, warning) = synthesize(&config, &creds, "/n.conf", "/a.conf");
    assert!(warning.is_none());
}

#[test]
fn tls_warning_function_cases() {
    assert_eq!(tls_warning(&Some(ServerType::Nginx), true, false), Some(TlsWarning::KeyMissing));
    assert_eq!(
        tls_warning(&Some(ServerType::Apache), false, true),
        Some(TlsWarning::CertificateMissing)
    );
    assert_eq!(tls_warning(&Some(ServerType::Nginx), true, true), None);
    assert_eq!(tls_warning(&Some(ServerType::NodeJS), true, false), None);
    assert_eq!(tls_warning(&None, false, true), None);
}

#[test]
fn nginx_project_mount_added() {
    let mut config = make_config(Some(ServerType::Nginx), None, true);
    config.project_folder_path = Some(String::from("/srv/site"));
    let creds = default_creds();
    let (descriptor, _) = synthesize(&config, &creds, "/n.conf", "/a.conf");
    let (_, nginx) = &descriptor.services[1];
    assert_eq!(
        nginx.volumes.clone().unwrap(),
        vec!["/n.conf:/etc/nginx/conf.d/server.conf:ro", "/srv/site:/var/www/html"]
    );
    assert_eq!(
        nginx.labels.clone().unwrap(),
        vec![
            "traefik.enable=true",
            "traefik.http.routers.nginx.rule=Host(`nginx.localhost`)",
            "traefik.http.services.nginx.loadbalancer.server.port=80",
        ]
    );
}

#[test]
fn node_service_contents() {
    let config = make_config(Some(ServerType::NodeJS), None, false);
    let creds = default_creds();
    let (descriptor, _) = synthesize(&config, &creds, "/n.conf", "/a.conf");
    let (name, node) = &descriptor.services[0];
    assert_eq!(name, "node");
    assert_eq!(node.image, "node:22");
    assert_eq!(node.command.clone().unwrap(), vec!["bash -c 'npm install && npm start'"]);
    assert_eq!(node.ports.clone().unwrap(), vec!["3000:3000"]);
    assert!(node.volumes.is_none());
    assert!(node.labels.is_none());
}

#[test]
fn node_labels_name_its_listening_port() {
    let config = make_config(Some(ServerType::NodeJS), None, true);
    let creds = default_creds();
    let (descriptor, _) = synthesize(&config, &creds, "/n.conf", "/a.conf");
    let (name, node) = &descriptor.services[1];
    assert_eq!(name, "node");
    assert_eq!(node.ports.clone().unwrap(), vec!["3000:3000"]);
    assert_eq!(
        node.labels.clone().unwrap(),
        vec![
            "traefik.enable=true",
            "traefik.http.routers.node.rule=Host(`node.localhost`)",
            "traefik.http.services.node.loadbalancer.server.port=3000",
        ]
    );
}

#[test]
fn mysql_services_and_volume() {
    let config = make_config(None, Some(DatabaseType::MySQL), true);
    let creds = default_creds();
    let (descriptor, _) = synthesize(&config, &creds, "/n.conf", "/a.conf");
    let (_, mysql) = &descriptor.services[1];
    assert_eq!(mysql.image, "mysql:8.4");
    assert_eq!(
        mysql.environment.clone().unwrap(),
        vec![
            (String::from("MYSQL_ROOT_PASSWORD"), String::from("rootpassword")),
            (String::from("MYSQL_USER"), String::from("appuser")),
            (String::from("MYSQL_PASSWORD"), String::from("app")),
            (String::from("MYSQL_DATABASE"), String::from("app")),
        ]
    );
    assert_eq!(mysql.ports.clone().unwrap(), vec!["3306:3306"]);
    assert_eq!(mysql.volumes.clone().unwrap(), vec!["mysql_data:/var/lib/mysql"]);
    let (_, exporter) = &descriptor.services[2];
    assert_eq!(exporter.image, "prom/mysqld-exporter:latest");
    assert_eq!(
        exporter.environment.clone().unwrap(),
        vec![(String::from("DATA_SOURCE_NAME"), String::from("appuser:app@(mysql:3306)/app"))]
    );
    assert_eq!(exporter.depends_on.clone().unwrap(), vec!["mysql"]);
    assert_eq!(
        exporter.labels.clone().unwrap(),
        vec![
            "traefik.enable=true",
            "traefik.http.routers.mysqlmetrics.rule=Host(`mysql-metrics.localhost`)",
            "traefik.http.services.mysqlmetrics.loadbalancer.server.port=9104",
        ]
    );
    assert_eq!(descriptor.volumes, vec!["mysql_data"]);
}

#[test]
fn postgres_service_and_volume() {
    let config = make_config(None, Some(DatabaseType::PostgreSQL), false);
    let creds = default_creds();
    let (descriptor, _) = synthesize(&config, &creds, "/n.conf", "/a.conf");
    let (name, postgres) = &descriptor.services[0];
    assert_eq!(name, "postgres");
    assert_eq!(postgres.image, "postgres:15");
    assert_eq!(
        postgres.environment.clone().unwrap(),
        vec![
            (String::from("POSTGRES_DB"), String::from("app")),
            (String::from("POSTGRES_USER"), String::from("appuser")),
            (String::from("POSTGRES_PASSWORD"), String::from("app")),
        ]
    );
    assert_eq!(postgres.ports.clone().unwrap(), vec!["5432:5432"]);
    assert_eq!(
        postgres.volumes.clone().unwrap(),
        vec!["postgres_data:/var/lib/postgresql/data"]
    );
    assert_eq!(descriptor.volumes, vec!["postgres_data"]);
}

#[test]
fn mongo_service_and_volume() {
    let config = make_config(None, Some(DatabaseType::MongoDB), false);
    let creds = default_creds();
    let (descriptor, _) = synthesize(&config, &creds, "/n.conf", "/a.conf");
    let (name, mongo) = &descriptor.services[0];
    assert_eq!(name, "mongo");
    assert_eq!(mongo.image, "mongo:7");
    assert_eq!(
        mongo.environment.clone().unwrap(),
        vec![
            (String::from("MONGO_INITDB_ROOT_USERNAME"), String::from("root")),
            (String::from("MONGO_INITDB_ROOT_PASSWORD"), String::from("app")),
        ]
    );
    assert_eq!(mongo.ports.clone().unwrap(), vec!["27017:27017"]);
    assert_eq!(mongo.volumes.clone().unwrap(), vec!["mongo_data:/data/db"]);
    assert_eq!(descriptor.volumes, vec!["mongo_data"]);
}

#[test]
fn configured_credentials_override_defaults() {
    let creds = db_credentials(&EnvConfig {
        database_user: Some(String::from("alice")),
        database_password: Some(String::from("s3cret")),
        database_name: Some(String::from("prod")),
        database_rootpassword: Some(String::from("r00t")),
    });
    assert_eq!(creds.user, "alice");
    assert_eq!(creds.password, "s3cret");
    assert_eq!(creds.name, "prod");
    assert_eq!(creds.root_password, "r00t");
    let config = make_config(None, Some(DatabaseType::MySQL), false);
    let (descriptor, _) = synthesize(&config, &creds, "/n.conf", "/a.conf");
    let (_, exporter) = &descriptor.services[1];
    assert_eq!(
        exporter.environment.clone().unwrap(),
        vec![(String::from("DATA_SOURCE_NAME"), String::from("alice:s3cret@(mysql:3306)/app"))]
    );
}

#[test]
fn synthesize_is_deterministic() {
    let mut config = make_config(Some(ServerType::Nginx), Some(DatabaseType::MySQL), true);
    config.project_folder_path = Some(String::from("/srv/app"));
    config.ssl_certificate_path_crt = Some(String::from("/c.crt"));
    config.ssl_certificate_path_key = Some(String::from("/k.key"));
    let creds = default_creds();
    let first = synthesize(&config, &creds, "/n.conf", "/a.conf");
    let second = synthesize(&config, &creds, "/n.conf", "/a.conf");
    assert_eq!(first, second);
}
