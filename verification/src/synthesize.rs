//! The deployment descriptor synthesizer.
//!
//! A pure function from the service selection, the resolved mount paths and
//! the database credentials to a deployment descriptor. Every rule is stated
//! once as a spec-level model and once as executable code proved equal to it,
//! so two runs on the same inputs give the same descriptor, byte for byte.
//!
//! The rules, composed independently into one document:
//! - the reverse proxy, when enabled;
//! - one service for the selected server runtime, with its configuration
//!   mount, the optional project mount, and the TLS mounts and port 443 only
//!   when both certificate and key were supplied (a lone half of the pair
//!   yields a warning naming the missing counterpart instead);
//! - one service per selected database engine, with generated credentials
//!   falling back to fixed defaults, plus a metrics exporter for MySQL;
//! - the named volumes referenced by the emitted services.

use vstd::prelude::*;
use vstd::string::*;
use crate::config::{ClusterConfig, EnvConfig};
use crate::descriptor::{
    DeploymentDescriptor,
    DeploymentDescriptorView,
    ServiceSpec,
    ServiceSpecView,
};
use crate::selection::{DatabaseType, ServerType};

verus! {

/// The database credentials the synthesizer works with, after the fixed
/// defaults were applied to the externally configured values.
#[derive(Debug, Clone, PartialEq, Eq)]
pub struct DbCredentials {
    pub user: String,
    pub password: String,
    pub name: String,
    pub root_password: String,
}

/// The mathematical model of `DbCredentials`.
#[verifier::ext_equal]
pub struct DbCredentialsView {
    pub user: Seq<char>,
    pub password: Seq<char>,
    pub name: Seq<char>,
    pub root_password: Seq<char>,
}

impl View for DbCredentials {
    type V = DbCredentialsView;

    open spec fn view(&self) -> DbCredentialsView {
        DbCredentialsView {
            user: self.user@,
            password: self.password@,
            name: self.name@,
            root_password: self.root_password@,
        }
    }
}

/// The model of the credential defaulting rule: each configured value is
/// taken as given, each absent one falls back to its fixed default.
pub open spec fn spec_db_credentials(env: EnvConfig) -> DbCredentialsView {
    DbCredentialsView {
        user: if env.database_user is Some {
            env.database_user->0@
        } else {
            "appuser"@
        },
        password: if env.database_password is Some {
            env.database_password->0@
        } else {
            "app"@
        },
        name: if env.database_name is Some {
            env.database_name->0@
        } else {
            "app"@
        },
        root_password: if env.database_rootpassword is Some {
            env.database_rootpassword->0@
        } else {
            "rootpassword"@
        },
    }
}

/// Applies the credential defaults to the externally configured values.
pub fn db_credentials(env: &EnvConfig) -> (c: DbCredentials)
    ensures
        c@ == spec_db_credentials(*env),
{
    let user = match &env.database_user {
        Some(u) => u.clone(),
        None => String::from_str("appuser"),
    };
    let password = match &env.database_password {
        Some(p) => p.clone(),
        None => String::from_str("app"),
    };
    let name = match &env.database_name {
        Some(n) => n.clone(),
        None => String::from_str("app"),
    };
    let root_password = match &env.database_rootpassword {
        Some(r) => r.clone(),
        None => String::from_str("rootpassword"),
    };
    DbCredentials { user, password, name, root_password }
}

/// The warning surfaced when only one half of the TLS pair was supplied for
/// a server runtime that could use it.
#[derive(Debug, Clone, Copy, PartialEq, Eq, Structural)]
pub enum TlsWarning {
    /// A certificate was supplied without its key.
    KeyMissing,
    /// A key was supplied without its certificate.
    CertificateMissing,
}

impl TlsWarning {
    /// A user-facing description naming the missing counterpart.
    pub fn message(&self) -> (m: String)
        ensures
            *self is KeyMissing ==> m@ == "Only the TLS certificate was supplied; the key is missing (--ssl_certificate_path_key)!"@,
            *self is CertificateMissing ==> m@ == "Only the TLS key was supplied; the certificate is missing (--ssl_certificate_path_crt)!"@,
    {
        match self {
            TlsWarning::KeyMissing => String::from_str(
                "Only the TLS certificate was supplied; the key is missing (--ssl_certificate_path_key)!",
            ),
            TlsWarning::CertificateMissing => String::from_str(
                "Only the TLS key was supplied; the certificate is missing (--ssl_certificate_path_crt)!",
            ),
        }
    }
}

/// Whether the selected server runtime serves files behind TLS mounts; only
/// those runtimes look at the TLS pair at all.
pub open spec fn spec_server_uses_tls(server: Option<ServerType>) -> bool {
    server == Some(ServerType::Nginx) || server == Some(ServerType::Apache)
}

/// The model of the TLS warning rule: a warning is surfaced exactly when the
/// selected server runtime could use the pair and exactly one half of it was
/// supplied.
pub open spec fn spec_tls_warning(server: Option<ServerType>, has_crt: bool, has_key: bool) -> Option<
    TlsWarning,
> {
    if spec_server_uses_tls(server) && has_crt && !has_key {
        Some(TlsWarning::KeyMissing)
    } else if spec_server_uses_tls(server) && has_key && !has_crt {
        Some(TlsWarning::CertificateMissing)
    } else {
        None
    }
}

/// The model of the reverse-proxy service: fixed image, dashboard and
/// metrics flags, host ports 80 and 8080, a read-only mount of the local
/// container-runtime socket, and routing labels pointing at itself.
pub open spec fn spec_traefik_service() -> ServiceSpecView {
    ServiceSpecView {
        image: "traefik:v3.0"@,
        command: Some(
            seq![
                "--api.dashboard=true"@,
                "--providers.docker=true"@,
                "--entrypoints.web.address=:80"@,
                "--metrics.prometheus=true"@,
            ],
        ),
        ports: Some(seq!["80:80"@, "8080:8080"@]),
        volumes: Some(seq!["/var/run/docker.sock:/var/run/docker.sock:ro"@]),
        environment: None,
        labels: Some(
            seq![
                "traefik.enable=true"@,
                "traefik.http.routers.traefik.rule=Host(`traefik.localhost`)"@,
                "traefik.http.routers.traefik.service=api@internal"@,
            ],
        ),
        depends_on: None,
    }
}

/// The model of the nginx service: runtime image, a read-only mount of the
/// virtual-host configuration, the optional project mount, the TLS mounts
/// and port 443 only when both halves of the pair are present, and routing
/// labels when the reverse proxy is enabled.
pub open spec fn spec_nginx_service(
    conf_path: Seq<char>,
    project: Option<Seq<char>>,
    crt: Option<Seq<char>>,
    key: Option<Seq<char>>,
    traefik: bool,
) -> ServiceSpecView {
    let base_volumes = seq![conf_path + ":/etc/nginx/conf.d/server.conf:ro"@];
    let with_project = if project is Some {
        base_volumes.push(project->0 + ":/var/www/html"@)
    } else {
        base_volumes
    };
    let volumes = if crt is Some && key is Some {
        with_project.push(crt->0 + ":/etc/nginx/ssl/crt.pem:ro"@).push(
            key->0 + ":/etc/nginx/ssl/key.pem:ro"@,
        )
    } else {
        with_project
    };
    let ports = if crt is Some && key is Some {
        seq!["80:8080"@, "443:443"@]
    } else {
        seq!["80:8080"@]
    };
    ServiceSpecView {
        image: "trafex/php-nginx:3.9.0"@,
        command: None,
        ports: Some(ports),
        volumes: Some(volumes),
        environment: None,
        labels: if traefik {
            Some(
                seq![
                    "traefik.enable=true"@,
                    "traefik.http.routers.nginx.rule=Host(`nginx.localhost`)"@,
                    "traefik.http.services.nginx.loadbalancer.server.port=80"@,
                ],
            )
        } else {
            None
        },
        depends_on: None,
    }
}

/// The model of the apache service; same shape as nginx with apache's image,
/// in-container locations and labels.
pub open spec fn spec_apache_service(
    vhost_path: Seq<char>,
    project: Option<Seq<char>>,
    crt: Option<Seq<char>>,
    key: Option<Seq<char>>,
    traefik: bool,
) -> ServiceSpecView {
    let base_volumes = seq![vhost_path + ":/opt/docker/etc/httpd/vhost.conf:ro"@];
    let with_project = if project is Some {
        base_volumes.push(project->0 + ":/app"@)
    } else {
        base_volumes
    };
    let volumes = if crt is Some && key is Some {
        with_project.push(crt->0 + ":/opt/docker/etc/httpd/ssl/server.crt:ro"@).push(
            key->0 + ":/opt/docker/etc/httpd/ssl/server.key:ro"@,
        )
    } else {
        with_project
    };
    let ports = if crt is Some && key is Some {
        seq!["8080:80"@, "443:443"@]
    } else {
        seq!["8080:80"@]
    };
    ServiceSpecView {
        image: "webdevops/php-apache:8.4"@,
        command: None,
        ports: Some(ports),
        volumes: Some(volumes),
        environment: None,
        labels: if traefik {
            Some(
                seq![
                    "traefik.enable=true"@,
                    "traefik.http.routers.apache.rule=Host(`apache.localhost`)"@,
                    "traefik.http.services.apache.loadbalancer.server.port=80"@,
                ],
            )
        } else {
            None
        },
        depends_on: None,
    }
}

/// The model of the node service: fixed runtime image, an install-and-start
/// command, port 3000, and routing labels when the reverse proxy is enabled.
pub open spec fn spec_node_service(traefik: bool) -> ServiceSpecView {
    ServiceSpecView {
        image: "node:22"@,
        command: Some(seq!["bash -c 'npm install && npm start'"@]),
        ports: Some(seq!["3000:3000"@]),
        volumes: None,
        environment: None,
        labels: if traefik {
            Some(
                seq![
                    "traefik.enable=true"@,
                    "traefik.http.routers.node.rule=Host(`node.localhost`)"@,
                    "traefik.http.services.node.loadbalancer.server.port=3000"@,
                ],
            )
        } else {
            None
        },
        depends_on: None,
    }
}

/// The model of the MySQL service: engine image, the generated credentials,
/// the standard port and a persistent named volume.
pub open spec fn spec_mysql_service(creds: DbCredentialsView) -> ServiceSpecView {
    ServiceSpecView {
        image: "mysql:8.4"@,
        command: None,
        ports: Some(seq!["3306:3306"@]),
        volumes: Some(seq!["mysql_data:/var/lib/mysql"@]),
        environment: Some(
            seq![
                ("MYSQL_ROOT_PASSWORD"@, creds.root_password),
                ("MYSQL_USER"@, creds.user),
                ("MYSQL_PASSWORD"@, creds.password),
                ("MYSQL_DATABASE"@, creds.name),
            ],
        ),
        labels: None,
        depends_on: None,
    }
}

/// The model of the MySQL metrics exporter: its data source names the MySQL
/// service, it depends on that service, and it carries its own routing
/// labels when the reverse proxy is enabled.
pub open spec fn spec_mysqld_exporter_service(creds: DbCredentialsView, traefik: bool) -> ServiceSpecView {
    ServiceSpecView {
        image: "prom/mysqld-exporter:latest"@,
        command: None,
        ports: None,
        volumes: None,
        environment: Some(
            seq![("DATA_SOURCE_NAME"@, creds.user + ":"@ + creds.password + "@(mysql:3306)/app"@)],
        ),
        labels: if traefik {
            Some(
                seq![
                    "traefik.enable=true"@,
                    "traefik.http.routers.mysqlmetrics.rule=Host(`mysql-metrics.localhost`)"@,
                    "traefik.http.services.mysqlmetrics.loadbalancer.server.port=9104"@,
                ],
            )
        } else {
            None
        },
        depends_on: Some(seq!["mysql"@]),
    }
}

/// The model of the PostgreSQL service.
pub open spec fn spec_postgres_service(creds: DbCredentialsView) -> ServiceSpecView {
    ServiceSpecView {
        image: "postgres:15"@,
        command: None,
        ports: Some(seq!["5432:5432"@]),
        volumes: Some(seq!["postgres_data:/var/lib/postgresql/data"@]),
        environment: Some(
            seq![
                ("POSTGRES_DB"@, creds.name),
                ("POSTGRES_USER"@, creds.user),
                ("POSTGRES_PASSWORD"@, creds.password),
            ],
        ),
        labels: None,
        depends_on: None,
    }
}

/// The model of the MongoDB service.
pub open spec fn spec_mongo_service(creds: DbCredentialsView) -> ServiceSpecView {
    ServiceSpecView {
        image: "mongo:7"@,
        command: None,
        ports: Some(seq!["27017:27017"@]),
        volumes: Some(seq!["mongo_data:/data/db"@]),
        environment: Some(
            seq![
                ("MONGO_INITDB_ROOT_USERNAME"@, "root"@),
                ("MONGO_INITDB_ROOT_PASSWORD"@, creds.password),
            ],
        ),
        labels: None,
        depends_on: None,
    }
}

/// The service entries the reverse-proxy toggle contributes.
pub open spec fn spec_traefik_entries(traefik: bool) -> Seq<(Seq<char>, ServiceSpecView)> {
    if traefik {
        seq![("traefik"@, spec_traefik_service())]
    } else {
        Seq::empty()
    }
}

/// The service entries the server-runtime selection contributes.
pub open spec fn spec_server_entries(
    server: Option<ServerType>,
    nginx_conf: Seq<char>,
    apache_vhost: Seq<char>,
    project: Option<Seq<char>>,
    crt: Option<Seq<char>>,
    key: Option<Seq<char>>,
    traefik: bool,
) -> Seq<(Seq<char>, ServiceSpecView)> {
    match server {
        Some(ServerType::Nginx) => seq![
            ("nginx"@, spec_nginx_service(nginx_conf, project, crt, key, traefik)),
        ],
        Some(ServerType::Apache) => seq![
            ("apache"@, spec_apache_service(apache_vhost, project, crt, key, traefik)),
        ],
        Some(ServerType::NodeJS) => seq![("node"@, spec_node_service(traefik))],
        None => Seq::empty(),
    }
}

/// The service entries the database selection contributes.
pub open spec fn spec_database_entries(
    database: Option<DatabaseType>,
    creds: DbCredentialsView,
    traefik: bool,
) -> Seq<(Seq<char>, ServiceSpecView)> {
    match database {
        Some(DatabaseType::MySQL) => seq![
            ("mysql"@, spec_mysql_service(creds)),
            ("mysqld_exporter"@, spec_mysqld_exporter_service(creds, traefik)),
        ],
        Some(DatabaseType::PostgreSQL) => seq![("postgres"@, spec_postgres_service(creds))],
        Some(DatabaseType::MongoDB) => seq![("mongo"@, spec_mongo_service(creds))],
        None => Seq::empty(),
    }
}

/// The named volumes the database selection contributes; no database engine
/// means no volumes at all.
pub open spec fn spec_volume_names(database: Option<DatabaseType>) -> Seq<Seq<char>> {
    match database {
        Some(DatabaseType::MySQL) => seq!["mysql_data"@],
        Some(DatabaseType::PostgreSQL) => seq!["postgres_data"@],
        Some(DatabaseType::MongoDB) => seq!["mongo_data"@],
        None => Seq::empty(),
    }
}

/// The model of the whole synthesizer: the reverse proxy, the server runtime
/// and the database engine contribute their entries independently, in that
/// fixed order, over one version marker.
pub open spec fn spec_synthesize(
    server: Option<ServerType>,
    database: Option<DatabaseType>,
    traefik: bool,
    nginx_conf: Seq<char>,
    apache_vhost: Seq<char>,
    project: Option<Seq<char>>,
    crt: Option<Seq<char>>,
    key: Option<Seq<char>>,
    creds: DbCredentialsView,
) -> DeploymentDescriptorView {
    DeploymentDescriptorView {
        version: "3.9"@,
        services: spec_traefik_entries(traefik) + spec_server_entries(
            server,
            nginx_conf,
            apache_vhost,
            project,
            crt,
            key,
            traefik,
        ) + spec_database_entries(database, creds, traefik),
        volumes: spec_volume_names(database),
    }
}

/// The service keys a selection is expected to produce: the reverse proxy
/// when enabled, then the selected server runtime, then the selected
/// database engine with its exporter for MySQL.
pub open spec fn spec_expected_service_names(
    server: Option<ServerType>,
    database: Option<DatabaseType>,
    traefik: bool,
) -> Seq<Seq<char>> {
    (if traefik {
        seq!["traefik"@]
    } else {
        Seq::<Seq<char>>::empty()
    }) + (match server {
        Some(ServerType::Nginx) => seq!["nginx"@],
        Some(ServerType::Apache) => seq!["apache"@],
        Some(ServerType::NodeJS) => seq!["node"@],
        None => Seq::<Seq<char>>::empty(),
    }) + (match database {
        Some(DatabaseType::MySQL) => seq!["mysql"@, "mysqld_exporter"@],
        Some(DatabaseType::PostgreSQL) => seq!["postgres"@],
        Some(DatabaseType::MongoDB) => seq!["mongo"@],
        None => Seq::<Seq<char>>::empty(),
    })
}

/// For every combination of server runtime, database engine and
/// reverse-proxy toggle, the synthesized descriptor holds exactly the
/// expected service keys, in emission order, whatever the paths and
/// credentials are.
pub proof fn lemma_synthesize_service_names(
    server: Option<ServerType>,
    database: Option<DatabaseType>,
    traefik: bool,
    nginx_conf: Seq<char>,
    apache_vhost: Seq<char>,
    project: Option<Seq<char>>,
    crt: Option<Seq<char>>,
    key: Option<Seq<char>>,
    creds: DbCredentialsView,
)
    ensures
        spec_synthesize(
            server,
            database,
            traefik,
            nginx_conf,
            apache_vhost,
            project,
            crt,
            key,
            creds,
        ).service_names() == spec_expected_service_names(server, database, traefik),
{
    let d = spec_synthesize(
        server,
        database,
        traefik,
        nginx_conf,
        apache_vhost,
        project,
        crt,
        key,
        creds,
    );
    assert(d.service_names() =~= spec_expected_service_names(server, database, traefik));
}

/// The descriptor's volume set holds exactly what the selected database
/// engine references, and is empty exactly when no engine is selected.
pub proof fn lemma_volumes_follow_database(
    server: Option<ServerType>,
    database: Option<DatabaseType>,
    traefik: bool,
    nginx_conf: Seq<char>,
    apache_vhost: Seq<char>,
    project: Option<Seq<char>>,
    crt: Option<Seq<char>>,
    key: Option<Seq<char>>,
    creds: DbCredentialsView,
)
    ensures
        spec_synthesize(
            server,
            database,
            traefik,
            nginx_conf,
            apache_vhost,
            project,
            crt,
            key,
            creds,
        ).volumes == spec_volume_names(database),
        spec_volume_names(database).len() == 0 <==> database is None,
{
    match database {
        Some(DatabaseType::MySQL) => {},
        Some(DatabaseType::PostgreSQL) => {},
        Some(DatabaseType::MongoDB) => {},
        None => {},
    }
}

/// Synthesis is deterministic: two descriptors synthesized from identical
/// inputs are identical, byte for byte. Together with the `ensures` of
/// `synthesize`, which pins its result to `spec_synthesize`, this makes two
/// runs on equal inputs interchangeable.
pub proof fn lemma_synthesize_deterministic(
    d1: DeploymentDescriptorView,
    d2: DeploymentDescriptorView,
    server: Option<ServerType>,
    database: Option<DatabaseType>,
    traefik: bool,
    nginx_conf: Seq<char>,
    apache_vhost: Seq<char>,
    project: Option<Seq<char>>,
    crt: Option<Seq<char>>,
    key: Option<Seq<char>>,
    creds: DbCredentialsView,
)
    requires
        d1 == spec_synthesize(
            server,
            database,
            traefik,
            nginx_conf,
            apache_vhost,
            project,
            crt,
            key,
            creds,
        ),
        d2 == spec_synthesize(
            server,
            database,
            traefik,
            nginx_conf,
            apache_vhost,
            project,
            crt,
            key,
            creds,
        ),
    ensures
        d1 == d2,
{
}

/// The TLS pair is all or nothing for the nginx service: both halves
/// supplied append exactly the two read-only mounts and port 443 to the
/// TLS-free service; anything less leaves the service exactly as if no half
/// had been supplied, with no TLS mount and no port 443, and a lone half
/// surfaces the warning naming its missing counterpart.
pub proof fn lemma_nginx_tls_all_or_nothing(
    conf_path: Seq<char>,
    project: Option<Seq<char>>,
    crt: Option<Seq<char>>,
    key: Option<Seq<char>>,
    traefik: bool,
)
    ensures
        ({
            let svc = spec_nginx_service(conf_path, project, crt, key, traefik);
            let bare = spec_nginx_service(conf_path, project, None, None, traefik);
            &&& (crt is Some && key is Some) ==> {
                &&& svc.volumes->0 == bare.volumes->0 + seq![
                    crt->0 + ":/etc/nginx/ssl/crt.pem:ro"@,
                    key->0 + ":/etc/nginx/ssl/key.pem:ro"@,
                ]
                &&& svc.ports->0 == bare.ports->0 + seq!["443:443"@]
                &&& svc.ports->0.contains("443:443"@)
            }
            &&& !(crt is Some && key is Some) ==> {
                &&& svc == bare
                &&& !svc.ports->0.contains("443:443"@)
            }
            &&& (crt is Some && key is None) ==> spec_tls_warning(
                Some(ServerType::Nginx),
                crt is Some,
                key is Some,
            ) == Some(TlsWarning::KeyMissing)
            &&& (key is Some && crt is None) ==> spec_tls_warning(
                Some(ServerType::Nginx),
                crt is Some,
                key is Some,
            ) == Some(TlsWarning::CertificateMissing)
        }),
{
    let svc = spec_nginx_service(conf_path, project, crt, key, traefik);
    let bare = spec_nginx_service(conf_path, project, None, None, traefik);
    if crt is Some && key is Some {
        assert(svc.volumes->0 =~= bare.volumes->0 + seq![
            crt->0 + ":/etc/nginx/ssl/crt.pem:ro"@,
            key->0 + ":/etc/nginx/ssl/key.pem:ro"@,
        ]);
        assert(svc.ports->0 =~= bare.ports->0 + seq!["443:443"@]);
        assert(svc.ports->0[1] == "443:443"@);
    } else {
        assert(svc =~~= bare);
        reveal_strlit("80:8080");
        reveal_strlit("443:443");
        assert(("80:8080"@)[0] != ("443:443"@)[0]);
        assert(svc.ports->0 =~= seq!["80:8080"@]);
    }
}

/// The TLS pair is all or nothing for the apache service, exactly as for
/// nginx, at apache's in-container locations.
pub proof fn lemma_apache_tls_all_or_nothing(
    vhost_path: Seq<char>,
    project: Option<Seq<char>>,
    crt: Option<Seq<char>>,
    key: Option<Seq<char>>,
    traefik: bool,
)
    ensures
        ({
            let svc = spec_apache_service(vhost_path, project, crt, key, traefik);
            let bare = spec_apache_service(vhost_path, project, None, None, traefik);
            &&& (crt is Some && key is Some) ==> {
                &&& svc.volumes->0 == bare.volumes->0 + seq![
                    crt->0 + ":/opt/docker/etc/httpd/ssl/server.crt:ro"@,
                    key->0 + ":/opt/docker/etc/httpd/ssl/server.key:ro"@,
                ]
                &&& svc.ports->0 == bare.ports->0 + seq!["443:443"@]
                &&& svc.ports->0.contains("443:443"@)
            }
            &&& !(crt is Some && key is Some) ==> {
                &&& svc == bare
                &&& !svc.ports->0.contains("443:443"@)
            }
            &&& (crt is Some && key is None) ==> spec_tls_warning(
                Some(ServerType::Apache),
                crt is Some,
                key is Some,
            ) == Some(TlsWarning::KeyMissing)
            &&& (key is Some && crt is None) ==> spec_tls_warning(
                Some(ServerType::Apache),
                crt is Some,
                key is Some,
            ) == Some(TlsWarning::CertificateMissing)
        }),
{
    let svc = spec_apache_service(vhost_path, project, crt, key, traefik);
    let bare = spec_apache_service(vhost_path, project, None, None, traefik);
    if crt is Some && key is Some {
        assert(svc.volumes->0 =~= bare.volumes->0 + seq![
            crt->0 + ":/opt/docker/etc/httpd/ssl/server.crt:ro"@,
            key->0 + ":/opt/docker/etc/httpd/ssl/server.key:ro"@,
        ]);
        assert(svc.ports->0 =~= bare.ports->0 + seq!["443:443"@]);
        assert(svc.ports->0[1] == "443:443"@);
    } else {
        assert(svc =~~= bare);
        reveal_strlit("8080:80");
        reveal_strlit("443:443");
        assert(("8080:80"@)[0] != ("443:443"@)[0]);
        assert(svc.ports->0 =~= seq!["8080:80"@]);
    }
}

/// Builds the reverse-proxy service entry.
fn traefik_service() -> (s: ServiceSpec)
    ensures
        s@ == spec_traefik_service(),
{
    let s = ServiceSpec {
        image: String::from_str("traefik:v3.0"),
        command: Some(
            vec![
                String::from_str("--api.dashboard=true"),
                String::from_str("--providers.docker=true"),
                String::from_str("--entrypoints.web.address=:80"),
                String::from_str("--metrics.prometheus=true"),
            ],
        ),
        ports: Some(vec![String::from_str("80:80"), String::from_str("8080:8080")]),
        volumes: Some(vec![String::from_str("/var/run/docker.sock:/var/run/docker.sock:ro")]),
        environment: None,
        labels: Some(
            vec![
                String::from_str("traefik.enable=true"),
                String::from_str("traefik.http.routers.traefik.rule=Host(`traefik.localhost`)"),
                String::from_str("traefik.http.routers.traefik.service=api@internal"),
            ],
        ),
        depends_on: None,
    };
    proof {
        assert(s@ =~~= spec_traefik_service());
    }
    s
}

/// Builds the nginx service entry from the resolved paths.
fn nginx_service(
    conf_path: &str,
    project: &Option<String>,
    crt: &Option<String>,
    key: &Option<String>,
    traefik: bool,
) -> (s: ServiceSpec)
    ensures
        s@ == spec_nginx_service(
            conf_path@,
            project.deep_view(),
            crt.deep_view(),
            key.deep_view(),
            traefik,
        ),
{
    let mut volumes: Vec<String> = Vec::new();
    volumes.push(conf_path.to_owned().concat(":/etc/nginx/conf.d/server.conf:ro"));
    match project {
        Some(p) => volumes.push(p.clone().concat(":/var/www/html")),
        None => (),
    }
    let mut ports: Vec<String> = Vec::new();
    ports.push(String::from_str("80:8080"));
    match (crt, key) {
        (Some(c), Some(k)) => {
            volumes.push(c.clone().concat(":/etc/nginx/ssl/crt.pem:ro"));
            volumes.push(k.clone().concat(":/etc/nginx/ssl/key.pem:ro"));
            ports.push(String::from_str("443:443"));
        },
        _ => (),
    }
    let labels = if traefik {
        Some(
            vec![
                String::from_str("traefik.enable=true"),
                String::from_str("traefik.http.routers.nginx.rule=Host(`nginx.localhost`)"),
                String::from_str("traefik.http.services.nginx.loadbalancer.server.port=80"),
            ],
        )
    } else {
        None
    };
    let s = ServiceSpec {
        image: String::from_str("trafex/php-nginx:3.9.0"),
        command: None,
        ports: Some(ports),
        volumes: Some(volumes),
        environment: None,
        labels,
        depends_on: None,
    };
    proof {
        assert(s@ =~~= spec_nginx_service(
            conf_path@,
            project.deep_view(),
            crt.deep_view(),
            key.deep_view(),
            traefik,
        ));
    }
    s
}

/// Builds the apache service entry from the resolved paths.
fn apache_service(
    vhost_path: &str,
    project: &Option<String>,
    crt: &Option<String>,
    key: &Option<String>,
    traefik: bool,
) -> (s: ServiceSpec)
    ensures
        s@ == spec_apache_service(
            vhost_path@,
            project.deep_view(),
            crt.deep_view(),
            key.deep_view(),
            traefik,
        ),
{
    let mut volumes: Vec<String> = Vec::new();
    volumes.push(vhost_path.to_owned().concat(":/opt/docker/etc/httpd/vhost.conf:ro"));
    match project {
        Some(p) => volumes.push(p.clone().concat(":/app")),
        None => (),
    }
    let mut ports: Vec<String> = Vec::new();
    ports.push(String::from_str("8080:80"));
    match (crt, key) {
        (Some(c), Some(k)) => {
            volumes.push(c.clone().concat(":/opt/docker/etc/httpd/ssl/server.crt:ro"));
            volumes.push(k.clone().concat(":/opt/docker/etc/httpd/ssl/server.key:ro"));
            ports.push(String::from_str("443:443"));
        },
        _ => (),
    }
    let labels = if traefik {
        Some(
            vec![
                String::from_str("traefik.enable=true"),
                String::from_str("traefik.http.routers.apache.rule=Host(`apache.localhost`)"),
                String::from_str("traefik.http.services.apache.loadbalancer.server.port=80"),
            ],
        )
    } else {
        None
    };
    let s = ServiceSpec {
        image: String::from_str("webdevops/php-apache:8.4"),
        command: None,
        ports: Some(ports),
        volumes: Some(volumes),
        environment: None,
        labels,
        depends_on: None,
    };
    proof {
        assert(s@ =~~= spec_apache_service(
            vhost_path@,
            project.deep_view(),
            crt.deep_view(),
            key.deep_view(),
            traefik,
        ));
    }
    s
}

/// Builds the node service entry.
fn node_service(traefik: bool) -> (s: ServiceSpec)
    ensures
        s@ == spec_node_service(traefik),
{
    let labels = if traefik {
        Some(
            vec![
                String::from_str("traefik.enable=true"),
                String::from_str("traefik.http.routers.node.rule=Host(`node.localhost`)"),
                String::from_str("traefik.http.services.node.loadbalancer.server.port=3000"),
            ],
        )
    } else {
        None
    };
    let s = ServiceSpec {
        image: String::from_str("node:22"),
        command: Some(vec![String::from_str("bash -c 'npm install && npm start'")]),
        ports: Some(vec![String::from_str("3000:3000")]),
        volumes: None,
        environment: None,
        labels,
        depends_on: None,
    };
    proof {
        assert(s@ =~~= spec_node_service(traefik));
    }
    s
}

/// Builds the MySQL service entry.
fn mysql_service(creds: &DbCredentials) -> (s: ServiceSpec)
    ensures
        s@ == spec_mysql_service(creds@),
{
    let mut environment: Vec<(String, String)> = Vec::new();
    environment.push((String::from_str("MYSQL_ROOT_PASSWORD"), creds.root_password.clone()));
    environment.push((String::from_str("MYSQL_USER"), creds.user.clone()));
    environment.push((String::from_str("MYSQL_PASSWORD"), creds.password.clone()));
    environment.push((String::from_str("MYSQL_DATABASE"), creds.name.clone()));
    let s = ServiceSpec {
        image: String::from_str("mysql:8.4"),
        command: None,
        ports: Some(vec![String::from_str("3306:3306")]),
        volumes: Some(vec![String::from_str("mysql_data:/var/lib/mysql")]),
        environment: Some(environment),
        labels: None,
        depends_on: None,
    };
    proof {
        assert(s@ =~~= spec_mysql_service(creds@));
    }
    s
}

/// Builds the MySQL metrics exporter entry.
fn mysqld_exporter_service(creds: &DbCredentials, traefik: bool) -> (s: ServiceSpec)
    ensures
        s@ == spec_mysqld_exporter_service(creds@, traefik),
{
    let data_source = creds.user.clone().concat(":").concat(creds.password.as_str()).concat(
        "@(mysql:3306)/app",
    );
    let mut environment: Vec<(String, String)> = Vec::new();
    environment.push((String::from_str("DATA_SOURCE_NAME"), data_source));
    let labels = if traefik {
        Some(
            vec![
                String::from_str("traefik.enable=true"),
                String::from_str("traefik.http.routers.mysqlmetrics.rule=Host(`mysql-metrics.localhost`)"),
                String::from_str("traefik.http.services.mysqlmetrics.loadbalancer.server.port=9104"),
            ],
        )
    } else {
        None
    };
    let s = ServiceSpec {
        image: String::from_str("prom/mysqld-exporter:latest"),
        command: None,
        ports: None,
        volumes: None,
        environment: Some(environment),
        labels,
        depends_on: Some(vec![String::from_str("mysql")]),
    };
    proof {
        assert(s@ =~~= spec_mysqld_exporter_service(creds@, traefik));
    }
    s
}

/// Builds the PostgreSQL service entry.
fn postgres_service(creds: &DbCredentials) -> (s: ServiceSpec)
    ensures
        s@ == spec_postgres_service(creds@),
{
    let mut environment: Vec<(String, String)> = Vec::new();
    environment.push((String::from_str("POSTGRES_DB"), creds.name.clone()));
    environment.push((String::from_str("POSTGRES_USER"), creds.user.clone()));
    environment.push((String::from_str("POSTGRES_PASSWORD"), creds.password.clone()));
    let s = ServiceSpec {
        image: String::from_str("postgres:15"),
        command: None,
        ports: Some(vec![String::from_str("5432:5432")]),
        volumes: Some(vec![String::from_str("postgres_data:/var/lib/postgresql/data")]),
        environment: Some(environment),
        labels: None,
        depends_on: None,
    };
    proof {
        assert(s@ =~~= spec_postgres_service(creds@));
    }
    s
}

/// Builds the MongoDB service entry.
fn mongo_service(creds: &DbCredentials) -> (s: ServiceSpec)
    ensures
        s@ == spec_mongo_service(creds@),
{
    let mut environment: Vec<(String, String)> = Vec::new();
    environment.push((String::from_str("MONGO_INITDB_ROOT_USERNAME"), String::from_str("root")));
    environment.push((String::from_str("MONGO_INITDB_ROOT_PASSWORD"), creds.password.clone()));
    let s = ServiceSpec {
        image: String::from_str("mongo:7"),
        command: None,
        ports: Some(vec![String::from_str("27017:27017")]),
        volumes: Some(vec![String::from_str("mongo_data:/data/db")]),
        environment: Some(environment),
        labels: None,
        depends_on: None,
    };
    proof {
        assert(s@ =~~= spec_mongo_service(creds@));
    }
    s
}

/// Surfaces the TLS warning for a lone half of the certificate/key pair.
pub fn tls_warning(server: &Option<ServerType>, has_crt: bool, has_key: bool) -> (w: Option<
    TlsWarning,
>)
    ensures
        w == spec_tls_warning(*server, has_crt, has_key),
{
    let uses_tls = match server {
        Some(ServerType::Nginx) => true,
        Some(ServerType::Apache) => true,
        _ => false,
    };
    if uses_tls && has_crt && !has_key {
        Some(TlsWarning::KeyMissing)
    } else if uses_tls && has_key && !has_crt {
        Some(TlsWarning::CertificateMissing)
    } else {
        None
    }
}

/// Synthesizes the deployment descriptor for one run.
///
/// The descriptor is a pure function of the selection, the resolved paths
/// held by `config`, and the credentials: the `ensures` pins every byte of
/// it, so equal inputs give identical descriptors. The second component is
/// the warning surfaced when only one half of the TLS pair was supplied.
pub fn synthesize(
    config: &ClusterConfig,
    creds: &DbCredentials,
    nginx_conf_path: &str,
    apache_vhost_path: &str,
) -> (r: (DeploymentDescriptor, Option<TlsWarning>))
    ensures
        r.0@ == spec_synthesize(
            config.services.server,
            config.services.database,
            config.services.traefik,
            nginx_conf_path@,
            apache_vhost_path@,
            config.project_folder_path.deep_view(),
            config.ssl_certificate_path_crt.deep_view(),
            config.ssl_certificate_path_key.deep_view(),
            creds@,
        ),
        r.1 == spec_tls_warning(
            config.services.server,
            config.ssl_certificate_path_crt is Some,
            config.ssl_certificate_path_key is Some,
        ),
{
    let ghost g_server = config.services.server;
    let ghost g_traefik = config.services.traefik;
    let mut services: Vec<(String, ServiceSpec)> = Vec::new();
    if config.services.traefik {
        services.push((String::from_str("traefik"), traefik_service()));
    }
    proof {
        assert(services.deep_view() =~~= spec_traefik_entries(g_traefik));
    }
    match &config.services.server {
        Some(ServerType::Nginx) => {
            services.push(
                (
                    String::from_str("nginx"),
                    nginx_service(
                        nginx_conf_path,
                        &config.project_folder_path,
                        &config.ssl_certificate_path_crt,
                        &config.ssl_certificate_path_key,
                        config.services.traefik,
                    ),
                ),
            );
        },
        Some(ServerType::Apache) => {
            services.push(
                (
                    String::from_str("apache"),
                    apache_service(
                        apache_vhost_path,
                        &config.project_folder_path,
                        &config.ssl_certificate_path_crt,
                        &config.ssl_certificate_path_key,
                        config.services.traefik,
                    ),
                ),
            );
        },
        Some(ServerType::NodeJS) => {
            services.push((String::from_str("node"), node_service(config.services.traefik)));
        },
        None => (),
    }
    proof {
        assert(services.deep_view() =~~= spec_traefik_entries(g_traefik) + spec_server_entries(
            g_server,
            nginx_conf_path@,
            apache_vhost_path@,
            config.project_folder_path.deep_view(),
            config.ssl_certificate_path_crt.deep_view(),
            config.ssl_certificate_path_key.deep_view(),
            g_traefik,
        ));
    }
    let mut volumes: Vec<String> = Vec::new();
    match &config.services.database {
        Some(DatabaseType::MySQL) => {
            services.push((String::from_str("mysql"), mysql_service(creds)));
            services.push(
                (
                    String::from_str("mysqld_exporter"),
                    mysqld_exporter_service(creds, config.services.traefik),
                ),
            );
            volumes.push(String::from_str("mysql_data"));
        },
        Some(DatabaseType::PostgreSQL) => {
            services.push((String::from_str("postgres"), postgres_service(creds)));
            volumes.push(String::from_str("postgres_data"));
        },
        Some(DatabaseType::MongoDB) => {
            services.push((String::from_str("mongo"), mongo_service(creds)));
            volumes.push(String::from_str("mongo_data"));
        },
        None => (),
    }
    let descriptor = DeploymentDescriptor {
        version: String::from_str("3.9"),
        services,
        volumes,
    };
    let warning = tls_warning(
        &config.services.server,
        config.ssl_certificate_path_crt.is_some(),
        config.ssl_certificate_path_key.is_some(),
    );
    proof {
        assert(descriptor@ =~~= spec_synthesize(
            g_server,
            config.services.database,
            g_traefik,
            nginx_conf_path@,
            apache_vhost_path@,
            config.project_folder_path.deep_view(),
            config.ssl_certificate_path_crt.deep_view(),
            config.ssl_certificate_path_key.deep_view(),
            creds@,
        ));
    }
    (descriptor, warning)
}

} // verus!
