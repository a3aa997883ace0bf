//! The tool's well-known paths.
//!
//! Every path is derived from an explicit base handed in by the binary (the
//! user's home directory, the tool's own installation directory): nothing
//! here reads the process environment, so each getter is a pure function of
//! the value it was constructed with.

use vstd::prelude::*;
use vstd::string::*;

verus! {

/// The tool's configuration paths, rooted at the user's home directory.
pub struct EnvVariables {
    pub home: String,
}

/// The configuration directory under a home directory.
pub open spec fn spec_conf_path(home: Seq<char>) -> Seq<char> {
    home + "/.config/ClusterNoodle"@
}

impl EnvVariables {
    /// The configuration directory.
    pub fn get_conf_path(&self) -> (p: String)
        ensures
            p@ == spec_conf_path(self.home@),
    {
        self.home.clone().concat("/.config/ClusterNoodle")
    }

    /// Where the generated deployment descriptor is written.
    pub fn get_docker_file_path(&self) -> (p: String)
        ensures
            p@ == spec_conf_path(self.home@) + "/docker-compose.yml"@,
    {
        self.get_conf_path().concat("/docker-compose.yml")
    }

    /// Where the node descriptor file is read from.
    pub fn get_conf_file_path(&self) -> (p: String)
        ensures
            p@ == spec_conf_path(self.home@) + "/conf.cluster_noodle"@,
    {
        self.get_conf_path().concat("/conf.cluster_noodle")
    }

    /// Where the tool's environment file lives.
    pub fn get_env_file_path(&self) -> (p: String)
        ensures
            p@ == spec_conf_path(self.home@) + "/app.env"@,
    {
        self.get_conf_path().concat("/app.env")
    }

    /// The helper script that resolves a usable advertise address.
    pub fn get_usable_ip_script_path(&self) -> (p: String)
        ensures
            p@ == "/opt/ClusterNoodle/scripts/usable_ip_adress.sh"@,
    {
        String::from_str("/opt/ClusterNoodle/scripts/usable_ip_adress.sh")
    }
}

/// The apache runtime's bundled configuration, rooted at the tool's source
/// directory as handed in by the binary.
pub struct ApacheConfig {
    pub base_dir: String,
}

impl ApacheConfig {
    /// The bundled virtual-host configuration file.
    pub fn get_vhost_config_path(&self) -> (p: String)
        ensures
            p@ == self.base_dir@ + "/src/services/apache/vhost.conf"@,
    {
        self.base_dir.clone().concat("/src/services/apache/vhost.conf")
    }
}

/// The nginx runtime's bundled configuration, rooted at the tool's source
/// directory as handed in by the binary.
pub struct NginxConfig {
    pub base_dir: String,
}

impl NginxConfig {
    /// The bundled server configuration file.
    pub fn get_config_path(&self) -> (p: String)
        ensures
            p@ == self.base_dir@ + "/src/services/nginx/nginx.conf"@,
    {
        self.base_dir.clone().concat("/src/services/nginx/nginx.conf")
    }
}

} // verus!
