//! The generic service model: a named service and its conversion to a
//! descriptor entry, plus the service-list scaffolding around it.
//!
//! The environment is an ordered list of key/value pairs, so a converted
//! service is a plain value the contracts can pin completely.

#![allow(non_snake_case)]

use vstd::prelude::*;

verus! {

/// One named service, as assembled from caller input.
#[derive(Clone)]
pub struct Service {
    pub name: String,
    pub image: String,
    pub command: Option<Vec<String>>,
    pub ports: Option<Vec<String>>,
    pub volumes: Option<Vec<String>>,
    pub environment: Option<Vec<(String, String)>>,
    pub labels: Option<Vec<String>>,
    pub requiredServices: Option<Vec<String>>,
    pub networks: Option<Vec<String>>,
}

/// A service as it stands in the deployment document: the same data without
/// the name, which becomes the entry's key.
#[derive(Clone)]
pub struct DockerService {
    pub image: String,
    pub command: Option<Vec<String>>,
    pub ports: Option<Vec<String>>,
    pub volumes: Option<Vec<String>>,
    pub environment: Option<Vec<(String, String)>>,
    pub labels: Option<Vec<String>>,
    pub depends_on: Option<Vec<String>>,
    pub networks: Option<Vec<String>>,
}

impl Service {
    /// Converts a service into its descriptor entry: every field is carried
    /// over unchanged, the required services become the dependency edges.
    pub fn toDockerService(self) -> (d: DockerService)
        ensures
            d.image == self.image,
            d.command == self.command,
            d.ports == self.ports,
            d.volumes == self.volumes,
            d.environment == self.environment,
            d.labels == self.labels,
            d.depends_on == self.requiredServices,
            d.networks == self.networks,
    {
        DockerService {
            image: self.image,
            command: self.command,
            ports: self.ports,
            volumes: self.volumes,
            environment: self.environment,
            labels: self.labels,
            depends_on: self.requiredServices,
            networks: self.networks,
        }
    }
}

/// The raw service arguments as the caller supplied them.
pub struct CLIServiceArgs {
    pub server: Option<String>,
    pub database: Option<String>,
    pub traefik: bool,
    pub dashboard: bool,
}

/// Scaffolding for assembling service lists from caller arguments. None of
/// the builders emits anything yet: each returns the empty list, and so
/// does the assembly over them.
pub struct ServiceManager {}

impl ServiceManager {
    /// Assembles the service list for the given arguments. Every builder it
    /// consults is empty, so the result is the empty list.
    pub fn buildServices(self, args: CLIServiceArgs) -> (r: Vec<Service>)
        ensures
            r@.len() == 0,
    {
        let mut services: Vec<Service> = Vec::new();
        if args.traefik {
            let mut built = ServiceManager::buildTraefikServices();
            services.append(&mut built);
        }
        if let Some(databases) = args.database {
            let mut built = ServiceManager::buildDatabaseServices(databases);
            services.append(&mut built);
        }
        if let Some(servers) = args.server {
            let mut built = ServiceManager::buildServersServices(servers);
            services.append(&mut built);
        }
        if args.dashboard {
            let mut built = ServiceManager::buldDashboardServices();
            services.append(&mut built);
        }
        Vec::new()
    }

    /// The dashboard services; none are defined yet.
    pub fn buldDashboardServices() -> (r: Vec<Service>)
        ensures
            r@.len() == 0,
    {
        Vec::new()
    }

    /// The database services for the named engines; none are defined yet.
    pub fn buildDatabaseServices(databases: String) -> (r: Vec<Service>)
        ensures
            r@.len() == 0,
    {
        Vec::new()
    }

    /// The server services for the named runtimes; none are defined yet.
    pub fn buildServersServices(servers: String) -> (r: Vec<Service>)
        ensures
            r@.len() == 0,
    {
        Vec::new()
    }

    /// The reverse-proxy services; none are defined yet.
    pub fn buildTraefikServices() -> (r: Vec<Service>)
        ensures
            r@.len() == 0,
    {
        Vec::new()
    }
}

} // verus!
