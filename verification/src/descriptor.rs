//! The deployment descriptor: a structured multi-service document.
//!
//! A descriptor maps service names to service entries and carries a set of
//! named volumes. It is built fresh on every run by the synthesizer and
//! handed to the binary, which renders it to disk; nothing in this library
//! ever reads one back. Service order is kept as a sequence so that the
//! rendered document is deterministic.

use vstd::prelude::*;

verus! {

/// One service of the deployment descriptor: an image plus the optional
/// command, ports, mounts, environment, labels and dependency edges.
/// The environment is an ordered list of key/value pairs so that equal
/// inputs give an identical descriptor.
#[derive(Debug, Clone, PartialEq, Eq)]
pub struct ServiceSpec {
    pub image: String,
    pub command: Option<Vec<String>>,
    pub ports: Option<Vec<String>>,
    pub volumes: Option<Vec<String>>,
    pub environment: Option<Vec<(String, String)>>,
    pub labels: Option<Vec<String>>,
    pub depends_on: Option<Vec<String>>,
}

/// The mathematical model of a `ServiceSpec`: every string is a `Seq<char>`.
#[verifier::ext_equal]
pub struct ServiceSpecView {
    pub image: Seq<char>,
    pub command: Option<Seq<Seq<char>>>,
    pub ports: Option<Seq<Seq<char>>>,
    pub volumes: Option<Seq<Seq<char>>>,
    pub environment: Option<Seq<(Seq<char>, Seq<char>)>>,
    pub labels: Option<Seq<Seq<char>>>,
    pub depends_on: Option<Seq<Seq<char>>>,
}

impl View for ServiceSpec {
    type V = ServiceSpecView;

    open spec fn view(&self) -> ServiceSpecView {
        ServiceSpecView {
            image: self.image@,
            command: self.command.deep_view(),
            ports: self.ports.deep_view(),
            volumes: self.volumes.deep_view(),
            environment: self.environment.deep_view(),
            labels: self.labels.deep_view(),
            depends_on: self.depends_on.deep_view(),
        }
    }
}

impl DeepView for ServiceSpec {
    type V = ServiceSpecView;

    open spec fn deep_view(&self) -> ServiceSpecView {
        self.view()
    }
}

/// The whole deployment descriptor: a format version, the services in
/// emission order, and the named volumes the services reference. An empty
/// volume sequence means the rendered document omits the volume section.
#[derive(Debug, Clone, PartialEq, Eq)]
pub struct DeploymentDescriptor {
    pub version: String,
    pub services: Vec<(String, ServiceSpec)>,
    pub volumes: Vec<String>,
}

/// The mathematical model of a `DeploymentDescriptor`.
#[verifier::ext_equal]
pub struct DeploymentDescriptorView {
    pub version: Seq<char>,
    pub services: Seq<(Seq<char>, ServiceSpecView)>,
    pub volumes: Seq<Seq<char>>,
}

impl View for DeploymentDescriptor {
    type V = DeploymentDescriptorView;

    open spec fn view(&self) -> DeploymentDescriptorView {
        DeploymentDescriptorView {
            version: self.version@,
            services: self.services.deep_view(),
            volumes: self.volumes.deep_view(),
        }
    }
}

impl DeploymentDescriptorView {
    /// The service names of a descriptor, in emission order.
    pub open spec fn service_names(self) -> Seq<Seq<char>> {
        self.services.map_values(|entry: (Seq<char>, ServiceSpecView)| entry.0)
    }
}

} // verus!
