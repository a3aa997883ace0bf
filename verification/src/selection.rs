//! The service selection: which application services a run should deploy.
//!
//! A selection holds at most one server runtime and at most one database
//! engine (each is an option of a sum type), plus the reverse-proxy and
//! dashboard toggles. It is derived once from caller input and never mutated.

use vstd::prelude::*;

verus! {

/// The broad service categories the tool knows about.
#[derive(Debug, Clone, PartialEq, Eq, Structural)]
pub enum Service {
    Server,
    Database,
    Traefik,
}

/// The application server runtime of a selection.
#[derive(Debug, Clone, Copy, PartialEq, Eq, Structural)]
pub enum ServerType {
    Nginx,
    Apache,
    NodeJS,
}

/// The database engine of a selection.
#[derive(Debug, Clone, Copy, PartialEq, Eq, Structural)]
pub enum DatabaseType {
    MySQL,
    PostgreSQL,
    MongoDB,
}

/// One run's service selection.
pub struct Services {
    pub server: Option<ServerType>,
    pub database: Option<DatabaseType>,
    pub traefik: bool,
    pub dashboard: bool,
}

/// A fatal configuration error raised before any node is touched.
#[derive(Debug, Clone, PartialEq, Eq, Structural)]
pub enum ConfigConflict {
    /// Both an external descriptor file and individual services were given.
    BothFileAndServices,
    /// Neither an external descriptor file nor any service was given.
    Neither,
}

impl Services {
    /// Whether the selection names any service at all. The dashboard toggle
    /// does not count: it selects no deployable service of its own.
    pub open spec fn spec_any_selected(self) -> bool {
        self.server is Some || self.database is Some || self.traefik
    }

    /// Returns whether the selection names any service.
    pub fn any_selected(&self) -> (r: bool)
        ensures
            r == self.spec_any_selected(),
    {
        self.server.is_some() || self.database.is_some() || self.traefik
    }
}

/// Exactly one source of services must be given to `start`: an externally
/// supplied descriptor file, or at least one service toggle. Anything else
/// is a fatal configuration conflict.
pub fn validate_start_inputs(has_descriptor_file: bool, selection: &Services) -> (r: Result<
    (),
    ConfigConflict,
>)
    ensures
        r is Ok <==> (has_descriptor_file != selection.spec_any_selected()),
        has_descriptor_file && selection.spec_any_selected() ==> r == Result::<(),
            ConfigConflict,
        >::Err(ConfigConflict::BothFileAndServices),
        !has_descriptor_file && !selection.spec_any_selected() ==> r == Result::<(),
            ConfigConflict,
        >::Err(ConfigConflict::Neither),
{
    let any = selection.any_selected();
    if has_descriptor_file && any {
        Err(ConfigConflict::BothFileAndServices)
    } else if !has_descriptor_file && !any {
        Err(ConfigConflict::Neither)
    } else {
        Ok(())
    }
}

} // verus!
