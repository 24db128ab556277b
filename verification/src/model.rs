//! The data the pipeline works on: the project snapshot, the linked
//! defaults, the command arguments, the resolved variable source, and the
//! pipeline's error kinds.

use vstd::prelude::*;

verus! {

/// A deployable unit of a project; the primary kind of variable source.
/// Its identifier is unique within a project; its name need not be.
#[derive(Debug)]
pub struct Service {
    pub id: String,
    pub name: String,
}

/// An auxiliary project resource that can still expose variables; the
/// fallback source when a project has no services at all.
#[derive(Debug)]
pub struct Plugin {
    pub id: String,
}

/// An environment of a project; every variable fetch is scoped to one.
#[derive(Debug)]
pub struct Environment {
    pub id: String,
    pub name: String,
}

/// A read-only snapshot of a project, fetched once per invocation.
#[derive(Debug)]
pub struct Project {
    pub id: String,
    pub services: Vec<Service>,
    pub plugins: Vec<Plugin>,
    pub environments: Vec<Environment>,
}

/// Locally persisted defaults chosen by the user beforehand: a project, a
/// default environment name, and optionally a default service identifier.
#[derive(Debug)]
pub struct LinkedProjectContext {
    pub project: String,
    pub environment: String,
    pub service: Option<String>,
}

/// Arguments of the run command: the service to pull variables from, the
/// environment to pull them from, and the command line to execute.
#[derive(Debug)]
pub struct Args {
    pub service: Option<String>,
    pub environment: Option<String>,
    pub args: Vec<String>,
}

/// The pipeline's own failures. Transport failures are not among them: the
/// unverified callers surface those unchanged.
#[derive(Debug, Clone, Copy, PartialEq, Eq, Structural)]
pub enum RunError {
    /// The requested environment name matches no environment of the project.
    EnvironmentNotFound,
    /// The explicitly requested service matches no service by name or id.
    ServiceNotFound,
    /// Several services exist, none was chosen, and there is no terminal to
    /// ask on.
    AmbiguousServiceSelection,
    /// No trailing arguments were given, so there is nothing to run.
    NoCommandProvided,
}

/// The resolved variable source: exactly one service, or the project's
/// plugins (possibly none) — never both.
#[derive(Debug)]
pub enum ServiceOrPlugins {
    Service(String),
    Plugins(Vec<String>),
}

/// What the resolver decides: either a source, or that the caller must ask
/// the user to pick one of the project's several services.
#[derive(Debug)]
pub enum Resolution {
    Source(ServiceOrPlugins),
    Prompt,
}

/// Mathematical model of a resolved variable source.
pub enum SourceModel {
    Service(Seq<char>),
    Plugins(Seq<Seq<char>>),
}

/// Mathematical model of a resolver decision.
pub enum ResolutionModel {
    Source(SourceModel),
    Prompt,
}

impl View for ServiceOrPlugins {
    type V = SourceModel;

    open spec fn view(&self) -> SourceModel {
        match self {
            ServiceOrPlugins::Service(id) => SourceModel::Service(id@),
            ServiceOrPlugins::Plugins(ids) => SourceModel::Plugins(ids.deep_view()),
        }
    }
}

impl View for Resolution {
    type V = ResolutionModel;

    open spec fn view(&self) -> ResolutionModel {
        match self {
            Resolution::Source(s) => ResolutionModel::Source(s@),
            Resolution::Prompt => ResolutionModel::Prompt,
        }
    }
}

/// The view of an optional string: the character sequence, if any.
pub open spec fn opt_view(o: Option<String>) -> Option<Seq<char>> {
    match o {
        Some(s) => Some(s@),
        None => None,
    }
}

impl RunError {
    /// The human-readable message for each error kind.
    pub open spec fn message_spec(self) -> Seq<char> {
        match self {
            RunError::EnvironmentNotFound => "Environment not found"@,
            RunError::ServiceNotFound => "Service not found"@,
            RunError::AmbiguousServiceSelection => (
                "Multiple services found. Please specify a service to pull variables from."@
            ),
            RunError::NoCommandProvided => "No command provided"@,
        }
    }

    /// The message shown to the user when this error aborts the command.
    pub fn message(&self) -> (r: String)
        ensures
            r@ == self.message_spec(),
    {
        match self {
            RunError::EnvironmentNotFound => String::from_str("Environment not found"),
            RunError::ServiceNotFound => String::from_str("Service not found"),
            RunError::AmbiguousServiceSelection => String::from_str(
                "Multiple services found. Please specify a service to pull variables from.",
            ),
            RunError::NoCommandProvided => String::from_str("No command provided"),
        }
    }
}

} // verus!
