//! Decides which variable source applies: an explicitly requested service,
//! the linked default, the sole service, the project's plugins when it has
//! no services, or — when several services exist — an interactive choice,
//! which is only possible on a terminal.

use vstd::prelude::*;
use crate::model::{
    opt_view, Plugin, Project, Resolution, ResolutionModel, RunError, Service, ServiceOrPlugins,
    SourceModel,
};

verus! {

/// Whether a service is what an explicit request `q` names: an exact,
/// case-sensitive match on either its name or its identifier.
pub open spec fn service_matches(s: Service, q: Seq<char>) -> bool {
    s.name@ == q || s.id@ == q
}

/// The index of the first service matching `q`, or `services.len()` when
/// none does.
pub open spec fn service_match_index(services: Seq<Service>, q: Seq<char>) -> int
    decreases services.len(),
{
    if services.len() == 0 {
        0
    } else if service_matches(services[0], q) {
        0
    } else {
        1 + service_match_index(services.drop_first(), q)
    }
}

/// The first match is within bounds, nothing before it matches, and it
/// matches whenever it is a real index.
pub proof fn lemma_service_match_index(services: Seq<Service>, q: Seq<char>)
    ensures
        0 <= service_match_index(services, q) <= services.len(),
        forall|j: int|
            0 <= j < service_match_index(services, q) ==> !service_matches(services[j], q),
        service_match_index(services, q) < services.len() ==> service_matches(
            services[service_match_index(services, q)],
            q,
        ),
    decreases services.len(),
{
    if services.len() == 0 {
    } else if service_matches(services[0], q) {
    } else {
        let rest = services.drop_first();
        lemma_service_match_index(rest, q);
        let k = service_match_index(services, q);
        assert(k == 1 + service_match_index(rest, q));
        assert forall|j: int| 0 <= j < k implies !service_matches(services[j], q) by {
            if j > 0 {
                assert(rest[j - 1] == services[j]);
            }
        }
        if k < services.len() {
            assert(rest[k - 1] == services[k]);
        }
    }
}

/// The index of the first service that the explicit request names, if any.
fn find_service(services: &Vec<Service>, q: &String) -> (r: Option<usize>)
    ensures
        match r {
            Some(i) => i == service_match_index(services@, q@) && i < services@.len(),
            None => service_match_index(services@, q@) == services@.len(),
        },
{
    let mut i: usize = 0;
    while i < services.len()
        invariant
            i <= services@.len(),
            forall|j: int| 0 <= j < i ==> !service_matches(services@[j], q@),
        decreases services@.len() - i,
    {
        if services[i].name == *q || services[i].id == *q {
            proof {
                let k = service_match_index(services@, q@);
                lemma_service_match_index(services@, q@);
                assert(service_matches(services@[i as int], q@));
                if k < i {
                    assert(!service_matches(services@[k], q@));
                }
                if k > i as int {
                    assert(!service_matches(services@[i as int], q@));
                }
            }
            return Some(i);
        }
        i += 1;
    }
    proof {
        let k = service_match_index(services@, q@);
        lemma_service_match_index(services@, q@);
        if k < services@.len() {
            assert(!service_matches(services@[k], q@));
        }
    }
    None
}

/// The identifiers of the given plugins, in their original order.
fn plugin_ids(plugins: &Vec<Plugin>) -> (r: Vec<String>)
    ensures
        r.deep_view() == plugins@.map_values(|p: Plugin| p.id@),
{
    let mut r: Vec<String> = Vec::new();
    let mut i: usize = 0;
    while i < plugins.len()
        invariant
            i <= plugins@.len(),
            r@.len() == i,
            forall|j: int| 0 <= j < i ==> r@[j]@ == plugins@[j].id@,
        decreases plugins@.len() - i,
    {
        r.push(plugins[i].id.clone());
        i += 1;
    }
    proof {
        assert(r.deep_view() =~= plugins@.map_values(|p: Plugin| p.id@));
    }
    r
}

/// What the resolver must decide, as a function of the project's services
/// and plugins, the linked default, the explicit request, and whether an
/// interactive terminal is attached. First match wins: an explicit request
/// is looked up by name or id; else a linked default is trusted as-is; else
/// a project without services yields its plugins, a project with exactly one
/// service yields that service, and a project with several services either
/// needs a prompt (on a terminal) or is an ambiguity error.
pub open spec fn resolve_model(
    services: Seq<Service>,
    plugins: Seq<Seq<char>>,
    linked: Option<Seq<char>>,
    requested: Option<Seq<char>>,
    is_tty: bool,
) -> Result<ResolutionModel, RunError> {
    match requested {
        Some(q) => {
            let k = service_match_index(services, q);
            if k < services.len() {
                Ok(ResolutionModel::Source(SourceModel::Service(services[k].id@)))
            } else {
                Err(RunError::ServiceNotFound)
            }
        },
        None => match linked {
            Some(id) => Ok(ResolutionModel::Source(SourceModel::Service(id))),
            None => {
                if services.len() == 0 {
                    Ok(ResolutionModel::Source(SourceModel::Plugins(plugins)))
                } else if services.len() == 1 {
                    Ok(ResolutionModel::Source(SourceModel::Service(services[0].id@)))
                } else if is_tty {
                    Ok(ResolutionModel::Prompt)
                } else {
                    Err(RunError::AmbiguousServiceSelection)
                }
            },
        },
    }
}

/// The model of a resolver result.
pub open spec fn resolution_view(r: Result<Resolution, RunError>) -> Result<
    ResolutionModel,
    RunError,
> {
    match r {
        Ok(res) => Ok(res@),
        Err(e) => Err(e),
    }
}

/// Decide the variable source for one invocation. Pure: the caller supplies
/// whether standard output is a terminal, and performs the prompt itself
/// when the decision is `Resolution::Prompt`.
pub fn resolve_source(
    project: &Project,
    linked_service: Option<String>,
    service_arg: Option<String>,
    is_tty: bool,
) -> (r: Result<Resolution, RunError>)
    ensures
        resolution_view(r) == resolve_model(
            project.services@,
            project.plugins@.map_values(|p: Plugin| p.id@),
            opt_view(linked_service),
            opt_view(service_arg),
            is_tty,
        ),
{
    if let Some(q) = service_arg {
        match find_service(&project.services, &q) {
            Some(i) => Ok(Resolution::Source(ServiceOrPlugins::Service(
                project.services[i].id.clone(),
            ))),
            None => Err(RunError::ServiceNotFound),
        }
    } else if let Some(id) = linked_service {
        Ok(Resolution::Source(ServiceOrPlugins::Service(id)))
    } else if project.services.len() == 0 {
        Ok(Resolution::Source(ServiceOrPlugins::Plugins(plugin_ids(&project.plugins))))
    } else if project.services.len() == 1 {
        Ok(Resolution::Source(ServiceOrPlugins::Service(project.services[0].id.clone())))
    } else if is_tty {
        Ok(Resolution::Prompt)
    } else {
        Err(RunError::AmbiguousServiceSelection)
    }
}

/// A project with exactly one service, no explicit request and no linked
/// default resolves to that service, with no prompting whether or not a
/// terminal is attached.
pub proof fn lemma_sole_service_auto_selected(
    services: Seq<Service>,
    plugins: Seq<Seq<char>>,
    is_tty: bool,
)
    requires
        services.len() == 1,
    ensures
        resolve_model(services, plugins, None, None, is_tty) == Ok::<ResolutionModel, RunError>(
            ResolutionModel::Source(SourceModel::Service(services[0].id@)),
        ),
{
}

/// A project with no services at all resolves to the `Plugins` source
/// carrying exactly the project's plugin identifiers, in their original
/// order.
pub proof fn lemma_no_services_selects_plugins(plugins: Seq<Seq<char>>, is_tty: bool)
    ensures
        resolve_model(Seq::empty(), plugins, None, None, is_tty) == Ok::<
            ResolutionModel,
            RunError,
        >(ResolutionModel::Source(SourceModel::Plugins(plugins))),
{
}

/// An explicit request that names some service by name or id resolves to
/// the first such service; one that names no service fails with
/// `ServiceNotFound`. The explicit request wins over everything else.
pub proof fn lemma_explicit_service(
    services: Seq<Service>,
    plugins: Seq<Seq<char>>,
    linked: Option<Seq<char>>,
    q: Seq<char>,
    is_tty: bool,
)
    ensures
        (exists|i: int| 0 <= i < services.len() && service_matches(services[i], q)) ==> ({
            let k = service_match_index(services, q);
            &&& 0 <= k < services.len()
            &&& service_matches(services[k], q)
            &&& forall|j: int| 0 <= j < k ==> !service_matches(services[j], q)
            &&& resolve_model(services, plugins, linked, Some(q), is_tty) == Ok::<
                ResolutionModel,
                RunError,
            >(ResolutionModel::Source(SourceModel::Service(services[k].id@)))
        }),
        (forall|i: int| 0 <= i < services.len() ==> !service_matches(services[i], q))
            ==> resolve_model(services, plugins, linked, Some(q), is_tty) == Err::<
            ResolutionModel,
            RunError,
        >(RunError::ServiceNotFound),
{
    lemma_service_match_index(services, q);
    let k = service_match_index(services, q);
    if exists|i: int| 0 <= i < services.len() && service_matches(services[i], q) {
        let i = choose|i: int| 0 <= i < services.len() && service_matches(services[i], q);
        if k == services.len() {
            assert(!service_matches(services[i], q));
        }
    }
}

/// A project with two or more services, no explicit request, no linked
/// default, and no interactive terminal fails with
/// `AmbiguousServiceSelection`: the resolver never guesses silently.
pub proof fn lemma_ambiguous_without_terminal(services: Seq<Service>, plugins: Seq<Seq<char>>)
    requires
        services.len() >= 2,
    ensures
        resolve_model(services, plugins, None, None, false) == Err::<ResolutionModel, RunError>(
            RunError::AmbiguousServiceSelection,
        ),
{
}

/// The source for a service the user picked interactively: the caller turns
/// the chosen entry of the prompt back into its index.
pub fn service_from_choice(project: &Project, choice: usize) -> (r: ServiceOrPlugins)
    requires
        choice < project.services@.len(),
    ensures
        r@ == SourceModel::Service(project.services@[choice as int].id@),
{
    ServiceOrPlugins::Service(project.services[choice].id.clone())
}

} // verus!
