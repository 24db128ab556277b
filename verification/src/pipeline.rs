//! The decision core of one invocation, in the pipeline's order: pick the
//! environment name, match it to its identifier, then resolve the variable
//! source. Fetching, prompting and launching stay with the unverified
//! caller, which feeds their results back in.

use vstd::prelude::*;
use crate::environment::{environment_match_index, get_matched_environment, requested_environment};
use crate::model::{opt_view, LinkedProjectContext, Plugin, Project, Resolution, RunError};
use crate::resolver::{resolution_view, resolve_model, resolve_source};

verus! {

/// What one invocation will do: fetch variables for this environment from
/// the resolved source (after a prompt, when the resolution asks for one).
#[derive(Debug)]
pub struct RunPlan {
    pub environment_id: String,
    pub resolution: Resolution,
}

/// The environment name one invocation works with.
pub open spec fn requested_name(
    environment_arg: Option<Seq<char>>,
    linked: LinkedProjectContext,
) -> Seq<char> {
    match environment_arg {
        Some(name) => name,
        None => linked.environment@,
    }
}

/// Match the environment, then resolve the source, in that order: an
/// unknown environment is reported even when the source would also be in
/// question.
pub fn plan_run(
    project: &Project,
    linked: &LinkedProjectContext,
    service_arg: Option<String>,
    environment_arg: Option<String>,
    is_tty: bool,
) -> (r: Result<RunPlan, RunError>)
    ensures
        ({
            let name = requested_name(opt_view(environment_arg), *linked);
            let k = environment_match_index(project.environments@, name);
            if k >= project.environments@.len() {
                r == Err::<RunPlan, RunError>(RunError::EnvironmentNotFound)
            } else {
                match resolve_model(
                    project.services@,
                    project.plugins@.map_values(|p: Plugin| p.id@),
                    opt_view(linked.service),
                    opt_view(service_arg),
                    is_tty,
                ) {
                    Ok(m) => (r matches Ok(plan) && plan.environment_id
                        == project.environments@[k].id && plan.resolution@ == m),
                    Err(e) => r == Err::<RunPlan, RunError>(e),
                }
            }
        }),
{
    let name = requested_environment(environment_arg, &linked.environment);
    let environment_id = match get_matched_environment(project, &name) {
        Ok(id) => id,
        Err(e) => {
            return Err(e);
        },
    };
    let linked_service = match &linked.service {
        Some(s) => Some(s.clone()),
        None => None,
    };
    proof {
        assert(opt_view(linked_service) == opt_view(linked.service));
    }
    match resolve_source(project, linked_service, service_arg, is_tty) {
        Ok(resolution) => Ok(RunPlan { environment_id, resolution }),
        Err(e) => Err(e),
    }
}

} // verus!
