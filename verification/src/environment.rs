//! Resolves the requested environment name to the canonical environment
//! identifier within the fetched project.

use vstd::prelude::*;
use crate::model::{Environment, Project, RunError};

verus! {

/// Whether an environment is the one a request names: an exact,
/// case-sensitive match on its name.
pub open spec fn environment_matches(e: Environment, name: Seq<char>) -> bool {
    e.name@ == name
}

/// The index of the first environment named `name`, or `envs.len()` when
/// none is.
pub open spec fn environment_match_index(envs: Seq<Environment>, name: Seq<char>) -> int
    decreases envs.len(),
{
    if envs.len() == 0 {
        0
    } else if environment_matches(envs[0], name) {
        0
    } else {
        1 + environment_match_index(envs.drop_first(), name)
    }
}

/// The first match is within bounds, nothing before it matches, and it
/// matches whenever it is a real index.
pub proof fn lemma_environment_match_index(envs: Seq<Environment>, name: Seq<char>)
    ensures
        0 <= environment_match_index(envs, name) <= envs.len(),
        forall|j: int|
            0 <= j < environment_match_index(envs, name) ==> !environment_matches(envs[j], name),
        environment_match_index(envs, name) < envs.len() ==> environment_matches(
            envs[environment_match_index(envs, name)],
            name,
        ),
    decreases envs.len(),
{
    if envs.len() == 0 {
    } else if environment_matches(envs[0], name) {
    } else {
        let rest = envs.drop_first();
        lemma_environment_match_index(rest, name);
        let k = environment_match_index(envs, name);
        assert forall|j: int| 0 <= j < k implies !environment_matches(envs[j], name) by {
            if j > 0 {
                assert(rest[j - 1] == envs[j]);
            }
        }
        if k < envs.len() {
            assert(rest[k - 1] == envs[k]);
        }
    }
}

/// The environment name one invocation works with: the explicitly requested
/// one if any, else the linked default.
pub fn requested_environment(explicit: Option<String>, linked_default: &String) -> (r: String)
    ensures
        match explicit {
            Some(name) => r == name,
            None => r == *linked_default,
        },
{
    match explicit {
        Some(name) => name,
        None => linked_default.clone(),
    }
}

/// The canonical identifier of the first environment of the project whose
/// name is exactly `name`, or `EnvironmentNotFound` when no environment of
/// the project carries that name.
pub fn get_matched_environment(project: &Project, name: &String) -> (r: Result<String, RunError>)
    ensures
        ({
            let k = environment_match_index(project.environments@, name@);
            if k < project.environments@.len() {
                r matches Ok(id) && id == project.environments@[k].id
            } else {
                r == Err::<String, RunError>(RunError::EnvironmentNotFound)
            }
        }),
{
    let mut i: usize = 0;
    while i < project.environments.len()
        invariant
            i <= project.environments@.len(),
            forall|j: int| 0 <= j < i ==> !environment_matches(project.environments@[j], name@),
        decreases project.environments@.len() - i,
    {
        if project.environments[i].name == *name {
            proof {
                let k = environment_match_index(project.environments@, name@);
                lemma_environment_match_index(project.environments@, name@);
                assert(environment_matches(project.environments@[i as int], name@));
                if k < i {
                    assert(!environment_matches(project.environments@[k], name@));
                }
                if k > i as int {
                    assert(!environment_matches(project.environments@[i as int], name@));
                }
            }
            return Ok(project.environments[i].id.clone());
        }
        i += 1;
    }
    proof {
        let k = environment_match_index(project.environments@, name@);
        lemma_environment_match_index(project.environments@, name@);
        if k < project.environments@.len() {
            assert(!environment_matches(project.environments@[k], name@));
        }
    }
    Err(RunError::EnvironmentNotFound)
}

} // verus!
