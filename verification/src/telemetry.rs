//! How much the service logs, by environment.

use vstd::prelude::*;

use crate::environment::Environment;

verus! {

/// The most detailed level of log records kept.
#[derive(PartialEq, Eq, Structural, Debug, Clone, Copy)]
pub enum TraceLevel {
    Debug,
    Info,
}

/// Local runs keep debug records; production keeps info and above.
pub open spec fn trace_level_spec(env: Environment) -> TraceLevel {
    match env {
        Environment::Local => TraceLevel::Debug,
        Environment::Production => TraceLevel::Info,
    }
}

/// The level of log records kept in `env`.
pub fn trace_level(env: &Environment) -> (r: TraceLevel)
    ensures
        r == trace_level_spec(*env),
{
    match env {
        Environment::Local => TraceLevel::Debug,
        Environment::Production => TraceLevel::Info,
    }
}

/// Each log target, in order, with the level kept for it in `env`.
pub fn targets_with_level(env: &Environment, targets: &Vec<String>) -> (r: Vec<(String, TraceLevel)>)
    ensures
        r@.len() == targets@.len(),
        forall|i: int|
            0 <= i < targets@.len() ==> r@[i].0@ == targets@[i]@ && r@[i].1 == trace_level_spec(
                *env,
            ),
{
    let level = trace_level(env);
    let mut r: Vec<(String, TraceLevel)> = Vec::new();
    let mut i: usize = 0;
    while i < targets.len()
        invariant
            i <= targets.len(),
            level == trace_level_spec(*env),
            r@.len() == i,
            forall|k: int|
                0 <= k < i ==> r@[k].0@ == targets@[k]@ && r@[k].1 == trace_level_spec(*env),
        decreases targets.len() - i,
    {
        r.push((targets[i].clone(), level));
        i += 1;
    }
    r
}

} // verus!
