//! Updating the project's dependencies.

use crate::cli::UpdateCommand;
use crate::command::{cargo_step, cargo_update, empty_plan, push_step, Step};
use vstd::prelude::*;
use vstd::string::*;

verus! {

/// The steps that update the project at `project_root`: the toolchain
/// updates the project's dependencies, whatever backend is named.
pub fn update_action(_update_command: &UpdateCommand, project_root: &str) -> (r: Vec<Step>)
    ensures
        r.deep_view() == seq![cargo_step(project_root@, seq!["update"@])],
{
    let mut plan = empty_plan();
    push_step(&mut plan, update_project(project_root));
    assert(plan.deep_view() =~= seq![cargo_step(project_root@, seq!["update"@])]);
    plan
}

/// The step that updates the dependencies of the project at
/// `project_root`.
pub fn update_project(project_root: &str) -> (r: Step)
    ensures
        r@ == cargo_step(project_root@, seq!["update"@]),
{
    cargo_update(project_root)
}

} // verus!
