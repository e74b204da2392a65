//! Updating the dependencies of the project and of its builders.

use crate::backend::{backend_index, find_backend, Backend, BackendView};
use crate::builder::builder_dir;
use crate::cli::UpdateCommand;
use crate::command::{cargo_step, cargo_update, empty_plan, push_step, Step, StepView};
use crate::errors::{Error, ErrorKind};
use crate::paths::join;
use crate::project::Failure;
use vstd::prelude::*;
use vstd::string::*;

verus! {

/// The step that updates the builder of the backend `name`.
pub open spec fn builder_update(root: Seq<char>, name: Seq<char>) -> StepView {
    cargo_step(builder_dir(root, name), seq!["update"@])
}

/// The steps that update the project and then the builder of each of
/// `backends`.
pub open spec fn everything_updated(root: Seq<char>, backends: Seq<BackendView>) -> Seq<StepView> {
    seq![cargo_step(root, seq!["update"@])] + Seq::new(
        backends.len(),
        |i: int| builder_update(root, backends[i].name),
    )
}

/// What an update comes to: with a backend named, the update of its
/// builder alone, and a failure where the project has no such backend;
/// without one, the update of everything.
pub open spec fn update_outcome(
    backend: Option<Seq<char>>,
    backends: Seq<BackendView>,
    root: Seq<char>,
) -> Result<Seq<StepView>, Failure> {
    match backend {
        Some(name) => if backend_index(backends, name) >= 0 {
            Ok(seq![builder_update(root, name)])
        } else {
            Err((ErrorKind::BackendNotFound, name))
        },
        None => Ok(everything_updated(root, backends)),
    }
}

/// The plan of an update of the project at `project_root`, which has the
/// backends `backends`.
pub fn update(update_command: &UpdateCommand, backends: &Vec<Backend>, project_root: &str) -> (r:
    Result<Vec<Step>, Error>)
    ensures
        match r {
            Ok(plan) => update_outcome(
                update_command.backend.deep_view(),
                backends.deep_view(),
                project_root@,
            ) == Ok::<Seq<StepView>, Failure>(plan.deep_view()),
            Err(e) => update_outcome(
                update_command.backend.deep_view(),
                backends.deep_view(),
                project_root@,
            ) == Err::<Seq<StepView>, Failure>(e@),
        },
{
    match &update_command.backend {
        Some(name) => match find_backend(backends, name.as_str()) {
            Some(i) => {
                proof {
                    crate::backend::lemma_backend_index(backends.deep_view(), name@);
                    assert(backends.deep_view()[i as int] == backends[i as int]@);
                }
                let mut plan = empty_plan();
                push_step(&mut plan, update_builder(&backends[i], project_root));
                assert(plan.deep_view() =~= seq![builder_update(project_root@, name@)]);
                Ok(plan)
            },
            None => Err(Error::BackendNotFound(name.clone())),
        },
        None => Ok(update_everything(backends, project_root)),
    }
}

/// The step that updates the builder of `backend`.
pub fn update_builder(backend: &Backend, project_root: &str) -> (r: Step)
    ensures
        r@ == builder_update(project_root@, backend.name@),
{
    let rel = backend.builder_path();
    let dir = join(project_root, rel.as_str());
    cargo_update(dir.as_str())
}

/// The step that updates the project.
pub fn update_project(project_root: &str) -> (r: Step)
    ensures
        r@ == cargo_step(project_root@, seq!["update"@]),
{
    cargo_update(project_root)
}

/// The steps that update the project and the builder of each backend.
pub fn update_everything(backends: &Vec<Backend>, project_root: &str) -> (r: Vec<Step>)
    ensures
        r.deep_view() == everything_updated(project_root@, backends.deep_view()),
{
    let ghost all = backends.deep_view();
    let ghost want = everything_updated(project_root@, all);
    let mut plan = empty_plan();
    push_step(&mut plan, update_project(project_root));
    let mut i: usize = 0;
    while i < backends.len()
        invariant
            all == backends.deep_view(),
            want == everything_updated(project_root@, all),
            i <= backends.len(),
            plan.deep_view().len() == i + 1,
            forall|k: int| 0 <= k < i + 1 ==> plan.deep_view()[k] == want[k],
        decreases backends.len() - i,
    {
        assert(all[i as int] == backends[i as int]@);
        push_step(&mut plan, update_builder(&backends[i], project_root));
        i = i + 1;
    }
    assert(plan.deep_view() =~= want);
    plan
}

} // verus!
