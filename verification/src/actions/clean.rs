//! Removing what builds have left behind.

use crate::command::{
    append_steps, cargo_clean, cargo_step, empty_plan, push_step, rm_dir, Step, StepView,
};
use crate::paths::{join, joined_path, wasm_dir, wasm_dir_of};
use crate::project::{MemberView, Project, ProjectView};
use vstd::prelude::*;
use vstd::string::*;

verus! {

/// The steps that remove the output directory of each of `members`.
pub open spec fn member_cleaning(members: Seq<MemberView>) -> Seq<StepView> {
    Seq::new(members.len(), |i: int| StepView::RemoveDir { path: wasm_dir_of(members[i].root) })
}

/// The steps that remove each of the directories `dirs` of the project at
/// `root`.
pub open spec fn builder_cleaning(root: Seq<char>, dirs: Seq<Seq<char>>) -> Seq<StepView> {
    Seq::new(dirs.len(), |i: int| StepView::RemoveDir { path: joined_path(root, dirs[i]) })
}

/// The steps that clean a project: the output directory of each member
/// and of the project go, then the builders' directories, and the
/// toolchain removes what it built.
pub open spec fn cleaning(project: ProjectView, builders: Seq<Seq<char>>) -> Seq<StepView> {
    member_cleaning(project.members) + seq![
        StepView::RemoveDir { path: wasm_dir_of(project.project_root) },
    ] + builder_cleaning(project.project_root, builders) + seq![
        cargo_step(project.project_root, seq!["clean"@]),
    ]
}

/// The steps that clean `project`. `builders` names the builders'
/// directories that were found in the project's root.
pub fn clean_action(project: &Project, builders: &Vec<String>) -> (r: Vec<Step>)
    ensures
        r.deep_view() == cleaning(project@, builders.deep_view()),
{
    let ghost ms = project.members.deep_view();
    let ghost bs = builders.deep_view();
    let mut plan = empty_plan();
    let mut i: usize = 0;
    while i < project.members.len()
        invariant
            ms == project.members.deep_view(),
            i <= project.members.len(),
            plan.deep_view().len() == i,
            forall|k: int| 0 <= k < i ==> plan.deep_view()[k] == member_cleaning(ms)[k],
        decreases project.members.len() - i,
    {
        assert(ms[i as int] == project.members[i as int]@);
        let dir = wasm_dir(project.members[i].root.as_str());
        push_step(&mut plan, rm_dir(dir.as_str()));
        i = i + 1;
    }
    assert(plan.deep_view() =~= member_cleaning(ms));
    let out = wasm_dir(project.project_root.as_str());
    push_step(&mut plan, rm_dir(out.as_str()));
    let ghost head = plan.deep_view();
    let mut second = empty_plan();
    let mut j: usize = 0;
    while j < builders.len()
        invariant
            bs == builders.deep_view(),
            j <= builders.len(),
            second.deep_view().len() == j,
            forall|k: int|
                0 <= k < j ==> second.deep_view()[k] == builder_cleaning(
                    project.project_root@,
                    bs,
                )[k],
        decreases builders.len() - j,
    {
        assert(bs[j as int] == builders[j as int]@);
        let dir = join(project.project_root.as_str(), builders[j].as_str());
        push_step(&mut second, rm_dir(dir.as_str()));
        j = j + 1;
    }
    assert(second.deep_view() =~= builder_cleaning(project.project_root@, bs));
    append_steps(&mut plan, second);
    push_step(&mut plan, cargo_clean(project.project_root.as_str()));
    assert(plan.deep_view() =~= cleaning(project@, bs));
    plan
}

} // verus!
