//! Cleaning the current directory of what builds have left behind.

use crate::command::{cargo_clean, cargo_step, empty_plan, push_step, rm_dir, Step, StepView};
use vstd::prelude::*;
use vstd::string::*;

verus! {

/// The steps that clean the current directory: each of `found` goes, and
/// the toolchain removes what it built.
pub open spec fn clean_steps(found: Seq<Seq<char>>) -> Seq<StepView> {
    Seq::new(found.len(), |i: int| StepView::RemoveDir { path: found[i] }) + seq![
        cargo_step("."@, seq!["clean"@]),
    ]
}

/// Cleaning.
#[derive(Clone, Debug, PartialEq, Eq)]
pub struct Clean {}

impl Clean {
    /// A cleaning.
    pub fn new() -> Clean {
        Clean {  }
    }

    /// The steps that clean the current directory. `found` names the
    /// output directory and the builders' directories that are there.
    pub fn clean(&self, found: &Vec<String>) -> (r: Vec<Step>)
        ensures
            r.deep_view() == clean_steps(found.deep_view()),
    {
        let ghost all = found.deep_view();
        let mut plan = empty_plan();
        let mut i: usize = 0;
        while i < found.len()
            invariant
                all == found.deep_view(),
                i <= found.len(),
                plan.deep_view().len() == i,
                forall|k: int|
                    0 <= k < i ==> plan.deep_view()[k] == (StepView::RemoveDir { path: all[k] }),
            decreases found.len() - i,
        {
            assert(all[i as int] == found[i as int]@);
            push_step(&mut plan, Clean::rm_rf(found[i].as_str()));
            i = i + 1;
        }
        push_step(&mut plan, cargo_clean("."));
        assert(plan.deep_view() =~= clean_steps(all));
        plan
    }

    /// The step that removes `folder`.
    pub fn rm_rf(folder: &str) -> (r: Step)
        ensures
            r@ == (StepView::RemoveDir { path: folder@ }),
    {
        rm_dir(folder)
    }
}

} // verus!
