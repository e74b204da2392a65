//! Starting a project from a template repository.

use crate::cli::InitCommand;
use crate::command::{empty_plan, push_step, push_text, Step, StepView};
use crate::text::concat;
use heck::ToSnakeCase;
use vstd::prelude::*;
use vstd::string::*;

verus! {

/// The template repository that is used where none is named.
pub const DEFAULT_TEMPLATE_REPO: &'static str = "odradev/odra-template";

/// What `heck` makes of `text` in snake case.
pub uninterp spec fn heck_snake_case_of(text: Seq<char>) -> Seq<char>;

/// `text` in snake case. The conversion is `heck`'s
/// `ToSnakeCase::to_snake_case`: this function hands it `text` and says
/// only that what comes back is what that crate makes of it.
#[verifier::external_body]
fn heck_snake_case(text: &str) -> (r: String)
    ensures
        r@ == heck_snake_case_of(text@),
{
    text.to_snake_case()
}

/// The repository that a request names; the default one where it names
/// none.
pub open spec fn template_repo(repo_uri: Seq<char>) -> Seq<char> {
    if repo_uri.len() == 0 {
        DEFAULT_TEMPLATE_REPO@
    } else {
        repo_uri
    }
}

/// The one step that makes a project: generating it from the repository,
/// under the project's name in snake case, with the day handed on.
pub open spec fn init_steps(name: Seq<char>, repo: Seq<char>, init: bool, date: Seq<char>) -> Seq<
    StepView,
> {
    seq![
        StepView::GenerateProject {
            source: repo,
            subfolder: None,
            branch: None,
            name: heck_snake_case_of(name),
            define: seq!["date="@ + date],
            init,
        },
    ]
}

/// Starting a project.
#[derive(Clone, Debug, PartialEq, Eq)]
pub struct Init {
    pub init: InitCommand,
}

impl Init {
    /// Starting the project that `init` asks for, from the default
    /// repository where it names none.
    pub fn new(init: InitCommand) -> (r: Init)
        ensures
            r.init.name@ == init.name@,
            r.init.repo_uri@ == template_repo(init.repo_uri@),
            r.init.git_branch == init.git_branch,
            r.init.source == init.source,
            r.init.template == init.template,
    {
        let mut init = init;
        if init.repo_uri.as_str().unicode_len() == 0 {
            init.repo_uri = String::from_str(DEFAULT_TEMPLATE_REPO);
        }
        Init { init }
    }

    /// The steps that make the project, in the current directory where
    /// `init` says so. `date` is the day, as the template wants it.
    pub fn generate_project(&self, init: bool, date: &str) -> (r: Vec<Step>)
        ensures
            r.deep_view() == init_steps(self.init.name@, self.init.repo_uri@, init, date@),
    {
        let name = heck_snake_case(self.init.name.as_str());
        let mut define: Vec<String> = Vec::new();
        assert(define.deep_view() =~= Seq::<Seq<char>>::empty());
        push_text(&mut define, concat("date=", date).as_str());
        assert(define.deep_view() =~= seq!["date="@ + date@]);
        let mut plan = empty_plan();
        push_step(
            &mut plan,
            Step::GenerateProject {
                source: self.init.repo_uri.clone(),
                subfolder: None,
                branch: None,
                name,
                define,
                init,
            },
        );
        assert(plan.deep_view() =~= init_steps(
            self.init.name@,
            self.init.repo_uri@,
            init,
            date@,
        ));
        plan
    }
}

} // verus!
