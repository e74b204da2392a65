//! Running the tests of the contracts.

use crate::actions::build_wasm::{build_outcome, plan_build};
use crate::backend::{backend_from, Backend};
use crate::command::{
    cargo_test_backend, cargo_test_mock_vm, empty_plan, push_step, test_backend_step, test_step,
    Step, StepView,
};
use crate::errors::Error;
use crate::odra_toml::OdraToml;
use crate::project::{Failure, OdraLocation, OdraLocationView, Project, ProjectView};
use vstd::prelude::*;
use vstd::string::*;

verus! {

/// What a test run comes to. Without a backend the library's tests are
/// run as they are. With one, the contracts are built for it first, all
/// of them, unless the build is skipped, and a build that fails stops
/// everything; then the tests are run against the backend.
pub open spec fn test_outcome(
    project: ProjectView,
    backend: Option<Seq<char>>,
    args: Seq<Seq<char>>,
    skip_build: bool,
    installed: Seq<char>,
    contracts: Seq<Seq<char>>,
    location: OdraLocationView,
    existing: Seq<Seq<char>>,
) -> Result<Seq<StepView>, Failure> {
    match backend {
        None => Ok(seq![test_step(project.project_root, args)]),
        Some(name) => {
            let last = seq![test_backend_step(project.project_root, name, args)];
            if skip_build {
                Ok(last)
            } else {
                match build_outcome(
                    project,
                    backend_from(None, name, None, None, None),
                    Seq::<char>::empty(),
                    installed,
                    contracts,
                    location,
                    existing,
                ) {
                    Err(e) => Err(e),
                    Ok(plan) => Ok(plan + last),
                }
            }
        },
    }
}

/// A test run.
pub struct TestAction<'a> {
    project: &'a Project,
    backend: Option<String>,
    passthrough_args: Vec<String>,
    skip_build: bool,
}

impl<'a> TestAction<'a> {
    /// A run of the tests of `project`: against `backend` where one is
    /// named, with `passthrough_args` handed on to the test command, and
    /// without a build first where `skip_build` says so.
    pub fn new(
        project: &'a Project,
        backend: Option<String>,
        passthrough_args: Vec<String>,
        skip_build: bool,
    ) -> (r: TestAction<'a>)
        ensures
            r.project_view() == project@,
            r.backend_view() == backend.deep_view(),
            r.args_view() == passthrough_args.deep_view(),
            r.skips_build() == skip_build,
    {
        TestAction { backend, passthrough_args, skip_build, project }
    }
}

impl TestAction<'_> {
    /// The project that is tested.
    pub closed spec fn project_view(&self) -> ProjectView {
        self.project@
    }

    /// The backend that is tested against.
    pub closed spec fn backend_view(&self) -> Option<Seq<char>> {
        self.backend.deep_view()
    }

    /// The arguments handed on to the test command.
    pub closed spec fn args_view(&self) -> Seq<Seq<char>> {
        self.passthrough_args.deep_view()
    }

    /// Whether the build is skipped.
    pub closed spec fn skips_build(&self) -> bool {
        self.skip_build
    }

    /// The plan of the test run, or the failure that stops it before its
    /// first step. What is handed in counts only where contracts are built
    /// first: `installed` is what the toolchain prints as its installed
    /// targets, `location` where the project's framework comes from, and
    /// `existing` the harness files that exist.
    pub fn test(
        &self,
        installed: &str,
        registry: &OdraToml,
        location: &OdraLocation,
        existing: &Vec<String>,
    ) -> (r: Result<Vec<Step>, Error>)
        ensures
            match r {
                Ok(plan) => test_outcome(
                    self.project_view(),
                    self.backend_view(),
                    self.args_view(),
                    self.skips_build(),
                    installed@,
                    registry.contracts.deep_view(),
                    location@,
                    existing.deep_view(),
                ) == Ok::<Seq<StepView>, Failure>(plan.deep_view()),
                Err(e) => test_outcome(
                    self.project_view(),
                    self.backend_view(),
                    self.args_view(),
                    self.skips_build(),
                    installed@,
                    registry.contracts.deep_view(),
                    location@,
                    existing.deep_view(),
                ) == Err::<Seq<StepView>, Failure>(e@),
            },
    {
        let mut plan = empty_plan();
        match &self.backend {
            None => {
                push_step(&mut plan, self.test_mock_vm());
                assert(plan.deep_view() =~= seq![
                    test_step(self.project@.project_root, self.passthrough_args.deep_view()),
                ]);
            },
            Some(name) => {
                if !self.skip_build {
                    plan = self.build_wasm_files(installed, registry, location, existing)?;
                }
                let ghost before = plan.deep_view();
                push_step(&mut plan, self.test_backend());
                assert(plan.deep_view() =~= before + seq![
                    test_backend_step(
                        self.project@.project_root,
                        name@,
                        self.passthrough_args.deep_view(),
                    ),
                ]);
            },
        }
        Ok(plan)
    }

    /// The step that runs the tests without a backend.
    pub fn test_mock_vm(&self) -> (r: Step)
        ensures
            r@ == test_step(self.project_view().project_root, self.args_view()),
    {
        cargo_test_mock_vm(self.project.project_root.as_str(), &self.passthrough_args)
    }

    /// The step that runs the tests against the backend.
    pub fn test_backend(&self) -> (r: Step)
        requires
            self.backend_view() is Some,
        ensures
            r@ == test_backend_step(
                self.project_view().project_root,
                self.backend_view()->0,
                self.args_view(),
            ),
    {
        cargo_test_backend(
            self.project.project_root.as_str(),
            self.backend_name(),
            &self.passthrough_args,
        )
    }

    /// The name of the backend.
    pub fn backend_name(&self) -> (r: &str)
        requires
            self.backend_view() is Some,
        ensures
            r@ == self.backend_view()->0,
    {
        match &self.backend {
            Some(name) => name.as_str(),
            None => "",
        }
    }

    /// The arguments handed on to the test command.
    pub fn get_passthrough_args(&self) -> (r: &Vec<String>)
        ensures
            r.deep_view() == self.args_view(),
    {
        &self.passthrough_args
    }

    /// The plan of the build that comes before the tests: all contracts,
    /// for the backend.
    pub fn build_wasm_files(
        &self,
        installed: &str,
        registry: &OdraToml,
        location: &OdraLocation,
        existing: &Vec<String>,
    ) -> (r: Result<Vec<Step>, Error>)
        requires
            self.backend_view() is Some,
        ensures
            match r {
                Ok(plan) => build_outcome(
                    self.project_view(),
                    backend_from(None, self.backend_view()->0, None, None, None),
                    Seq::<char>::empty(),
                    installed@,
                    registry.contracts.deep_view(),
                    location@,
                    existing.deep_view(),
                ) == Ok::<Seq<StepView>, Failure>(plan.deep_view()),
                Err(e) => build_outcome(
                    self.project_view(),
                    backend_from(None, self.backend_view()->0, None, None, None),
                    Seq::<char>::empty(),
                    installed@,
                    registry.contracts.deep_view(),
                    location@,
                    existing.deep_view(),
                ) == Err::<Seq<StepView>, Failure>(e@),
            },
    {
        let backend = Backend::named(self.backend_name());
        proof {
            reveal_strlit("");
            assert(""@ =~= Seq::<char>::empty());
        }
        plan_build(self.project, &backend, "", installed, registry, location, existing)
    }
}

} // verus!
