//! Building the contracts: the checks that come first, and then the plan.

use crate::actions::utils::{
    check_target_requirements, filter_failure, first_unknown, has_foreign_whitespace,
    parse_contracts_names, parsed_names, select_contracts, selected,
    validate_contract_name_argument,
};
use crate::backend::{Backend, BackendView};
use crate::builder::cargo_toml::{build_cargo_toml, synthesized};
use crate::builder::{
    builder_plan, codegen_steps_of, compile_steps_of, placement_steps_of, strip_steps_of,
    stub_steps_of, Builder,
};
use crate::command::{lemma_steps_for_each_all, steps_for_each, Step, StepView};
use crate::consts::WASM_TARGET;
use crate::errors::{Error, ErrorKind};
use crate::odra_toml::OdraToml;
use crate::project::{Failure, OdraLocation, OdraLocationView, Project, ProjectView};
use crate::text::{contains_text, is_whitespace_char};
use vstd::prelude::*;
use vstd::string::*;

verus! {

/// What a build comes to. The filter is parsed first, so that one that
/// cannot be read stops everything; then the installed targets are
/// checked, then the filter's names against the registry. Only then is
/// there a plan: that of the builder, for the selected contracts, with
/// the manifest synthesized for them.
pub open spec fn build_outcome(
    project: ProjectView,
    backend: BackendView,
    filter: Seq<char>,
    installed: Seq<char>,
    contracts: Seq<Seq<char>>,
    location: OdraLocationView,
    existing: Seq<Seq<char>>,
) -> Result<Seq<StepView>, Failure> {
    match parsed_names(filter) {
        Err(e) => Err(e),
        Ok(names) => {
            let unknown = first_unknown(contracts, names);
            if !contains_text(installed, WASM_TARGET@) {
                Err((ErrorKind::WasmTargetNotInstalled, Seq::<char>::empty()))
            } else if 0 <= unknown < names.len() {
                Err((ErrorKind::ContractNotFound, names[unknown]))
            } else {
                let chosen = selected(contracts, names);
                Ok(
                    builder_plan(
                        project,
                        backend,
                        synthesized(backend, chosen, project.members, project.name, location),
                        chosen,
                        existing,
                    ),
                )
            }
        },
    }
}

/// `step` does not write a file that is among `existing`.
pub open spec fn keeps_existing(existing: Seq<Seq<char>>) -> spec_fn(StepView) -> bool {
    |step: StepView|
        match step {
            StepView::WriteFile { path, content } => !existing.contains(path),
            _ => true,
        }
}

/// `p` holds of every step of `plan`.
pub open spec fn every_step(plan: Seq<StepView>, p: spec_fn(StepView) -> bool) -> bool {
    forall|i: int| 0 <= i < plan.len() ==> p(#[trigger] plan[i])
}

/// What holds of every step of two plans holds of every step of the one
/// followed by the other.
pub proof fn lemma_every_step_concat(
    a: Seq<StepView>,
    b: Seq<StepView>,
    p: spec_fn(StepView) -> bool,
)
    requires
        every_step(a, p),
        every_step(b, p),
    ensures
        every_step(a + b, p),
{
    assert forall|i: int| 0 <= i < (a + b).len() implies p(#[trigger] (a + b)[i]) by {
        if i < a.len() {
            assert((a + b)[i] == a[i]);
        } else {
            assert((a + b)[i] == b[i - a.len()]);
        }
    }
}

/// Without the compilation target there is no plan: nothing is created,
/// written or run.
pub proof fn lemma_missing_target_stops(
    project: ProjectView,
    backend: BackendView,
    filter: Seq<char>,
    installed: Seq<char>,
    contracts: Seq<Seq<char>>,
    location: OdraLocationView,
    existing: Seq<Seq<char>>,
)
    requires
        !contains_text(installed, WASM_TARGET@),
    ensures
        build_outcome(project, backend, filter, installed, contracts, location, existing) is Err,
        !has_foreign_whitespace(filter) ==> build_outcome(
            project,
            backend,
            filter,
            installed,
            contracts,
            location,
            existing,
        ) == Err::<Seq<StepView>, Failure>(
            (ErrorKind::WasmTargetNotInstalled, Seq::<char>::empty()),
        ),
{
}

/// A filter that holds a tab or a line break is refused, whatever else is
/// the case, and there is no plan.
pub proof fn lemma_tab_or_newline_rejected(
    project: ProjectView,
    backend: BackendView,
    filter: Seq<char>,
    installed: Seq<char>,
    contracts: Seq<Seq<char>>,
    location: OdraLocationView,
    existing: Seq<Seq<char>>,
)
    requires
        filter.contains('\t') || filter.contains('\n'),
    ensures
        build_outcome(project, backend, filter, installed, contracts, location, existing) == Err::<
            Seq<StepView>,
            Failure,
        >(filter_failure()),
{
    let i = choose|i: int| 0 <= i < filter.len() && (filter[i] == '\t' || filter[i] == '\n');
    assert(is_whitespace_char('\t'));
    assert(is_whitespace_char('\n'));
    assert(is_whitespace_char(filter[i]) && filter[i] != ' ');
}

/// No step of a builder's plan writes over a harness file that exists.
pub proof fn lemma_plan_keeps_existing(
    project: ProjectView,
    backend: BackendView,
    manifest: crate::cargo_toml::ManifestView,
    contracts: Seq<Seq<char>>,
    existing: Seq<Seq<char>>,
)
    ensures
        every_step(
            builder_plan(project, backend, manifest, contracts, existing),
            keeps_existing(existing),
        ),
{
    let p = keeps_existing(existing);
    let root = project.project_root;
    let head = seq![
        StepView::MakeDir { path: crate::builder::builder_dir(root, backend.name) },
        StepView::MakeDir {
            path: crate::paths::joined_path(
                crate::builder::builder_dir(root, backend.name),
                "src"@,
            ),
        },
        StepView::WriteManifest {
            path: crate::paths::joined_path(
                crate::builder::builder_dir(root, backend.name),
                crate::consts::CARGO_TOML_FILENAME@,
            ),
            manifest,
        },
    ];
    assert(every_step(head, p));
    let stubs = steps_for_each(contracts, stub_steps_of(root, backend, existing));
    lemma_steps_for_each_all(contracts, stub_steps_of(root, backend, existing), p);
    let codegen = steps_for_each(contracts, codegen_steps_of(root, backend));
    lemma_steps_for_each_all(contracts, codegen_steps_of(root, backend), p);
    let compile = steps_for_each(contracts, compile_steps_of(root, backend));
    lemma_steps_for_each_all(contracts, compile_steps_of(root, backend), p);
    let out_dir = seq![StepView::MakeDir { path: crate::paths::wasm_dir_of(root) }];
    assert(every_step(out_dir, p));
    let placement = steps_for_each(contracts, placement_steps_of(project, backend));
    lemma_steps_for_each_all(contracts, placement_steps_of(project, backend), p);
    let strip = steps_for_each(contracts, strip_steps_of(project));
    lemma_steps_for_each_all(contracts, strip_steps_of(project), p);
    lemma_every_step_concat(head, stubs, p);
    lemma_every_step_concat(codegen, compile, p);
    lemma_every_step_concat(out_dir, placement, p);
    lemma_every_step_concat(out_dir + placement, strip, p);
    lemma_every_step_concat(head + stubs, codegen + compile, p);
    lemma_every_step_concat(head + stubs + (codegen + compile), out_dir + placement + strip, p);
}

/// A build that is run again leaves the harness files alone: whatever a
/// build comes to, none of its steps writes over a harness file that
/// exists.
pub proof fn lemma_build_keeps_existing(
    project: ProjectView,
    backend: BackendView,
    filter: Seq<char>,
    installed: Seq<char>,
    contracts: Seq<Seq<char>>,
    location: OdraLocationView,
    existing: Seq<Seq<char>>,
)
    ensures
        match build_outcome(project, backend, filter, installed, contracts, location, existing) {
            Ok(plan) => every_step(plan, keeps_existing(existing)),
            Err(_) => true,
        },
{
    match parsed_names(filter) {
        Err(_) => {},
        Ok(names) => {
            let chosen = selected(contracts, names);
            lemma_plan_keeps_existing(
                project,
                backend,
                synthesized(backend, chosen, project.members, project.name, location),
                chosen,
                existing,
            );
        },
    }
}

/// The plan of a build of the contracts of `registry` that the filter
/// `filter` selects, for `backend`. `installed` is what the toolchain
/// prints as its installed targets, `location` where the project's
/// framework comes from, and `existing` the harness files that exist.
pub fn plan_build(
    project: &Project,
    backend: &Backend,
    filter: &str,
    installed: &str,
    registry: &OdraToml,
    location: &OdraLocation,
    existing: &Vec<String>,
) -> (r: Result<Vec<Step>, Error>)
    ensures
        match r {
            Ok(plan) => build_outcome(
                project@,
                backend@,
                filter@,
                installed@,
                registry.contracts.deep_view(),
                location@,
                existing.deep_view(),
            ) == Ok::<Seq<StepView>, Failure>(plan.deep_view()),
            Err(e) => build_outcome(
                project@,
                backend@,
                filter@,
                installed@,
                registry.contracts.deep_view(),
                location@,
                existing.deep_view(),
            ) == Err::<Seq<StepView>, Failure>(e@),
        },
{
    let names = parse_contracts_names(filter)?;
    check_target_requirements(installed)?;
    validate_contract_name_argument(registry, filter)?;
    let chosen = select_contracts(&registry.contracts, &names);
    let manifest = build_cargo_toml(
        backend,
        &chosen,
        &project.members,
        project.name.as_str(),
        location,
    );
    let builder = Builder::new(backend.duplicate());
    Ok(builder.build(project, manifest, &chosen, existing))
}

/// A build of contracts for a backend.
pub struct BuildAction<'a> {
    backend: &'a Backend,
    contracts_names: Option<String>,
    project: &'a Project,
}

impl<'a> BuildAction<'a> {
    /// A build of the contracts of `project` that `contracts_names`
    /// selects, for `backend`.
    pub fn new(project: &'a Project, backend: &'a Backend, contracts_names: Option<String>) -> (r:
        Self)
        ensures
            r.project_view() == project@,
            r.backend_view() == backend@,
            r.filter() == filter_of(contracts_names),
    {
        BuildAction { backend, contracts_names, project }
    }
}

/// The filter that an optional argument stands for: its text, or the empty
/// filter where it is absent.
pub open spec fn filter_of(contracts_names: Option<String>) -> Seq<char> {
    match contracts_names {
        Some(s) => s@,
        None => Seq::<char>::empty(),
    }
}

impl BuildAction<'_> {
    /// The project that is built.
    pub closed spec fn project_view(&self) -> ProjectView {
        self.project@
    }

    /// The backend that is built for.
    pub closed spec fn backend_view(&self) -> BackendView {
        self.backend@
    }

    /// The filter that selects the contracts.
    pub closed spec fn filter(&self) -> Seq<char> {
        filter_of(self.contracts_names)
    }

    /// The plan of the build, or the failure that stops it before its
    /// first step.
    pub fn build(
        &self,
        installed: &str,
        registry: &OdraToml,
        location: &OdraLocation,
        existing: &Vec<String>,
    ) -> (r: Result<Vec<Step>, Error>)
        ensures
            match r {
                Ok(plan) => build_outcome(
                    self.project_view(),
                    self.backend_view(),
                    self.filter(),
                    installed@,
                    registry.contracts.deep_view(),
                    location@,
                    existing.deep_view(),
                ) == Ok::<Seq<StepView>, Failure>(plan.deep_view()),
                Err(e) => build_outcome(
                    self.project_view(),
                    self.backend_view(),
                    self.filter(),
                    installed@,
                    registry.contracts.deep_view(),
                    location@,
                    existing.deep_view(),
                ) == Err::<Seq<StepView>, Failure>(e@),
            },
    {
        let names = self.contracts_names();
        plan_build(
            self.project,
            self.backend,
            names.as_str(),
            installed,
            registry,
            location,
            existing,
        )
    }

    /// The filter's text; empty where no filter was given.
    pub fn contracts_names(&self) -> (r: String)
        ensures
            r@ == self.filter(),
    {
        match &self.contracts_names {
            Some(s) => s.clone(),
            None => String::new(),
        }
    }
}

} // verus!
