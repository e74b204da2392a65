//! Writing the schemas of the contracts.

use crate::actions::utils::{
    check_target_requirements, first_unknown, parse_contracts_names, parsed_names,
    select_contracts, selected, validate_contract_name_argument,
};
use crate::command::{
    cargo_generate_schema_files, empty_plan, push_step, schema_step, Step, StepView,
};
use crate::consts::WASM_TARGET;
use crate::errors::{Error, ErrorKind};
use crate::odra_toml::{fqn_first_segment, fqn_struct_name, Contract, OdraToml};
use crate::project::{is_workspace_view, Failure, Project, ProjectView};
use crate::text::contains_text;
use vstd::prelude::*;
use vstd::string::*;

verus! {

/// The name of the crate that holds the contract `fqn` of `project`.
pub open spec fn crate_name_of(project: ProjectView, fqn: Seq<char>) -> Seq<char> {
    if is_workspace_view(project.members) {
        fqn_first_segment(fqn)
    } else {
        project.name
    }
}

/// The steps that write the schema of each of `contracts`.
pub open spec fn schema_steps(project: ProjectView, contracts: Seq<Seq<char>>) -> Seq<StepView> {
    Seq::new(
        contracts.len(),
        |i: int|
            schema_step(
                project.project_root,
                fqn_struct_name(contracts[i]),
                crate_name_of(project, contracts[i]),
            ),
    )
}

/// What writing the schemas comes to: the filter is parsed, the installed
/// targets are checked, the filter's names are checked against the
/// registry, and then there is one step for each selected contract.
pub open spec fn schema_outcome(
    project: ProjectView,
    filter: Seq<char>,
    installed: Seq<char>,
    contracts: Seq<Seq<char>>,
) -> Result<Seq<StepView>, Failure> {
    match parsed_names(filter) {
        Err(e) => Err(e),
        Ok(names) => {
            let unknown = first_unknown(contracts, names);
            if !contains_text(installed, WASM_TARGET@) {
                Err((ErrorKind::WasmTargetNotInstalled, Seq::<char>::empty()))
            } else if 0 <= unknown < names.len() {
                Err((ErrorKind::ContractNotFound, names[unknown]))
            } else {
                Ok(schema_steps(project, selected(contracts, names)))
            }
        },
    }
}

/// Writing the schemas of contracts.
pub struct SchemaAction<'a> {
    project: &'a Project,
    contracts_names: Option<String>,
}

impl<'a> SchemaAction<'a> {
    /// Writing the schemas of the contracts of `project` that
    /// `contracts_names` selects.
    pub fn new(project: &'a Project, contracts_names: Option<String>) -> (r: Self)
        ensures
            r.project_view() == project@,
            r.filter() == crate::actions::build_wasm::filter_of(contracts_names),
    {
        SchemaAction { project, contracts_names }
    }
}

impl SchemaAction<'_> {
    /// The project whose schemas are written.
    pub closed spec fn project_view(&self) -> ProjectView {
        self.project@
    }

    /// The filter that selects the contracts.
    pub closed spec fn filter(&self) -> Seq<char> {
        crate::actions::build_wasm::filter_of(self.contracts_names)
    }

    /// The plan, or the failure that stops it before its first step.
    /// `installed` is what the toolchain prints as its installed targets.
    pub fn build(&self, installed: &str, registry: &OdraToml) -> (r: Result<Vec<Step>, Error>)
        ensures
            match r {
                Ok(plan) => schema_outcome(
                    self.project_view(),
                    self.filter(),
                    installed@,
                    registry.contracts.deep_view(),
                ) == Ok::<Seq<StepView>, Failure>(plan.deep_view()),
                Err(e) => schema_outcome(
                    self.project_view(),
                    self.filter(),
                    installed@,
                    registry.contracts.deep_view(),
                ) == Err::<Seq<StepView>, Failure>(e@),
            },
    {
        let filter = self.contracts_names();
        let names = parse_contracts_names(filter.as_str())?;
        check_target_requirements(installed)?;
        validate_contract_name_argument(registry, filter.as_str())?;
        let chosen = select_contracts(&registry.contracts, &names);
        Ok(self.generate_schema_files(&chosen))
    }

    /// The steps that write the schema of each of `contracts`.
    pub fn generate_schema_files(&self, contracts: &Vec<Contract>) -> (r: Vec<Step>)
        ensures
            r.deep_view() == schema_steps(self.project_view(), contracts.deep_view()),
    {
        let ghost all = contracts.deep_view();
        let ghost want = schema_steps(self.project@, all);
        let mut plan = empty_plan();
        let mut i: usize = 0;
        while i < contracts.len()
            invariant
                all == contracts.deep_view(),
                want == schema_steps(self.project@, all),
                i <= contracts.len(),
                plan.deep_view().len() == i,
                forall|k: int| 0 <= k < i ==> plan.deep_view()[k] == want[k],
            decreases contracts.len() - i,
        {
            assert(all[i as int] == contracts[i as int]@);
            let name = contracts[i].struct_name();
            let owner = contracts[i].crate_name(self.project);
            push_step(
                &mut plan,
                cargo_generate_schema_files(
                    self.project.project_root.as_str(),
                    name.as_str(),
                    owner.as_str(),
                ),
            );
            i = i + 1;
        }
        assert(plan.deep_view() =~= want);
        plan
    }

    /// The filter's text; empty where no filter was given.
    pub fn contracts_names(&self) -> (r: String)
        ensures
            r@ == self.filter(),
    {
        match &self.contracts_names {
            Some(s) => s.clone(),
            None => String::new(),
        }
    }
}

} // verus!
