//! Adding a contract to a project: its file, its registration in the
//! library's root file, and its entry in the registry.

use crate::cargo_toml::copy_opt;
use crate::command::{
    append_file, append_steps, empty_plan, push_step, push_text, write_to_file, Step, StepView,
};
use crate::consts::{MODULE_REGISTER, MODULE_TEMPLATE, ODRA_TEMPLATE_GH_RAW_REPO};
use crate::errors::{Error, ErrorKind};
use crate::odra_toml::{is_well_formed_fqn, registry_has_contract, well_formed_fqn, OdraToml};
use crate::paths::{
    camel_case_of, join, joined_path, snake_case_of, to_camel_case, to_snake_case,
};
use crate::project::{
    is_workspace_view, lemma_member_index, member_index, Failure, OdraLocation, OdraLocationView,
    Project, ProjectView,
};
use crate::template::{fetch_result, map_fetch, source_of, Fetched, FetchedView, TemplateGenerator};
use crate::text::{concat, concat3, contains, contains_text};
use vstd::prelude::*;
use vstd::string::*;

verus! {

/// Adding a contract.
pub struct GenerateAction<'a> {
    pub project: &'a Project,
    pub contract_name: String,
    pub contract_module_ident: String,
    pub module_root: String,
    pub module_name: Option<String>,
    pub template_generator: TemplateGenerator,
}

/// What a `GenerateAction` holds.
pub struct GenerateView {
    pub project: ProjectView,
    pub contract_name: Seq<char>,
    pub contract_module_ident: Seq<char>,
    pub module_root: Seq<char>,
    pub module_name: Option<Seq<char>>,
    pub base: Seq<char>,
    pub location: OdraLocationView,
}

impl View for GenerateAction<'_> {
    type V = GenerateView;

    open spec fn view(&self) -> GenerateView {
        GenerateView {
            project: self.project@,
            contract_name: self.contract_name@,
            contract_module_ident: self.contract_module_ident@,
            module_root: self.module_root@,
            module_name: self.module_name.deep_view(),
            base: self.template_generator.raw_repository_path@,
            location: self.template_generator.odra_location@,
        }
    }
}

/// What setting out to add the contract `contract_name` to the module
/// `module_name` of `project` comes to. A workspace needs a module to be
/// named, and the module must be a member; the contract's file then goes
/// under the member's root, and under the project's where no module is
/// named.
pub open spec fn generate_setup(
    project: ProjectView,
    location: OdraLocationView,
    contract_name: Seq<char>,
    module_name: Option<Seq<char>>,
) -> Result<GenerateView, Failure> {
    let view = GenerateView {
        project,
        contract_name,
        contract_module_ident: snake_case_of(contract_name),
        module_root: project.project_root,
        module_name,
        base: ODRA_TEMPLATE_GH_RAW_REPO@,
        location,
    };
    match module_name {
        None => if is_workspace_view(project.members) {
            Err((ErrorKind::ModuleNotProvided, Seq::<char>::empty()))
        } else {
            Ok(view)
        },
        Some(m) => {
            let i = member_index(project.members, m);
            if 0 <= i < project.members.len() {
                Ok(GenerateView { module_root: project.members[i].root, ..view })
            } else {
                Err((ErrorKind::ModuleNotFound, m))
            }
        },
    }
}

/// The path of the file that gets the contract.
pub open spec fn module_file_of(g: GenerateView) -> Seq<char> {
    joined_path(joined_path(g.module_root, "src"@), snake_case_of(g.contract_name) + ".rs"@)
}

/// The path of the library's root file.
pub open spec fn lib_rs_of(g: GenerateView) -> Seq<char> {
    joined_path(g.module_root, "src/lib.rs"@)
}

/// The text of the contract's file, as far as fetching its template got.
pub open spec fn module_body_of(g: GenerateView, fetched: FetchedView) -> Result<
    Seq<char>,
    Failure,
> {
    map_fetch(
        fetch_result(source_of(g.base, g.location, MODULE_TEMPLATE@), MODULE_TEMPLATE@, fetched),
        seq![("#module_name"@, camel_case_of(g.contract_name))],
    )
}

/// The code that registers the contract, as far as fetching its template
/// got.
pub open spec fn snippet_of(g: GenerateView, fetched: FetchedView) -> Result<Seq<char>, Failure> {
    map_fetch(
        fetch_result(source_of(g.base, g.location, MODULE_REGISTER@), MODULE_REGISTER@, fetched),
        seq![
            ("#contract_name"@, snake_case_of(g.contract_name)),
            ("#module_name"@, camel_case_of(g.contract_name)),
        ],
    )
}

/// The step that writes the contract's file. A template that could not
/// be had, and a file that is already in the place, are failures.
pub open spec fn contract_file_outcome(
    g: GenerateView,
    fetched: FetchedView,
    exists: bool,
) -> Result<Seq<StepView>, Failure> {
    match module_body_of(g, fetched) {
        Err(e) => Err(e),
        Ok(body) => if exists {
            Err((ErrorKind::FileAlreadyExists, module_file_of(g)))
        } else {
            Ok(seq![StepView::WriteFile { path: module_file_of(g), content: body }])
        },
    }
}

/// The library's root file seems to know the contract already: it holds
/// the contract's name, or both its type and its reference type.
pub open spec fn probably_registered(g: GenerateView, lib_rs: Seq<char>) -> bool {
    contains_text(lib_rs, g.contract_name) || (contains_text(
        lib_rs,
        camel_case_of(g.contract_name),
    ) && contains_text(lib_rs, g.contract_module_ident + "Ref"@))
}

/// The step that registers the contract in the library's root file. A
/// template that could not be had, a root file that could not be read
/// and one that holds the registration already are failures; one that
/// seems to know the contract is left as it is.
pub open spec fn lib_rs_outcome(
    g: GenerateView,
    fetched: FetchedView,
    lib_rs: Option<Seq<char>>,
) -> Result<Seq<StepView>, Failure> {
    match snippet_of(g, fetched) {
        Err(e) => Err(e),
        Ok(snippet) => match lib_rs {
            None => Err((ErrorKind::LibRsNotFound, Seq::<char>::empty())),
            Some(text) => if contains_text(text, snippet) {
                Err((ErrorKind::ModuleAlreadyInLibRs, g.contract_name))
            } else if probably_registered(g, text) {
                Ok(Seq::<StepView>::empty())
            } else {
                Ok(seq![StepView::AppendFile { path: lib_rs_of(g), content: snippet }])
            },
        },
    }
}

/// The fully qualified name of the new contract: its module and its type,
/// behind the name of the member where one is named.
pub open spec fn new_fqn(g: GenerateView) -> Seq<char> {
    match g.module_name {
        None => snake_case_of(g.contract_name) + "::"@ + camel_case_of(g.contract_name),
        Some(m) => m + "::"@ + g.contract_module_ident + "::"@ + camel_case_of(g.contract_name),
    }
}

/// The step that writes the registry with the new contract at its end. A
/// registry that has a contract of that type already, and a name that is
/// not well formed, are failures.
pub open spec fn registry_outcome(
    g: GenerateView,
    contracts: Seq<Seq<char>>,
    location: Seq<char>,
) -> Result<Seq<StepView>, Failure> {
    if registry_has_contract(contracts, camel_case_of(g.contract_name)) {
        Err((ErrorKind::ContractAlreadyInOdraToml, camel_case_of(g.contract_name)))
    } else if !well_formed_fqn(new_fqn(g)) {
        Err((ErrorKind::MalformedFqn, new_fqn(g)))
    } else {
        Ok(seq![StepView::SaveRegistry { path: location, contracts: contracts.push(new_fqn(g)) }])
    }
}

/// The whole plan: the three parts in their order, and the first failure
/// among them in place of any step.
pub open spec fn generate_outcome(
    g: GenerateView,
    module_body: FetchedView,
    file_exists: bool,
    snippet: FetchedView,
    lib_rs: Option<Seq<char>>,
    contracts: Seq<Seq<char>>,
    location: Seq<char>,
) -> Result<Seq<StepView>, Failure> {
    match contract_file_outcome(g, module_body, file_exists) {
        Err(e) => Err(e),
        Ok(first) => match lib_rs_outcome(g, snippet, lib_rs) {
            Err(e) => Err(e),
            Ok(second) => match registry_outcome(g, contracts, location) {
                Err(e) => Err(e),
                Ok(third) => Ok(first + second + third),
            },
        },
    }
}

/// `r`, with each side taken by its view.
pub open spec fn plan_view(r: Result<Vec<Step>, Error>) -> Result<Seq<StepView>, Failure> {
    match r {
        Ok(plan) => Ok(plan.deep_view()),
        Err(e) => Err(e@),
    }
}

impl<'a> GenerateAction<'a> {
    /// Sets out to add the contract `contract_name` to the module
    /// `module_name` of `project`, whose framework comes from
    /// `odra_location`.
    pub fn new(
        project: &'a Project,
        odra_location: OdraLocation,
        contract_name: String,
        module_name: Option<String>,
    ) -> (r: Result<GenerateAction<'a>, Error>)
        ensures
            match r {
                Ok(g) => generate_setup(
                    project@,
                    odra_location@,
                    contract_name@,
                    module_name.deep_view(),
                ) == Ok::<GenerateView, Failure>(g@),
                Err(e) => generate_setup(
                    project@,
                    odra_location@,
                    contract_name@,
                    module_name.deep_view(),
                ) == Err::<GenerateView, Failure>(e@),
            },
    {
        if project.is_workspace() && module_name.is_none() {
            return Err(Error::ModuleNotProvided);
        }
        let module_root = project.module_root(copy_opt(&module_name))?;
        proof {
            if module_name is Some {
                lemma_member_index(project.members.deep_view(), module_name->0@);
            }
        }
        let contract_module_ident = to_snake_case(contract_name.as_str());
        Ok(
            GenerateAction {
                project,
                contract_name,
                contract_module_ident,
                module_root,
                module_name,
                template_generator: TemplateGenerator::new(
                    String::from_str(ODRA_TEMPLATE_GH_RAW_REPO),
                    odra_location,
                ),
            },
        )
    }
}

impl GenerateAction<'_> {
    /// The plan that adds the contract, or the failure that stops it
    /// before its first step. `module_body` and `snippet` are what
    /// fetching the two templates gave, `file_exists` says whether a file
    /// is in the place of the contract's, `lib_rs` is the text of the
    /// library's root file where it could be read, and `registry` the
    /// project's registry.
    pub fn generate_contract(
        &self,
        module_body: Fetched,
        file_exists: bool,
        snippet: Fetched,
        lib_rs: Option<&str>,
        registry: &OdraToml,
    ) -> (r: Result<Vec<Step>, Error>)
        ensures
            plan_view(r) == generate_outcome(
                self@,
                module_body@,
                file_exists,
                snippet@,
                lib_rs.deep_view(),
                registry.contracts.deep_view(),
                registry.location@,
            ),
    {
        let mut plan = self.add_contract_file_to_src(module_body, file_exists)?;
        append_steps(&mut plan, self.update_lib_rs(snippet, lib_rs)?);
        append_steps(&mut plan, self.update_odra_toml(registry)?);
        Ok(plan)
    }

    /// The name of the contract, as it was given.
    pub fn contract_name(&self) -> (r: &str)
        ensures
            r@ == self.contract_name@,
    {
        self.contract_name.as_str()
    }

    /// The name of the contract's type.
    pub fn contract_struct_name(&self) -> (r: String)
        ensures
            r@ == camel_case_of(self.contract_name@),
    {
        to_camel_case(self.contract_name())
    }

    /// The name of the contract's module.
    pub fn module_name(&self) -> (r: String)
        ensures
            r@ == snake_case_of(self.contract_name@),
    {
        to_snake_case(self.contract_name())
    }

    /// The name of the contract's reference type.
    pub fn module_ref_ident(&self) -> (r: String)
        ensures
            r@ == self.contract_module_ident@ + "Ref"@,
    {
        concat(self.contract_module_ident.as_str(), "Ref")
    }

    /// The path of the file that gets the contract.
    pub fn module_file_path(&self) -> (r: String)
        ensures
            r@ == module_file_of(self@),
    {
        let src = join(self.module_root.as_str(), "src");
        let file = concat(self.module_name().as_str(), ".rs");
        join(src.as_str(), file.as_str())
    }

    /// The step that writes the contract's file.
    pub fn add_contract_file_to_src(&self, fetched: Fetched, exists: bool) -> (r: Result<
        Vec<Step>,
        Error,
    >)
        ensures
            plan_view(r) == contract_file_outcome(self@, fetched@, exists),
    {
        let name = self.contract_struct_name();
        let body = self.template_generator.module_template(name.as_str(), fetched)?;
        let path = self.module_file_path();
        if exists {
            return Err(Error::FileAlreadyExists(path));
        }
        let mut plan = empty_plan();
        push_step(&mut plan, write_to_file(path.as_str(), body.as_str()));
        assert(plan.deep_view() =~= seq![
            StepView::WriteFile { path: module_file_of(self@), content: body@ },
        ]);
        Ok(plan)
    }

    /// The step that registers the contract in the library's root file.
    pub fn update_lib_rs(&self, fetched: Fetched, lib_rs: Option<&str>) -> (r: Result<
        Vec<Step>,
        Error,
    >)
        ensures
            plan_view(r) == lib_rs_outcome(self@, fetched@, lib_rs.deep_view()),
    {
        let module = self.module_name();
        let name = self.contract_struct_name();
        let snippet = self.template_generator.register_module_snippet(
            module.as_str(),
            name.as_str(),
            fetched,
        )?;
        let text = match lib_rs {
            None => {
                return Err(Error::LibRsNotFound);
            },
            Some(text) => text,
        };
        if contains(text, snippet.as_str()) {
            return Err(Error::ModuleAlreadyInLibRs(String::from_str(self.contract_name())));
        }
        let mut plan = empty_plan();
        let ident = self.module_ref_ident();
        if contains(text, self.contract_name()) || (contains(text, name.as_str()) && contains(
            text,
            ident.as_str(),
        )) {
            return Ok(plan);
        }
        let path = join(self.module_root.as_str(), "src/lib.rs");
        push_step(&mut plan, append_file(path.as_str(), snippet.as_str()));
        assert(plan.deep_view() =~= seq![
            StepView::AppendFile { path: lib_rs_of(self@), content: snippet@ },
        ]);
        Ok(plan)
    }

    /// The step that writes the registry with the new contract.
    pub fn update_odra_toml(&self, registry: &OdraToml) -> (r: Result<Vec<Step>, Error>)
        ensures
            plan_view(r) == registry_outcome(
                self@,
                registry.contracts.deep_view(),
                registry.location@,
            ),
    {
        let name = self.contract_struct_name();
        if registry.has_contract(name.as_str()) {
            return Err(Error::ContractAlreadyInOdraToml(name));
        }
        let fqn = match &self.module_name {
            None => concat3(self.module_name().as_str(), "::", name.as_str()),
            Some(m) => {
                let mut s = m.clone();
                s.append("::");
                s.append(self.contract_module_ident.as_str());
                s.append("::");
                s.append(name.as_str());
                s
            },
        };
        if !is_well_formed_fqn(fqn.as_str()) {
            return Err(Error::MalformedFqn(fqn));
        }
        let ghost all = registry.contracts.deep_view();
        let mut names: Vec<String> = Vec::new();
        let mut i: usize = 0;
        while i < registry.contracts.len()
            invariant
                all == registry.contracts.deep_view(),
                i <= registry.contracts.len(),
                names.len() == i,
                forall|k: int| 0 <= k < i ==> (#[trigger] names[k])@ == all[k],
            decreases registry.contracts.len() - i,
        {
            assert(all[i as int] == registry.contracts[i as int]@);
            names.push(registry.contracts[i].fqn().clone());
            i = i + 1;
        }
        assert(names.deep_view() =~= all);
        push_text(&mut names, fqn.as_str());
        let mut plan = empty_plan();
        push_step(
            &mut plan,
            Step::SaveRegistry { path: registry.location.clone(), contracts: names },
        );
        assert(plan.deep_view() =~= seq![
            StepView::SaveRegistry { path: registry.location@, contracts: all.push(fqn@) },
        ]);
        Ok(plan)
    }
}

} // verus!
