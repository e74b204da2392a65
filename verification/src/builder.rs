//! The builder of a backend: the working directory in which the
//! contracts are generated and compiled for that backend, and the steps
//! that lead from there to stripped binaries in the project.

use crate::backend::{Backend, BackendView};
use crate::cargo_toml::{Manifest, ManifestView};
use crate::command::{
    append_steps, cp, empty_plan, mkdir, push_step, push_text, steps_for_each, strip_step,
    wasm_strip, write_to_file, Step, StepView,
};
use crate::consts::{
    CARGO_TOML_FILENAME, ODRA_BACKEND_ENV_KEY, ODRA_MODULE_ENV_KEY, WASM_TARGET,
};
use crate::odra_toml::{fqn_first_segment, fqn_struct_name, Contract};
use crate::paths::{
    join, joined_path, wasm_dir, wasm_dir_of, wasm_path_in_target, wasm_path_in_target_of,
    wasm_path_in_wasm_dir, wasm_path_in_wasm_dir_of,
};
use crate::project::{holds_name, is_workspace_view, member_index, Project, ProjectView};
use crate::template::{param, render, rendered};
use crate::text::{concat, concat3, same_text};
use vstd::prelude::*;
use vstd::string::*;

pub mod cargo_toml;

verus! {

/// The code generation harness.
pub const DEF_RS: &'static str = r##"
fn main() {
    let contract_def = <#contract_fqn as odra::contract_def::HasContractDef>::contract_def();
    let code = odra_#backend_name_backend::codegen::gen_contract(contract_def, "#contract_fqn".to_string());

    use std::fs::File;
    use std::io::prelude::*;
    let mut file = File::create("src/#contract_name_wasm.rs").unwrap();
    file.write_all(&code.to_string().into_bytes()).unwrap();
}
        "##;

/// The builder's own main file.
pub const MAIN_RS: &'static str = r##"
fn main() {}
        "##;

/// The directory of the builder of `backend_name`, seen from the
/// project's root.
pub open spec fn builder_path_of(backend_name: Seq<char>) -> Seq<char> {
    ".builder_"@ + backend_name + "/"@
}

/// The directory of the builder of `backend_name` in the project at
/// `root`.
pub open spec fn builder_dir(root: Seq<char>, backend_name: Seq<char>) -> Seq<char> {
    joined_path(root, builder_path_of(backend_name))
}

/// The name of the binary that generates the code of the contract whose
/// type is `name`.
pub open spec fn codegen_bin(name: Seq<char>) -> Seq<char> {
    name + "_build"@
}

/// The source file of that binary, seen from the builder's directory.
pub open spec fn codegen_source(name: Seq<char>) -> Seq<char> {
    "src/"@ + name + ".rs"@
}

/// The generated source file of the contract whose type is `name`, seen
/// from the builder's directory.
pub open spec fn wasm_source(name: Seq<char>) -> Seq<char> {
    "src/"@ + name + "_wasm.rs"@
}

/// The values for the placeholders of the code generation harness.
pub open spec fn stub_params(fqn: Seq<char>, package: Seq<char>) -> Seq<(Seq<char>, Seq<char>)> {
    seq![
        ("#contract_fqn"@, fqn),
        ("#contract_name"@, fqn_struct_name(fqn)),
        ("#backend_name"@, package),
    ]
}

/// The variables that tell the toolchain which backend and which contract
/// a command is for.
pub open spec fn build_env(backend_name: Seq<char>, name: Seq<char>) -> Seq<
    (Seq<char>, Seq<char>),
> {
    seq![(ODRA_BACKEND_ENV_KEY@, backend_name), (ODRA_MODULE_ENV_KEY@, name)]
}

/// The step that writes the code generation harness of the contract
/// `fqn`; none where a file is already in its place.
pub open spec fn stub_steps_of(
    root: Seq<char>,
    backend: BackendView,
    existing: Seq<Seq<char>>,
) -> spec_fn(Seq<char>) -> Seq<StepView> {
    |fqn: Seq<char>|
        {
            let path = joined_path(
                builder_dir(root, backend.name),
                codegen_source(fqn_struct_name(fqn)),
            );
            if existing.contains(path) {
                Seq::<StepView>::empty()
            } else {
                seq![
                    StepView::WriteFile {
                        path,
                        content: rendered(DEF_RS@, stub_params(fqn, backend.dependency_name)),
                    },
                ]
            }
        }
}

/// The step that generates the code of the contract `fqn`.
pub open spec fn codegen_steps_of(root: Seq<char>, backend: BackendView) -> spec_fn(
    Seq<char>,
) -> Seq<StepView> {
    |fqn: Seq<char>|
        seq![
            StepView::Cargo {
                dir: builder_dir(root, backend.name),
                args: seq!["run"@, "--bin"@, codegen_bin(fqn_struct_name(fqn))],
                env: build_env(backend.name, fqn_struct_name(fqn)),
            },
        ]
}

/// The step that compiles the generated code of the contract `fqn`.
pub open spec fn compile_steps_of(root: Seq<char>, backend: BackendView) -> spec_fn(
    Seq<char>,
) -> Seq<StepView> {
    |fqn: Seq<char>|
        seq![
            StepView::Cargo {
                dir: builder_dir(root, backend.name),
                args: seq![
                    "build"@,
                    "--target"@,
                    WASM_TARGET@,
                    "--bin"@,
                    fqn_struct_name(fqn),
                    "--release"@,
                ],
                env: build_env(backend.name, fqn_struct_name(fqn)),
            },
        ]
}

/// The root of the member that gets a copy of the binary of the contract
/// `fqn`: the member that the contract's first segment names, where the
/// project is a workspace and that member is not at the project's root.
pub open spec fn mirror_root(project: ProjectView, fqn: Seq<char>) -> Option<Seq<char>> {
    let i = member_index(project.members, fqn_first_segment(fqn));
    if is_workspace_view(project.members) && 0 <= i < project.members.len()
        && project.members[i].root != project.project_root {
        Some(project.members[i].root)
    } else {
        None
    }
}

/// Where the builder of `backend_name` leaves the binary of the contract
/// whose type is `name`.
pub open spec fn built_wasm(root: Seq<char>, backend_name: Seq<char>, name: Seq<char>) -> Seq<
    char,
> {
    wasm_path_in_target_of(name, builder_dir(root, backend_name), "target"@)
}

/// The steps that place the binary of the contract `fqn`: a copy into the
/// project's output directory and, where a member gets one, into that
/// member's.
pub open spec fn placement_steps_of(project: ProjectView, backend: BackendView) -> spec_fn(
    Seq<char>,
) -> Seq<StepView> {
    |fqn: Seq<char>|
        {
            let name = fqn_struct_name(fqn);
            let source = built_wasm(project.project_root, backend.name, name);
            let placed = seq![
                StepView::Copy {
                    source,
                    target: wasm_path_in_wasm_dir_of(name, project.project_root),
                },
            ];
            match mirror_root(project, fqn) {
                None => placed,
                Some(member_root) => placed + seq![
                    StepView::MakeDir { path: wasm_dir_of(member_root) },
                    StepView::Copy { source, target: wasm_path_in_wasm_dir_of(name, member_root) },
                ],
            }
        }
}

/// The steps that strip the placed binaries of the contract `fqn`.
pub open spec fn strip_steps_of(project: ProjectView) -> spec_fn(Seq<char>) -> Seq<StepView> {
    |fqn: Seq<char>|
        {
            let name = fqn_struct_name(fqn);
            match mirror_root(project, fqn) {
                None => seq![strip_step(name, project.project_root)],
                Some(member_root) => seq![
                    strip_step(name, project.project_root),
                    strip_step(name, member_root),
                ],
            }
        }
}

/// The steps that prepare the builder's directory: the directory and its
/// `src`, the manifest, written anew each time, and the harness of each
/// contract that has none yet.
pub open spec fn prepare_steps(
    root: Seq<char>,
    backend: BackendView,
    manifest: ManifestView,
    contracts: Seq<Seq<char>>,
    existing: Seq<Seq<char>>,
) -> Seq<StepView> {
    seq![
        StepView::MakeDir { path: builder_dir(root, backend.name) },
        StepView::MakeDir { path: joined_path(builder_dir(root, backend.name), "src"@) },
        StepView::WriteManifest {
            path: joined_path(builder_dir(root, backend.name), CARGO_TOML_FILENAME@),
            manifest,
        },
    ] + steps_for_each(contracts, stub_steps_of(root, backend, existing))
}

/// The steps that generate the code of every contract, and then compile
/// each.
pub open spec fn build_wasm_steps(
    root: Seq<char>,
    backend: BackendView,
    contracts: Seq<Seq<char>>,
) -> Seq<StepView> {
    steps_for_each(contracts, codegen_steps_of(root, backend)) + steps_for_each(
        contracts,
        compile_steps_of(root, backend),
    )
}

/// The steps that place every binary, and then strip each.
pub open spec fn copy_wasm_steps(
    project: ProjectView,
    backend: BackendView,
    contracts: Seq<Seq<char>>,
) -> Seq<StepView> {
    seq![StepView::MakeDir { path: wasm_dir_of(project.project_root) }] + steps_for_each(
        contracts,
        placement_steps_of(project, backend),
    ) + steps_for_each(contracts, strip_steps_of(project))
}

/// The whole plan of a build of `contracts` for `backend`: preparation,
/// code generation, compilation, placement, stripping.
pub open spec fn builder_plan(
    project: ProjectView,
    backend: BackendView,
    manifest: ManifestView,
    contracts: Seq<Seq<char>>,
    existing: Seq<Seq<char>>,
) -> Seq<StepView> {
    prepare_steps(project.project_root, backend, manifest, contracts, existing)
        + build_wasm_steps(project.project_root, backend, contracts) + copy_wasm_steps(
        project,
        backend,
        contracts,
    )
}

/// The steps that build the library of the test environment in the
/// builder and copy it into the release and the debug directory of the
/// project.
pub open spec fn test_env_steps(root: Seq<char>, backend_name: Seq<char>) -> Seq<StepView> {
    let source = joined_path(
        builder_dir(root, backend_name),
        "target/release/deps/libodra_test_env.so"@,
    );
    seq![
        crate::command::cargo_step(
            builder_dir(root, backend_name),
            seq!["run"@, "--bin"@, "builder"@, "--release"@],
        ),
        StepView::Copy { source, target: joined_path(root, "target/release/libodra_test_env.so"@) },
        StepView::Copy { source, target: joined_path(root, "target/debug/libodra_test_env.so"@) },
    ]
}

/// A build generates and compiles each contract once and no other: the
/// steps of generation and of compilation are as many as the contracts,
/// and the step at each place is that of the contract at that place.
pub proof fn lemma_each_contract_built_once(
    root: Seq<char>,
    backend: BackendView,
    contracts: Seq<Seq<char>>,
)
    ensures
        build_wasm_steps(root, backend, contracts).len() == 2 * contracts.len(),
        forall|i: int|
            0 <= i < contracts.len() ==> {
                &&& #[trigger] build_wasm_steps(root, backend, contracts)[i] == codegen_steps_of(
                    root,
                    backend,
                )(contracts[i])[0]
                &&& build_wasm_steps(root, backend, contracts)[contracts.len() + i]
                    == compile_steps_of(root, backend)(contracts[i])[0]
            },
{
    let f = codegen_steps_of(root, backend);
    let g = compile_steps_of(root, backend);
    crate::command::lemma_steps_one_each(contracts, f);
    crate::command::lemma_steps_one_each(contracts, g);
    let first = steps_for_each(contracts, f);
    let second = steps_for_each(contracts, g);
    assert forall|i: int| 0 <= i < contracts.len() implies {
        &&& #[trigger] build_wasm_steps(root, backend, contracts)[i] == f(contracts[i])[0]
        &&& build_wasm_steps(root, backend, contracts)[contracts.len() + i] == g(contracts[i])[0]
    } by {
        assert((first + second)[i] == first[i]);
        assert((first + second)[contracts.len() + i] == second[i]);
    }
}

/// The variables that tell the toolchain which backend and which contract
/// a command is for.
pub fn build_variables(backend_name: &str, name: &str) -> (r: Vec<(String, String)>)
    ensures
        r.deep_view() == build_env(backend_name@, name@),
{
    let mut env: Vec<(String, String)> = Vec::new();
    env.push((String::from_str(ODRA_BACKEND_ENV_KEY), String::from_str(backend_name)));
    env.push((String::from_str(ODRA_MODULE_ENV_KEY), String::from_str(name)));
    assert(env.deep_view() =~= build_env(backend_name@, name@));
    env
}

/// The root of the member that gets a copy of the binary of `contract`.
pub fn mirror_of(project: &Project, contract: &Contract) -> (r: Option<String>)
    ensures
        r.deep_view() == mirror_root(project@, contract@),
{
    if !project.is_workspace() {
        return None;
    }
    let owner = contract.root_module();
    match project.find_member(owner.as_str()) {
        None => None,
        Some(i) => {
            assert(project.members.deep_view()[i as int] == project.members[i as int]@);
            if same_text(project.members[i].root.as_str(), project.project_root.as_str()) {
                None
            } else {
                Some(project.members[i].root.clone())
            }
        },
    }
}

/// The builder of a backend.
#[derive(Clone, Debug, PartialEq, Eq)]
pub struct Builder {
    pub backend: Backend,
}

impl Builder {
    /// The builder of `backend`.
    pub fn new(backend: Backend) -> (r: Builder)
        ensures
            r.backend == backend,
    {
        Builder { backend }
    }

    /// The builder's directory, seen from the project's root.
    pub fn builder_path(&self) -> (r: String)
        ensures
            r@ == builder_path_of(self.backend.name@),
    {
        concat3(".builder_", self.backend.name().as_str(), "/")
    }

    /// The directory of the test environment within the builder's.
    pub fn test_env_path(&self) -> (r: String)
        ensures
            r@ == builder_path_of(self.backend.name@) + "test_env"@,
    {
        let dir = self.builder_path();
        concat(dir.as_str(), "test_env")
    }

    /// The code generation harness, with placeholders for the contract's
    /// fully qualified name, for its name and for the backend's package.
    pub fn def_rs() -> (r: &'static str)
        ensures
            r@ == DEF_RS@,
    {
        DEF_RS
    }

    /// The builder's own main file.
    pub fn main_rs() -> (r: &'static str)
        ensures
            r@ == MAIN_RS@,
    {
        MAIN_RS
    }

    /// The builder's directory in the project at `project_root`.
    pub fn root_in(&self, project_root: &str) -> (r: String)
        ensures
            r@ == builder_dir(project_root@, self.backend.name@),
    {
        let rel = self.builder_path();
        join(project_root, rel.as_str())
    }

    /// The harness of one contract, unless a file is in its place.
    fn stub_for(&self, project_root: &str, contract: &Contract, existing: &Vec<String>) -> (r:
        Vec<Step>)
        ensures
            r.deep_view() == stub_steps_of(project_root@, self.backend@, existing.deep_view())(
                contract@,
            ),
    {
        let mut plan = empty_plan();
        let name = contract.struct_name();
        let dir = self.root_in(project_root);
        let rel = concat3("src/", name.as_str(), ".rs");
        let path = join(dir.as_str(), rel.as_str());
        if !holds_name(existing, path.as_str()) {
            let mut params: Vec<(String, String)> = Vec::new();
            params.push(param("#contract_fqn", contract.fqn().as_str()));
            params.push(param("#contract_name", name.as_str()));
            params.push(param("#backend_name", self.backend.package().as_str()));
            assert(params.deep_view() =~= stub_params(contract@, self.backend.dependency_name@));
            let content = render(DEF_RS, &params);
            push_step(&mut plan, write_to_file(path.as_str(), content.as_str()));
            assert(plan.deep_view() =~= stub_steps_of(
                project_root@,
                self.backend@,
                existing.deep_view(),
            )(contract@));
        }
        plan
    }

    /// The steps that write the harness of each of `contracts` that has
    /// none among `existing`, the harness files that exist.
    pub fn create_build_files(
        &self,
        project_root: &str,
        contracts: &Vec<Contract>,
        existing: &Vec<String>,
    ) -> (r: Vec<Step>)
        ensures
            r.deep_view() == steps_for_each(
                contracts.deep_view(),
                stub_steps_of(project_root@, self.backend@, existing.deep_view()),
            ),
    {
        let ghost all = contracts.deep_view();
        let ghost f = stub_steps_of(project_root@, self.backend@, existing.deep_view());
        let mut plan = empty_plan();
        let mut i: usize = 0;
        assert(all.subrange(0, 0) =~= Seq::<Seq<char>>::empty());
        while i < contracts.len()
            invariant
                all == contracts.deep_view(),
                f == stub_steps_of(project_root@, self.backend@, existing.deep_view()),
                i <= contracts.len(),
                plan.deep_view() == steps_for_each(all.subrange(0, i as int), f),
            decreases contracts.len() - i,
        {
            proof {
                let next = all.subrange(0, i + 1);
                assert(next.drop_last() =~= all.subrange(0, i as int));
                assert(next.last() == contracts[i as int]@);
            }
            append_steps(&mut plan, self.stub_for(project_root, &contracts[i], existing));
            i = i + 1;
        }
        assert(all.subrange(0, i as int) =~= all);
        plan
    }

    /// The steps that prepare the builder's directory.
    pub fn prepare_builder(
        &self,
        project_root: &str,
        manifest: Manifest,
        contracts: &Vec<Contract>,
        existing: &Vec<String>,
    ) -> (r: Vec<Step>)
        ensures
            r.deep_view() == prepare_steps(
                project_root@,
                self.backend@,
                manifest@,
                contracts.deep_view(),
                existing.deep_view(),
            ),
    {
        let dir = self.root_in(project_root);
        let src = join(dir.as_str(), "src");
        let manifest_path = join(dir.as_str(), CARGO_TOML_FILENAME);
        let mut plan = empty_plan();
        push_step(&mut plan, mkdir(dir.as_str()));
        push_step(&mut plan, mkdir(src.as_str()));
        let ghost m = manifest@;
        push_step(&mut plan, Step::WriteManifest { path: manifest_path, manifest });
        assert(plan.deep_view() =~= seq![
            StepView::MakeDir { path: builder_dir(project_root@, self.backend.name@) },
            StepView::MakeDir {
                path: joined_path(builder_dir(project_root@, self.backend.name@), "src"@),
            },
            StepView::WriteManifest {
                path: joined_path(
                    builder_dir(project_root@, self.backend.name@),
                    CARGO_TOML_FILENAME@,
                ),
                manifest: m,
            },
        ]);
        append_steps(&mut plan, self.create_build_files(project_root, contracts, existing));
        plan
    }

    /// The step that generates the code of one contract.
    fn codegen_for(&self, project_root: &str, contract: &Contract) -> (r: Vec<Step>)
        ensures
            r.deep_view() == codegen_steps_of(project_root@, self.backend@)(contract@),
    {
        let name = contract.struct_name();
        let mut args: Vec<String> = Vec::new();
        assert(args.deep_view() =~= Seq::<Seq<char>>::empty());
        push_text(&mut args, "run");
        push_text(&mut args, "--bin");
        push_text(&mut args, concat(name.as_str(), "_build").as_str());
        assert(args.deep_view() =~= seq!["run"@, "--bin"@, codegen_bin(name@)]);
        let mut plan = empty_plan();
        push_step(
            &mut plan,
            Step::Cargo {
                dir: self.root_in(project_root),
                args,
                env: build_variables(self.backend.name().as_str(), name.as_str()),
            },
        );
        assert(plan.deep_view() =~= codegen_steps_of(project_root@, self.backend@)(contract@));
        plan
    }

    /// The step that compiles the generated code of one contract.
    fn compile_for(&self, project_root: &str, contract: &Contract) -> (r: Vec<Step>)
        ensures
            r.deep_view() == compile_steps_of(project_root@, self.backend@)(contract@),
    {
        let name = contract.struct_name();
        let mut args: Vec<String> = Vec::new();
        assert(args.deep_view() =~= Seq::<Seq<char>>::empty());
        push_text(&mut args, "build");
        push_text(&mut args, "--target");
        push_text(&mut args, WASM_TARGET);
        push_text(&mut args, "--bin");
        push_text(&mut args, name.as_str());
        push_text(&mut args, "--release");
        assert(args.deep_view() =~= seq![
            "build"@,
            "--target"@,
            WASM_TARGET@,
            "--bin"@,
            name@,
            "--release"@,
        ]);
        let mut plan = empty_plan();
        push_step(
            &mut plan,
            Step::Cargo {
                dir: self.root_in(project_root),
                args,
                env: build_variables(self.backend.name().as_str(), name.as_str()),
            },
        );
        assert(plan.deep_view() =~= compile_steps_of(project_root@, self.backend@)(contract@));
        plan
    }

    /// The steps that generate the code of each of `contracts`, and then
    /// compile each.
    pub fn build_wasm(&self, project_root: &str, contracts: &Vec<Contract>) -> (r: Vec<Step>)
        ensures
            r.deep_view() == build_wasm_steps(
                project_root@,
                self.backend@,
                contracts.deep_view(),
            ),
    {
        let ghost all = contracts.deep_view();
        let ghost f = codegen_steps_of(project_root@, self.backend@);
        let ghost g = compile_steps_of(project_root@, self.backend@);
        let mut plan = empty_plan();
        let mut i: usize = 0;
        assert(all.subrange(0, 0) =~= Seq::<Seq<char>>::empty());
        while i < contracts.len()
            invariant
                all == contracts.deep_view(),
                f == codegen_steps_of(project_root@, self.backend@),
                i <= contracts.len(),
                plan.deep_view() == steps_for_each(all.subrange(0, i as int), f),
            decreases contracts.len() - i,
        {
            proof {
                let next = all.subrange(0, i + 1);
                assert(next.drop_last() =~= all.subrange(0, i as int));
                assert(next.last() == contracts[i as int]@);
            }
            append_steps(&mut plan, self.codegen_for(project_root, &contracts[i]));
            i = i + 1;
        }
        assert(all.subrange(0, i as int) =~= all);
        let mut second = empty_plan();
        let mut j: usize = 0;
        while j < contracts.len()
            invariant
                all == contracts.deep_view(),
                g == compile_steps_of(project_root@, self.backend@),
                j <= contracts.len(),
                second.deep_view() == steps_for_each(all.subrange(0, j as int), g),
            decreases contracts.len() - j,
        {
            proof {
                let next = all.subrange(0, j + 1);
                assert(next.drop_last() =~= all.subrange(0, j as int));
                assert(next.last() == contracts[j as int]@);
            }
            append_steps(&mut second, self.compile_for(project_root, &contracts[j]));
            j = j + 1;
        }
        assert(all.subrange(0, j as int) =~= all);
        append_steps(&mut plan, second);
        plan
    }

    /// The steps that place the binary of one contract.
    fn placement_for(&self, project: &Project, contract: &Contract) -> (r: Vec<Step>)
        ensures
            r.deep_view() == placement_steps_of(project@, self.backend@)(contract@),
    {
        let name = contract.struct_name();
        let dir = self.root_in(project.project_root.as_str());
        let source = wasm_path_in_target(name.as_str(), dir.as_str(), "target");
        let target = wasm_path_in_wasm_dir(name.as_str(), project.project_root.as_str());
        let mut plan = empty_plan();
        push_step(&mut plan, cp(source.as_str(), target.as_str()));
        match mirror_of(project, contract) {
            None => {
                assert(plan.deep_view() =~= placement_steps_of(project@, self.backend@)(
                    contract@,
                ));
            },
            Some(member_root) => {
                let ghost first = plan.deep_view();
                let member_dir = wasm_dir(member_root.as_str());
                let member_target = wasm_path_in_wasm_dir(name.as_str(), member_root.as_str());
                push_step(&mut plan, mkdir(member_dir.as_str()));
                push_step(&mut plan, cp(source.as_str(), member_target.as_str()));
                assert(plan.deep_view() =~= first + seq![
                    StepView::MakeDir { path: wasm_dir_of(member_root@) },
                    StepView::Copy {
                        source: source@,
                        target: wasm_path_in_wasm_dir_of(name@, member_root@),
                    },
                ]);
                assert(first =~= seq![StepView::Copy { source: source@, target: target@ }]);
            },
        }
        plan
    }

    /// The steps that strip the placed binaries of one contract.
    fn strip_for(project: &Project, contract: &Contract) -> (r: Vec<Step>)
        ensures
            r.deep_view() == strip_steps_of(project@)(contract@),
    {
        let name = contract.struct_name();
        let mut plan = empty_plan();
        push_step(&mut plan, wasm_strip(name.as_str(), project.project_root.as_str()));
        match mirror_of(project, contract) {
            None => {
                assert(plan.deep_view() =~= strip_steps_of(project@)(contract@));
            },
            Some(member_root) => {
                push_step(&mut plan, wasm_strip(name.as_str(), member_root.as_str()));
                assert(plan.deep_view() =~= strip_steps_of(project@)(contract@));
            },
        }
        plan
    }

    /// The steps that place the binary of each of `contracts`, and then
    /// strip each.
    pub fn copy_wasm_files(&self, project: &Project, contracts: &Vec<Contract>) -> (r: Vec<Step>)
        ensures
            r.deep_view() == copy_wasm_steps(project@, self.backend@, contracts.deep_view()),
    {
        let ghost all = contracts.deep_view();
        let ghost f = placement_steps_of(project@, self.backend@);
        let ghost g = strip_steps_of(project@);
        let mut plan = empty_plan();
        let out_dir = wasm_dir(project.project_root.as_str());
        push_step(&mut plan, mkdir(out_dir.as_str()));
        let ghost head = plan.deep_view();
        assert(head =~= seq![StepView::MakeDir { path: wasm_dir_of(project@.project_root) }]);
        let mut i: usize = 0;
        assert(all.subrange(0, 0) =~= Seq::<Seq<char>>::empty());
        assert(plan.deep_view() =~= head + Seq::<StepView>::empty());
        while i < contracts.len()
            invariant
                all == contracts.deep_view(),
                f == placement_steps_of(project@, self.backend@),
                i <= contracts.len(),
                plan.deep_view() == head + steps_for_each(all.subrange(0, i as int), f),
            decreases contracts.len() - i,
        {
            proof {
                let next = all.subrange(0, i + 1);
                assert(next.drop_last() =~= all.subrange(0, i as int));
                assert(next.last() == contracts[i as int]@);
            }
            let ghost before = plan.deep_view();
            let more = self.placement_for(project, &contracts[i]);
            append_steps(&mut plan, more);
            i = i + 1;
            assert(plan.deep_view() =~= head + steps_for_each(all.subrange(0, i as int), f));
        }
        assert(all.subrange(0, i as int) =~= all);
        let mut second = empty_plan();
        let mut j: usize = 0;
        while j < contracts.len()
            invariant
                all == contracts.deep_view(),
                g == strip_steps_of(project@),
                j <= contracts.len(),
                second.deep_view() == steps_for_each(all.subrange(0, j as int), g),
            decreases contracts.len() - j,
        {
            proof {
                let next = all.subrange(0, j + 1);
                assert(next.drop_last() =~= all.subrange(0, j as int));
                assert(next.last() == contracts[j as int]@);
            }
            append_steps(&mut second, Self::strip_for(project, &contracts[j]));
            j = j + 1;
        }
        assert(all.subrange(0, j as int) =~= all);
        append_steps(&mut plan, second);
        plan
    }

    /// The steps that build the library of the test environment and put
    /// it where the tests look for it.
    pub fn build_lib(&self, project_root: &str) -> (r: Vec<Step>)
        ensures
            r.deep_view() == test_env_steps(project_root@, self.backend.name@),
    {
        let dir = self.root_in(project_root);
        let source = join(dir.as_str(), "target/release/deps/libodra_test_env.so");
        let release = join(project_root, "target/release/libodra_test_env.so");
        let debug = join(project_root, "target/debug/libodra_test_env.so");
        let mut tail: Vec<String> = Vec::new();
        assert(tail.deep_view() =~= Seq::<Seq<char>>::empty());
        push_text(&mut tail, "--bin");
        push_text(&mut tail, "builder");
        push_text(&mut tail, "--release");
        assert(seq!["run"@] + tail.deep_view() =~= seq![
            "run"@,
            "--bin"@,
            "builder"@,
            "--release"@,
        ]);
        let mut plan = empty_plan();
        push_step(&mut plan, crate::command::cargo(dir.as_str(), "run", &tail));
        push_step(&mut plan, cp(source.as_str(), release.as_str()));
        push_step(&mut plan, cp(source.as_str(), debug.as_str()));
        assert(plan.deep_view() =~= test_env_steps(project_root@, self.backend.name@));
        plan
    }

    /// The whole plan of a build of `contracts`: `manifest` is the
    /// builder's manifest, `existing` the harness files that exist.
    pub fn build(
        &self,
        project: &Project,
        manifest: Manifest,
        contracts: &Vec<Contract>,
        existing: &Vec<String>,
    ) -> (r: Vec<Step>)
        ensures
            r.deep_view() == builder_plan(
                project@,
                self.backend@,
                manifest@,
                contracts.deep_view(),
                existing.deep_view(),
            ),
    {
        let mut plan = self.prepare_builder(
            project.project_root.as_str(),
            manifest,
            contracts,
            existing,
        );
        append_steps(&mut plan, self.build_wasm(project.project_root.as_str(), contracts));
        append_steps(&mut plan, self.copy_wasm_files(project, contracts));
        plan
    }
}

} // verus!
