//! A backend: a named execution environment that contracts are built
//! for, and the crate that implements it.

use crate::cargo_toml::{
    detail, detail_of,
    copy_opt, dep_inserted, empty_detail, insert_dependency, Dependency, DependencyDetail,
    DependencyDetailView, DependencyView, DepsView,
};
use crate::cli::{AddBackendCommand, RemoveBackendCommand};
use crate::consts::ODRA_CRATE_NAME;
use crate::text::{concat, concat3, same_text};
use vstd::prelude::*;
use vstd::string::*;

verus! {

/// Where a backend's crate comes from.
#[derive(Clone, Copy, Debug, PartialEq, Eq, Structural)]
pub enum DependencyType {
    Local,
    Remote,
    Crates,
}

/// A backend of the project.
#[derive(Clone, Debug, PartialEq, Eq)]
pub struct Backend {
    pub name: String,
    pub dependency_name: String,
    pub dependency: Dependency,
}

/// What a `Backend` holds.
pub struct BackendView {
    pub name: Seq<char>,
    pub dependency_name: Seq<char>,
    pub dependency: DependencyView,
}

impl View for Backend {
    type V = BackendView;

    open spec fn view(&self) -> BackendView {
        BackendView {
            name: self.name@,
            dependency_name: self.dependency_name@,
            dependency: self.dependency@,
        }
    }
}

impl DeepView for Backend {
    type V = BackendView;

    open spec fn deep_view(&self) -> BackendView {
        self@
    }
}

/// Where a dependency comes from: a bare version is published; fields
/// with a path are local, else with a repository remote, else published.
pub open spec fn dependency_type_of(dep: DependencyView) -> DependencyType {
    match dep {
        DependencyView::Simple(_) => DependencyType::Crates,
        DependencyView::Detailed(d) => if d.path is Some {
            DependencyType::Local
        } else if d.git is Some {
            DependencyType::Remote
        } else {
            DependencyType::Crates
        },
    }
}

/// The dependency on the part `folder` of a backend's crate, as the
/// builder names it: optional, and for a local crate with the path of
/// that part, seen from the builder's directory.
pub open spec fn part_dependency(dep: DependencyView, folder: Seq<char>) -> DependencyView {
    let d = detail_of(dep);
    DependencyView::Detailed(
        DependencyDetailView {
            path: match d.path {
                Some(p) => Some("../"@ + p + folder),
                None => None,
            },
            optional: true,
            ..d
        },
    )
}

/// The framework dependency as the builder names it: optional, with the
/// feature `wasm` alone and without default features, and a local path
/// seen from the builder's directory. A bare version stays a version.
pub open spec fn builder_odra_dependency(dep: DependencyView) -> DependencyView {
    match dep {
        DependencyView::Simple(v) => DependencyView::Detailed(
            DependencyDetailView { version: Some(v), optional: true, ..empty_detail() },
        ),
        DependencyView::Detailed(d) => DependencyView::Detailed(
            DependencyDetailView {
                features: seq!["wasm"@],
                optional: true,
                default_features: false,
                path: match d.path {
                    Some(p) => Some("../"@ + p),
                    None => None,
                },
                ..d
            },
        ),
    }
}

/// The dependency of a builder on the project it builds.
pub open spec fn builder_project_dependency() -> DependencyView {
    DependencyView::Detailed(
        DependencyDetailView {
            path: Some(".."@),
            features: seq!["wasm"@],
            optional: true,
            default_features: false,
            ..empty_detail()
        },
    )
}

/// The dependency set of a backend's builder: the framework, the project
/// and the backend's two parts.
pub open spec fn builder_deps(
    backend: BackendView,
    project_name: Seq<char>,
    odra: DependencyView,
) -> DepsView {
    let d0 = Seq::<(Seq<char>, DependencyView)>::empty();
    let d1 = dep_inserted(d0, ODRA_CRATE_NAME@, builder_odra_dependency(odra));
    let d2 = dep_inserted(d1, project_name, builder_project_dependency());
    let d3 = dep_inserted(
        d2,
        "odra-"@ + backend.dependency_name + "-backend"@,
        part_dependency(backend.dependency, "backend"@),
    );
    dep_inserted(
        d3,
        "odra-"@ + backend.dependency_name + "-test-env"@,
        part_dependency(backend.dependency, "test_env"@),
    )
}

/// The backend that a request to add one describes: local where it gives
/// a path, else remote where it gives a repository, else any published
/// version; named as the request says, or after its package.
pub open spec fn backend_from(
    name: Option<Seq<char>>,
    package: Seq<char>,
    path: Option<Seq<char>>,
    repo_uri: Option<Seq<char>>,
    branch: Option<Seq<char>>,
) -> BackendView {
    BackendView {
        name: match name {
            Some(n) => n,
            None => package,
        },
        dependency_name: package,
        dependency: DependencyView::Detailed(
            if path is Some {
                DependencyDetailView { path, ..empty_detail() }
            } else if repo_uri is Some {
                DependencyDetailView { git: repo_uri, branch, ..empty_detail() }
            } else {
                DependencyDetailView { version: Some("*"@), ..empty_detail() }
            },
        ),
    }
}

/// The pattern of the name of a built library of the test environment:
/// the library's name with a hash in it.
pub open spec fn lib_pattern_text() -> Seq<char> {
    crate::consts::PLATFORM_FILE_PREFIX@ + "odra_test_env-.*\\."@
        + crate::consts::PLATFORM_FILE_EXTENSION@
}

/// The plain name of the library of the test environment.
pub open spec fn lib_filename_text() -> Seq<char> {
    crate::consts::PLATFORM_FILE_PREFIX@ + "odra_test_env."@
        + crate::consts::PLATFORM_FILE_EXTENSION@
}

/// The name of the file, among `files`, that holds the built library: the
/// last that matches the pattern; the library's plain name where none
/// does.
pub open spec fn chosen_lib(files: Seq<Seq<char>>) -> Seq<char>
    decreases files.len(),
{
    if files.len() == 0 {
        lib_filename_text()
    } else if crate::pattern::regex_match(lib_pattern_text(), files.last()) == Some(true) {
        files.last()
    } else {
        chosen_lib(files.drop_last())
    }
}

/// The steps that put the built library where the tests look for it: into
/// the release and the debug directory of the project, under its plain
/// name.
pub open spec fn lib_steps(root: Seq<char>, backend_name: Seq<char>, files: Seq<Seq<char>>) -> Seq<
    crate::command::StepView,
> {
    let source = crate::paths::joined_path(
        crate::paths::joined_path(
            crate::builder::builder_dir(root, backend_name),
            "target/release/deps"@,
        ),
        chosen_lib(files),
    );
    let release = crate::paths::joined_path(root, "target/release"@);
    let debug = crate::paths::joined_path(root, "target/debug"@);
    seq![
        crate::command::StepView::MakeDir { path: release },
        crate::command::StepView::MakeDir { path: debug },
        crate::command::StepView::Copy {
            source,
            target: crate::paths::joined_path(release, lib_filename_text()),
        },
        crate::command::StepView::Copy {
            source,
            target: crate::paths::joined_path(debug, lib_filename_text()),
        },
    ]
}

/// The pattern of the name of a built library of the test environment.
pub fn lib_pattern() -> (r: String)
    ensures
        r@ == lib_pattern_text(),
{
    concat3(
        crate::consts::PLATFORM_FILE_PREFIX,
        "odra_test_env-.*\\.",
        crate::consts::PLATFORM_FILE_EXTENSION,
    )
}

/// The plain name of the library of the test environment.
pub fn lib_filename() -> (r: String)
    ensures
        r@ == lib_filename_text(),
{
    concat3(
        crate::consts::PLATFORM_FILE_PREFIX,
        "odra_test_env.",
        crate::consts::PLATFORM_FILE_EXTENSION,
    )
}

/// The place of the first backend named `name`, or -1.
pub open spec fn backend_index(backends: Seq<BackendView>, name: Seq<char>) -> int
    decreases backends.len(),
{
    if backends.len() == 0 {
        -1
    } else if backends[0].name == name {
        0
    } else {
        let rest = backend_index(backends.subrange(1, backends.len() as int), name);
        if rest < 0 {
            -1
        } else {
            rest + 1
        }
    }
}

/// What the place of the first backend named `name` is: a backend of that
/// name, with none before it of that name.
pub proof fn lemma_backend_index(backends: Seq<BackendView>, name: Seq<char>)
    ensures
        -1 <= backend_index(backends, name) < backends.len(),
        backend_index(backends, name) >= 0 ==> backends[backend_index(backends, name)].name
            == name,
        forall|k: int|
            0 <= k < backends.len() && (backend_index(backends, name) < 0 || k < backend_index(
                backends,
                name,
            )) ==> (#[trigger] backends[k]).name != name,
    decreases backends.len(),
{
    if backends.len() > 0 && backends[0].name != name {
        let rest = backends.subrange(1, backends.len() as int);
        lemma_backend_index(rest, name);
        assert forall|k: int|
            0 <= k < backends.len() && (backend_index(backends, name) < 0 || k < backend_index(
                backends,
                name,
            )) implies (#[trigger] backends[k]).name != name by {
            if k > 0 {
                assert(backends[k] == rest[k - 1]);
            }
        }
    }
}

/// No two of `backends` have the same name.
pub open spec fn backends_distinct(backends: Seq<BackendView>) -> bool {
    forall|i: int, j: int|
        0 <= i < backends.len() && 0 <= j < backends.len() && i != j ==> (
        #[trigger] backends[i]).name != (#[trigger] backends[j]).name
}

/// The place of the first backend named `name`.
pub fn find_backend(backends: &Vec<Backend>, name: &str) -> (r: Option<usize>)
    ensures
        match r {
            Some(i) => i as int == backend_index(backends.deep_view(), name@) && i
                < backends.len(),
            None => backend_index(backends.deep_view(), name@) < 0,
        },
{
    let ghost all = backends.deep_view();
    let mut i: usize = 0;
    while i < backends.len()
        invariant
            all == backends.deep_view(),
            i <= backends.len(),
            forall|k: int| 0 <= k < i ==> (#[trigger] all[k]).name != name@,
        decreases backends.len() - i,
    {
        assert(all[i as int] == backends[i as int]@);
        if same_text(backends[i].name.as_str(), name) {
            proof {
                lemma_backend_index(all, name@);
            }
            return Some(i);
        }
        i = i + 1;
    }
    proof {
        lemma_backend_index(all, name@);
    }
    None
}

impl Backend {
    /// Takes the backend named as `remove` says out of `backends`, and
    /// tells whether there was one.
    pub fn remove(backends: &mut Vec<Backend>, remove: &RemoveBackendCommand) -> (r: bool)
        ensures
            r == (backend_index(old(backends).deep_view(), remove.name@) >= 0),
            r ==> final(backends).deep_view() == old(backends).deep_view().remove(
                backend_index(old(backends).deep_view(), remove.name@),
            ),
            !r ==> final(backends).deep_view() == old(backends).deep_view(),
            backends_distinct(old(backends).deep_view()) ==> backends_distinct(
                final(backends).deep_view(),
            ),
    {
        let ghost before = backends.deep_view();
        match find_backend(backends, remove.name.as_str()) {
            Some(i) => {
                backends.remove(i);
                assert(backends.deep_view() =~= before.remove(i as int));
                proof {
                    let after = before.remove(i as int);
                    if backends_distinct(before) {
                        assert forall|a: int, b: int|
                            0 <= a < after.len() && 0 <= b < after.len() && a != b implies (
                        #[trigger] after[a]).name != (#[trigger] after[b]).name by {
                            let x = if a < i { a } else { a + 1 };
                            let y = if b < i { b } else { b + 1 };
                            assert(after[a] == before[x]);
                            assert(after[b] == before[y]);
                        }
                    }
                }
                true
            },
            None => false,
        }
    }

    /// Adds the backend that `add` describes to `backends`, unless one of
    /// its name is there, and tells whether it was added.
    pub fn add(backends: &mut Vec<Backend>, add: &AddBackendCommand) -> (r: bool)
        ensures
            ({
                let b = backend_from(
                    add.name.deep_view(),
                    add.package@,
                    add.path.deep_view(),
                    add.repo_uri.deep_view(),
                    add.branch.deep_view(),
                );
                &&& r == (backend_index(old(backends).deep_view(), b.name) < 0)
                &&& r ==> final(backends).deep_view() == old(backends).deep_view().push(b)
                &&& !r ==> final(backends).deep_view() == old(backends).deep_view()
            }),
            backends_distinct(old(backends).deep_view()) ==> backends_distinct(
                final(backends).deep_view(),
            ),
    {
        let ghost before = backends.deep_view();
        let backend = Backend::from_add_command(add);
        match find_backend(backends, backend.name.as_str()) {
            Some(_) => false,
            None => {
                let ghost b = backend@;
                proof {
                    lemma_backend_index(before, b.name);
                }
                backends.push(backend);
                assert(backends.deep_view() =~= before.push(b));
                proof {
                    let after = before.push(b);
                    if backends_distinct(before) {
                        assert forall|i: int, j: int|
                            0 <= i < after.len() && 0 <= j < after.len() && i != j implies (
                        #[trigger] after[i]).name != (#[trigger] after[j]).name by {
                            if i < before.len() {
                                assert(after[i] == before[i]);
                            }
                            if j < before.len() {
                                assert(after[j] == before[j]);
                            }
                        }
                    }
                }
                true
            },
        }
    }

    /// The backend named `name` among `backends`.
    pub fn load(backends: &Vec<Backend>, name: &str) -> (r: Option<Backend>)
        ensures
            match r {
                Some(b) => backend_index(backends.deep_view(), name@) >= 0 && b@
                    == backends.deep_view()[backend_index(backends.deep_view(), name@)],
                None => backend_index(backends.deep_view(), name@) < 0,
            },
    {
        match find_backend(backends, name) {
            Some(i) => {
                assert(backends.deep_view()[i as int] == backends[i as int]@);
                Some(backends[i].duplicate())
            },
            None => None,
        }
    }

    /// The backend of package `name`, under that name, at any published
    /// version.
    pub fn named(name: &str) -> (r: Backend)
        ensures
            r@ == backend_from(None, name@, None, None, None),
    {
        let mut d = DependencyDetail::empty();
        d.version = Some(String::from_str("*"));
        Backend {
            name: String::from_str(name),
            dependency_name: String::from_str(name),
            dependency: Dependency::Detailed(d),
        }
    }

    /// The plan of a build of the contracts of `registry` that `filter`
    /// selects, for this backend, or the failure that stops it before its
    /// first step.
    pub fn build(
        &self,
        project: &crate::project::Project,
        filter: &str,
        installed: &str,
        registry: &crate::odra_toml::OdraToml,
        location: &crate::project::OdraLocation,
        existing: &Vec<String>,
    ) -> (r: Result<Vec<crate::command::Step>, crate::errors::Error>)
        ensures
            match r {
                Ok(plan) => crate::actions::build_wasm::build_outcome(
                    project@,
                    self@,
                    filter@,
                    installed@,
                    registry.contracts.deep_view(),
                    location@,
                    existing.deep_view(),
                ) == Ok::<Seq<crate::command::StepView>, crate::project::Failure>(
                    plan.deep_view(),
                ),
                Err(e) => crate::actions::build_wasm::build_outcome(
                    project@,
                    self@,
                    filter@,
                    installed@,
                    registry.contracts.deep_view(),
                    location@,
                    existing.deep_view(),
                ) == Err::<Seq<crate::command::StepView>, crate::project::Failure>(e@),
            },
    {
        crate::actions::build_wasm::plan_build(
            project,
            self,
            filter,
            installed,
            registry,
            location,
            existing,
        )
    }

    /// Whether the compilation target for contracts is among the
    /// installed ones, which `installed` lists as the toolchain printed
    /// them.
    pub fn check_requirements(&self, installed: &str) -> (r: Result<(), crate::errors::Error>)
        ensures
            crate::text::contains_text(installed@, crate::consts::WASM_TARGET@) ==> r is Ok,
            !crate::text::contains_text(installed@, crate::consts::WASM_TARGET@) ==> r is Err
                && r->Err_0@ == (
                crate::errors::ErrorKind::WasmTargetNotInstalled,
                Seq::<char>::empty(),
            ),
    {
        crate::actions::utils::check_target_requirements(installed)
    }

    /// The step that formats the code in the backend's builder, in the
    /// project at `project_root`.
    pub fn fmt(&self, project_root: &str) -> (r: crate::command::Step)
        ensures
            r@ == crate::command::cargo_step(
                crate::builder::builder_dir(project_root@, self.name@),
                seq!["fmt"@],
            ),
    {
        let rel = self.builder_path();
        let dir = crate::paths::join(project_root, rel.as_str());
        let tail: Vec<String> = Vec::new();
        assert(seq!["fmt"@] + tail.deep_view() =~= seq!["fmt"@]);
        crate::command::cargo(dir.as_str(), "fmt", &tail)
    }

    /// The step that builds the library of the backend's test
    /// environment, in the project at `project_root`.
    pub fn build_lib(&self, project_root: &str) -> (r: crate::command::Step)
        ensures
            r@ == crate::command::cargo_step(
                crate::builder::builder_dir(project_root@, self.name@),
                seq![
                    "run"@,
                    "--bin"@,
                    "builder"@,
                    "--release"@,
                    "--no-default-features"@,
                    "--features=build"@,
                ],
            ),
    {
        let rel = self.builder_path();
        let dir = crate::paths::join(project_root, rel.as_str());
        let mut tail: Vec<String> = Vec::new();
        assert(tail.deep_view() =~= Seq::<Seq<char>>::empty());
        crate::command::push_text(&mut tail, "--bin");
        crate::command::push_text(&mut tail, "builder");
        crate::command::push_text(&mut tail, "--release");
        crate::command::push_text(&mut tail, "--no-default-features");
        crate::command::push_text(&mut tail, "--features=build");
        assert(seq!["run"@] + tail.deep_view() =~= seq![
            "run"@,
            "--bin"@,
            "builder"@,
            "--release"@,
            "--no-default-features"@,
            "--features=build"@,
        ]);
        crate::command::cargo(dir.as_str(), "run", &tail)
    }

    /// The name of the file, among `files`, that holds the built library:
    /// the last whose name is that of the library with a hash in it.
    /// Where none is, the library's plain name.
    pub fn built_lib(files: &Vec<String>) -> (r: String)
        ensures
            r@ == chosen_lib(files.deep_view()),
    {
        let pattern = lib_pattern();
        let ghost all = files.deep_view();
        let mut n: usize = files.len();
        assert(all.subrange(0, n as int) =~= all);
        while n > 0
            invariant
                all == files.deep_view(),
                pattern@ == lib_pattern_text(),
                n <= files.len(),
                chosen_lib(all.subrange(0, n as int)) == chosen_lib(all),
            decreases n,
        {
            proof {
                let part = all.subrange(0, n as int);
                assert(part.drop_last() =~= all.subrange(0, n - 1));
                assert(part.last() == files[n - 1]@);
            }
            match crate::pattern::regex_is_match(pattern.as_str(), files[n - 1].as_str()) {
                Some(true) => {
                    return files[n - 1].clone();
                },
                _ => {},
            }
            n = n - 1;
        }
        lib_filename()
    }

    /// The steps that put the built library of the test environment where
    /// the tests look for it. `files` names the files that the build left
    /// among its dependencies.
    pub fn place_lib(&self, project_root: &str, files: &Vec<String>) -> (r: Vec<
        crate::command::Step,
    >)
        ensures
            r.deep_view() == lib_steps(project_root@, self.name@, files.deep_view()),
    {
        let rel = self.builder_path();
        let dir = crate::paths::join(project_root, rel.as_str());
        let deps = crate::paths::join(dir.as_str(), "target/release/deps");
        let name = Self::built_lib(files);
        let source = crate::paths::join(deps.as_str(), name.as_str());
        let release = crate::paths::join(project_root, "target/release");
        let debug = crate::paths::join(project_root, "target/debug");
        let lib = lib_filename();
        let to_release = crate::paths::join(release.as_str(), lib.as_str());
        let to_debug = crate::paths::join(debug.as_str(), lib.as_str());
        let mut plan = crate::command::empty_plan();
        crate::command::push_step(&mut plan, crate::command::mkdir(release.as_str()));
        crate::command::push_step(&mut plan, crate::command::mkdir(debug.as_str()));
        crate::command::push_step(
            &mut plan,
            crate::command::cp(source.as_str(), to_release.as_str()),
        );
        crate::command::push_step(
            &mut plan,
            crate::command::cp(source.as_str(), to_debug.as_str()),
        );
        assert(plan.deep_view() =~= lib_steps(project_root@, self.name@, files.deep_view()));
        plan
    }

    /// A copy of this backend.
    pub fn duplicate(&self) -> (r: Backend)
        ensures
            r@ == self@,
    {
        Backend {
            name: self.name.clone(),
            dependency_name: self.dependency_name.clone(),
            dependency: self.dependency.duplicate(),
        }
    }

    /// Where the backend's crate comes from.
    pub fn dependency_type(&self) -> (r: DependencyType)
        ensures
            r == dependency_type_of(self.dependency@),
    {
        match self.backend_dependency() {
            Dependency::Simple(_) => DependencyType::Crates,
            Dependency::Detailed(d) => {
                if d.path.is_some() {
                    return DependencyType::Local;
                }
                if d.git.is_some() {
                    return DependencyType::Remote;
                }
                DependencyType::Crates
            },
        }
    }

    /// The dependency set of the backend's builder, for the project named
    /// `project_name` whose manifest names the framework as `odra`.
    pub fn builder_dependencies(&self, project_name: &str, odra: &Dependency) -> (r: Vec<
        (String, Dependency),
    >)
        ensures
            r.deep_view() == builder_deps(self@, project_name@, odra@),
            crate::cargo_toml::names_distinct(r.deep_view()),
    {
        let mut deps: Vec<(String, Dependency)> = Vec::new();
        assert(deps.deep_view() =~= Seq::<(Seq<char>, DependencyView)>::empty());
        insert_dependency(
            &mut deps,
            String::from_str(ODRA_CRATE_NAME),
            Backend::odra_dependency(odra),
        );
        insert_dependency(&mut deps, String::from_str(project_name), Backend::project_dependency());
        insert_dependency(
            &mut deps,
            concat3("odra-", self.package().as_str(), "-backend"),
            self.dependency("backend"),
        );
        insert_dependency(
            &mut deps,
            concat3("odra-", self.package().as_str(), "-test-env"),
            self.dependency("test_env"),
        );
        deps
    }

    /// The dependency on the part `folder` of the backend's crate.
    pub fn dependency(&self, folder: &str) -> (r: Dependency)
        ensures
            r@ == part_dependency(self.dependency@, folder@),
    {
        let mut d = detail(&self.dependency);
        d.path = match &d.path {
            Some(p) => Some(concat3("../", p.as_str(), folder)),
            None => None,
        };
        d.optional = true;
        Dependency::Detailed(d)
    }

    /// The framework dependency `odra`, as the builder names it.
    pub fn odra_dependency(odra: &Dependency) -> (r: Dependency)
        ensures
            r@ == builder_odra_dependency(odra@),
    {
        match odra {
            Dependency::Simple(v) => {
                let mut d = DependencyDetail::empty();
                d.version = Some(v.clone());
                d.optional = true;
                Dependency::Detailed(d)
            },
            Dependency::Detailed(detail) => {
                let mut d = detail.duplicate();
                let mut features: Vec<String> = Vec::new();
                features.push(String::from_str("wasm"));
                assert(features.deep_view() =~= seq!["wasm"@]);
                d.features = features;
                d.optional = true;
                d.default_features = false;
                d.path = match &d.path {
                    Some(p) => Some(concat("../", p.as_str())),
                    None => None,
                };
                Dependency::Detailed(d)
            },
        }
    }

    /// The dependency of a builder on the project it builds.
    pub fn project_dependency() -> (r: Dependency)
        ensures
            r@ == builder_project_dependency(),
    {
        let mut d = DependencyDetail::empty();
        d.path = Some(String::from_str(".."));
        let mut features: Vec<String> = Vec::new();
        features.push(String::from_str("wasm"));
        assert(features.deep_view() =~= seq!["wasm"@]);
        d.features = features;
        d.optional = true;
        d.default_features = false;
        Dependency::Detailed(d)
    }

    /// The backend that `add` describes.
    pub fn from_add_command(add: &AddBackendCommand) -> (r: Backend)
        ensures
            r@ == backend_from(
                add.name.deep_view(),
                add.package@,
                add.path.deep_view(),
                add.repo_uri.deep_view(),
                add.branch.deep_view(),
            ),
    {
        let mut d = DependencyDetail::empty();
        if add.path.is_some() {
            d.path = copy_opt(&add.path);
        } else if add.repo_uri.is_some() {
            d.git = copy_opt(&add.repo_uri);
            d.branch = copy_opt(&add.branch);
        } else {
            d.version = Some(String::from_str("*"));
        }
        let name = match &add.name {
            None => add.package.clone(),
            Some(name) => name.clone(),
        };
        Backend { name, dependency_name: add.package.clone(), dependency: Dependency::Detailed(d) }
    }

    /// The name of the backend within the project. It is mostly the name
    /// of its package; it differs where a project has the same backend
    /// twice, from two places.
    pub fn name(&self) -> (r: &String)
        ensures
            r == &self.name,
    {
        &self.name
    }

    /// The name of the backend's package, from which the names of its
    /// crates are made.
    pub fn package(&self) -> (r: &String)
        ensures
            r == &self.dependency_name,
    {
        &self.dependency_name
    }

    /// The dependency on the backend's crate.
    pub fn backend_dependency(&self) -> (r: &Dependency)
        ensures
            r == &self.dependency,
    {
        &self.dependency
    }

    /// The directory of the backend's builder, seen from the project's
    /// root.
    pub fn builder_path(&self) -> (r: String)
        ensures
            r@ == ".builder_"@ + self.name@ + "/"@,
    {
        concat3(".builder_", self.name.as_str(), "/")
    }

    /// The code generation harness, with placeholders for the contract's
    /// fully qualified name, for its name and for the backend's package.
    pub fn def_rs() -> (r: &'static str)
        ensures
            r@ == crate::builder::DEF_RS@,
    {
        crate::builder::DEF_RS
    }

    /// The builder's own main file.
    pub fn main_rs() -> (r: &'static str)
        ensures
            r@ == crate::builder::MAIN_RS@,
    {
        crate::builder::MAIN_RS
    }
}

} // verus!
