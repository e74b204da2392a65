//! The steps that a plan is made of, and the commands among them.
//!
//! Nothing here runs anything: each function describes one step, and the
//! caller carries the steps out in order, stopping at the first that fails.

use crate::cargo_toml::{Manifest, ManifestView};
use crate::consts::{ODRA_BACKEND_ENV_KEY, ODRA_MODULE_ENV_KEY, WASM_TARGET};
use crate::errors::{Error, ErrorKind};
use crate::paths::{wasm_path_in_wasm_dir, wasm_path_in_wasm_dir_of};
use crate::text::{concat, fields, replace_all, replaced, split_fields};
use vstd::prelude::*;
use vstd::string::*;

verus! {

/// One step of a plan.
#[derive(Clone, Debug, PartialEq, Eq)]
pub enum Step {
    /// Create a directory, and its ancestors where they are missing.
    MakeDir { path: String },
    /// Remove a directory and what it holds; one that is not there is no
    /// failure.
    RemoveDir { path: String },
    /// Write a file, in place of what it held.
    WriteFile { path: String, content: String },
    /// Add to the end of a file.
    AppendFile { path: String, content: String },
    /// Replace every `from` in a file by `to`.
    ReplaceInFile { path: String, from: String, to: String },
    /// Copy a file.
    Copy { source: String, target: String },
    /// Give a file another name in its directory.
    Rename { path: String, name: String },
    /// Run the build toolchain in `dir`, with the variables of `env` set.
    Cargo { dir: String, args: Vec<String>, env: Vec<(String, String)> },
    /// Strip the binary `file`, from within `dir`.
    WasmStrip { dir: String, file: String },
    /// Write a build manifest, with the text that `manifest_text` gives it,
    /// in place of what the file held.
    WriteManifest { path: String, manifest: Manifest },
    /// Write the contract registry, in place of what the file held.
    SaveRegistry { path: String, contracts: Vec<String> },
    /// Generate a project from the template in `source`, a path or a
    /// repository, in its `subfolder` and at `branch` where they are given. With `init`
    /// the project is made in the current directory, else in a new one
    /// called `name`.
    GenerateProject {
        source: String,
        subfolder: Option<String>,
        branch: Option<String>,
        name: String,
        define: Vec<String>,
        init: bool,
    },
}

/// What a `Step` holds.
pub enum StepView {
    MakeDir { path: Seq<char> },
    RemoveDir { path: Seq<char> },
    WriteFile { path: Seq<char>, content: Seq<char> },
    AppendFile { path: Seq<char>, content: Seq<char> },
    ReplaceInFile { path: Seq<char>, from: Seq<char>, to: Seq<char> },
    Copy { source: Seq<char>, target: Seq<char> },
    Rename { path: Seq<char>, name: Seq<char> },
    Cargo { dir: Seq<char>, args: Seq<Seq<char>>, env: Seq<(Seq<char>, Seq<char>)> },
    WasmStrip { dir: Seq<char>, file: Seq<char> },
    WriteManifest { path: Seq<char>, manifest: ManifestView },
    SaveRegistry { path: Seq<char>, contracts: Seq<Seq<char>> },
    GenerateProject {
        source: Seq<char>,
        subfolder: Option<Seq<char>>,
        branch: Option<Seq<char>>,
        name: Seq<char>,
        define: Seq<Seq<char>>,
        init: bool,
    },
}

impl View for Step {
    type V = StepView;

    open spec fn view(&self) -> StepView {
        match self {
            Step::MakeDir { path } => StepView::MakeDir { path: path@ },
            Step::RemoveDir { path } => StepView::RemoveDir { path: path@ },
            Step::WriteFile { path, content } => StepView::WriteFile {
                path: path@,
                content: content@,
            },
            Step::AppendFile { path, content } => StepView::AppendFile {
                path: path@,
                content: content@,
            },
            Step::ReplaceInFile { path, from, to } => StepView::ReplaceInFile {
                path: path@,
                from: from@,
                to: to@,
            },
            Step::Copy { source, target } => StepView::Copy { source: source@, target: target@ },
            Step::Rename { path, name } => StepView::Rename { path: path@, name: name@ },
            Step::Cargo { dir, args, env } => StepView::Cargo {
                dir: dir@,
                args: args.deep_view(),
                env: env.deep_view(),
            },
            Step::WasmStrip { dir, file } => StepView::WasmStrip { dir: dir@, file: file@ },
            Step::WriteManifest { path, manifest } => StepView::WriteManifest {
                path: path@,
                manifest: manifest@,
            },
            Step::SaveRegistry { path, contracts } => StepView::SaveRegistry {
                path: path@,
                contracts: contracts.deep_view(),
            },
            Step::GenerateProject { source, subfolder, branch, name, define, init } =>
                StepView::GenerateProject {
                    source: source@,
                    subfolder: subfolder.deep_view(),
                    branch: branch.deep_view(),
                    name: name@,
                    define: define.deep_view(),
                    init: *init,
                },
        }
    }
}

impl DeepView for Step {
    type V = StepView;

    open spec fn deep_view(&self) -> StepView {
        self@
    }
}

/// The words of `words` with one space between each two.
pub open spec fn spaced(words: Seq<Seq<char>>) -> Seq<char>
    decreases words.len(),
{
    if words.len() == 0 {
        Seq::<char>::empty()
    } else if words.len() == 1 {
        words[0]
    } else {
        spaced(words.drop_last()) + seq![' '] + words.last()
    }
}

/// The toolchain step that runs `args` in `dir`.
pub open spec fn cargo_step(dir: Seq<char>, args: Seq<Seq<char>>) -> StepView {
    StepView::Cargo { dir, args, env: Seq::empty() }
}

/// The step that compiles the binary of `contract_name`, a contract of
/// the module `module_name`, for release.
pub open spec fn build_wasm_step(
    dir: Seq<char>,
    contract_name: Seq<char>,
    module_name: Seq<char>,
) -> StepView {
    StepView::Cargo {
        dir,
        args: seq![
            "build"@,
            "--target"@,
            WASM_TARGET@,
            "--bin"@,
            module_name + "_build_contract"@,
            "--release"@,
        ],
        env: seq![(ODRA_MODULE_ENV_KEY@, contract_name)],
    }
}

/// The step that writes the schema of `contract_name`, a contract of the
/// module `module_name`.
pub open spec fn schema_step(
    dir: Seq<char>,
    contract_name: Seq<char>,
    module_name: Seq<char>,
) -> StepView {
    StepView::Cargo {
        dir,
        args: seq!["run"@, "--bin"@, module_name + "_build_schema"@, "--release"@],
        env: seq![(ODRA_MODULE_ENV_KEY@, contract_name)],
    }
}

/// The step that runs the library's tests with `args` passed on.
pub open spec fn test_step(dir: Seq<char>, args: Seq<Seq<char>>) -> StepView {
    StepView::Cargo { dir, args: seq!["test"@, "--lib"@] + args, env: Seq::empty() }
}

/// The step that runs the library's tests against the backend
/// `backend_name`, with `args` passed on.
pub open spec fn test_backend_step(
    dir: Seq<char>,
    backend_name: Seq<char>,
    args: Seq<Seq<char>>,
) -> StepView {
    StepView::Cargo {
        dir,
        args: seq!["test"@, "--lib"@] + args,
        env: seq![(ODRA_BACKEND_ENV_KEY@, backend_name)],
    }
}

/// The step that strips the binary of `contract_name` in the output
/// directory of `root`.
pub open spec fn strip_step(contract_name: Seq<char>, root: Seq<char>) -> StepView {
    StepView::WasmStrip { dir: root, file: wasm_path_in_wasm_dir_of(contract_name, root) }
}

/// The arguments of a toolchain step as they are handed to the toolchain:
/// the verbosity flag, where there is one, goes behind the subcommand.
pub open spec fn with_verbosity(args: Seq<Seq<char>>, verbosity: Option<Seq<char>>) -> Seq<
    Seq<char>,
> {
    match verbosity {
        None => args,
        Some(flag) => if args.len() == 0 {
            seq![flag]
        } else {
            seq![args[0], flag] + args.subrange(1, args.len() as int)
        },
    }
}

/// The failure that a step ends in when it cannot be carried out: a
/// command names itself and its arguments, the removal of a directory
/// names the directory, and a binary that could not be stripped tells of
/// the missing tool.
pub open spec fn failure_of(step: StepView) -> (ErrorKind, Seq<char>) {
    match step {
        StepView::MakeDir { path } => (ErrorKind::CommandFailed, "mkdir "@ + path),
        StepView::RemoveDir { path } => (ErrorKind::RemoveDirNotPossible, path),
        StepView::WriteFile { path, content } => (ErrorKind::CommandFailed, "write "@ + path),
        StepView::AppendFile { path, content } => (ErrorKind::CommandFailed, "append "@ + path),
        StepView::ReplaceInFile { path, from, to } => (
            ErrorKind::CommandFailed,
            "replace "@ + path,
        ),
        StepView::Copy { source, target } => (
            ErrorKind::CommandFailed,
            "cp "@ + source + " "@ + target,
        ),
        StepView::Rename { path, name } => (ErrorKind::CommandFailed, "mv "@ + path + " "@ + name),
        StepView::Cargo { dir, args, env } => (
            ErrorKind::CommandFailed,
            spaced(seq!["cargo"@] + args),
        ),
        StepView::WasmStrip { dir, file } => (ErrorKind::WasmstripNotInstalled, Seq::empty()),
        StepView::WriteManifest { path, manifest } => (ErrorKind::CommandFailed, "write "@ + path),
        StepView::SaveRegistry { path, contracts } => (ErrorKind::CommandFailed, "write "@ + path),
        StepView::GenerateProject { source, subfolder, branch, name, define, init } => (
            ErrorKind::FailedToGenerateProjectFromTemplate,
            source,
        ),
    }
}

/// The one variable `key`, set to `value`.
pub fn one_variable(key: &str, value: &str) -> (r: Vec<(String, String)>)
    ensures
        r.deep_view() == seq![(key@, value@)],
{
    let mut env: Vec<(String, String)> = Vec::new();
    env.push((String::from_str(key), String::from_str(value)));
    assert(env.deep_view() =~= seq![(key@, value@)]);
    env
}

/// No variable.
pub fn no_variables() -> (r: Vec<(String, String)>)
    ensures
        r.deep_view() == Seq::<(Seq<char>, Seq<char>)>::empty(),
{
    let env: Vec<(String, String)> = Vec::new();
    assert(env.deep_view() =~= Seq::<(Seq<char>, Seq<char>)>::empty());
    env
}

/// Adds a copy of `s` to the end of `v`.
pub fn push_text(v: &mut Vec<String>, s: &str)
    ensures
        final(v).deep_view() == old(v).deep_view().push(s@),
{
    let ghost before = v.deep_view();
    v.push(String::from_str(s));
    assert(v.deep_view() =~= before.push(s@));
}

/// Adds copies of the strings of `more` to the end of `v`.
pub fn extend_text(v: &mut Vec<String>, more: &Vec<String>)
    ensures
        final(v).deep_view() == old(v).deep_view() + more.deep_view(),
{
    let ghost before = v.deep_view();
    let mut i: usize = 0;
    assert(more.deep_view().subrange(0, 0) =~= Seq::<Seq<char>>::empty());
    assert(before + Seq::<Seq<char>>::empty() =~= before);
    while i < more.len()
        invariant
            i <= more.len(),
            v.deep_view() == before + more.deep_view().subrange(0, i as int),
        decreases more.len() - i,
    {
        let ghost so_far = v.deep_view();
        push_text(v, more[i].as_str());
        i = i + 1;
        assert(v.deep_view() =~= before + more.deep_view().subrange(0, i as int)) by {
            assert(more.deep_view()[i - 1] == more[i - 1]@);
        }
    }
    assert(more.deep_view().subrange(0, i as int) =~= more.deep_view());
}

/// The words of `words` with one space between each two.
pub fn join_spaced(words: &Vec<String>) -> (r: String)
    ensures
        r@ == spaced(words.deep_view()),
{
    let ghost all = words.deep_view();
    let mut out = String::new();
    let mut i: usize = 0;
    assert(all.subrange(0, 0) =~= Seq::<Seq<char>>::empty());
    while i < words.len()
        invariant
            all == words.deep_view(),
            i <= words.len(),
            out@ == spaced(all.subrange(0, i as int)),
        decreases words.len() - i,
    {
        proof {
            let next = all.subrange(0, i + 1);
            assert(next.drop_last() =~= all.subrange(0, i as int));
            assert(next.last() == words[i as int]@);
            reveal_strlit(" ");
            assert(" "@ =~= seq![' ']);
            if i > 0 {
                assert(spaced(next) == spaced(next.drop_last()) + seq![' '] + next.last());
            } else {
                assert(out@ + words[i as int]@ =~= words[i as int]@);
            }
        }
        if i > 0 {
            out.append(" ");
        }
        out.append(words[i].as_str());
        i = i + 1;
    }
    assert(all.subrange(0, i as int) =~= all);
    out
}

/// Adds `step` to the end of `plan`.
pub fn push_step(plan: &mut Vec<Step>, step: Step)
    ensures
        final(plan).deep_view() == old(plan).deep_view().push(step@),
{
    let ghost before = plan.deep_view();
    let ghost s = step@;
    plan.push(step);
    assert(plan.deep_view() =~= before.push(s));
}

/// Adds the steps of `more` to the end of `plan`.
pub fn append_steps(plan: &mut Vec<Step>, more: Vec<Step>)
    ensures
        final(plan).deep_view() == old(plan).deep_view() + more.deep_view(),
{
    let ghost before = plan.deep_view();
    let ghost added = more.deep_view();
    let mut more = more;
    plan.append(&mut more);
    assert(plan.deep_view() =~= before + added);
}

/// A plan without steps.
pub fn empty_plan() -> (r: Vec<Step>)
    ensures
        r.deep_view() == Seq::<StepView>::empty(),
{
    let plan: Vec<Step> = Vec::new();
    assert(plan.deep_view() =~= Seq::<StepView>::empty());
    plan
}

/// The steps that `f` gives for each of `items`, in their order.
pub open spec fn steps_for_each(
    items: Seq<Seq<char>>,
    f: spec_fn(Seq<char>) -> Seq<StepView>,
) -> Seq<StepView>
    decreases items.len(),
{
    if items.len() == 0 {
        Seq::<StepView>::empty()
    } else {
        steps_for_each(items.drop_last(), f) + f(items.last())
    }
}

/// What holds of every step that `f` gives for an item of `items` holds of
/// every step given for all of them.
pub proof fn lemma_steps_for_each_all(
    items: Seq<Seq<char>>,
    f: spec_fn(Seq<char>) -> Seq<StepView>,
    p: spec_fn(StepView) -> bool,
)
    requires
        forall|j: int, k: int|
            0 <= j < items.len() && 0 <= k < f(items[j]).len() ==> p(#[trigger] f(items[j])[k]),
    ensures
        forall|i: int|
            0 <= i < steps_for_each(items, f).len() ==> p(#[trigger] steps_for_each(items, f)[i]),
    decreases items.len(),
{
    if items.len() > 0 {
        let front = items.drop_last();
        assert forall|j: int, k: int|
            0 <= j < front.len() && 0 <= k < f(front[j]).len() implies p(
            #[trigger] f(front[j])[k],
        ) by {
            assert(front[j] == items[j]);
        }
        lemma_steps_for_each_all(front, f, p);
        let all = steps_for_each(items, f);
        let head = steps_for_each(front, f);
        assert forall|i: int| 0 <= i < all.len() implies p(#[trigger] all[i]) by {
            if i < head.len() {
                assert(all[i] == head[i]);
            } else {
                assert(items.last() == items[items.len() - 1]);
                assert(all[i] == f(items[items.len() - 1])[i - head.len()]);
            }
        }
    }
}

/// Where `f` gives one step for each item, the steps for all of them are
/// those steps, one for each item and in the items' order.
pub proof fn lemma_steps_one_each(items: Seq<Seq<char>>, f: spec_fn(Seq<char>) -> Seq<StepView>)
    requires
        forall|j: int| 0 <= j < items.len() ==> (#[trigger] f(items[j])).len() == 1,
    ensures
        steps_for_each(items, f).len() == items.len(),
        forall|i: int|
            0 <= i < items.len() ==> #[trigger] steps_for_each(items, f)[i] == f(items[i])[0],
    decreases items.len(),
{
    if items.len() > 0 {
        let front = items.drop_last();
        assert forall|j: int| 0 <= j < front.len() implies (#[trigger] f(front[j])).len() == 1 by {
            assert(front[j] == items[j]);
        }
        lemma_steps_one_each(front, f);
        assert(f(items[items.len() - 1]).len() == 1);
        assert(items.last() == items[items.len() - 1]);
        assert forall|i: int| 0 <= i < items.len() implies #[trigger] steps_for_each(items, f)[i]
            == f(items[i])[0] by {
            if i < front.len() {
                assert(front[i] == items[i]);
                assert(steps_for_each(items, f)[i] == steps_for_each(front, f)[i]);
            }
        }
    }
}

/// The step that copies `source` to `target`.
pub fn cp(source: &str, target: &str) -> (r: Step)
    ensures
        r@ == (StepView::Copy { source: source@, target: target@ }),
{
    Step::Copy { source: String::from_str(source), target: String::from_str(target) }
}

/// The step that removes the directory `path`.
pub fn rm_dir(path: &str) -> (r: Step)
    ensures
        r@ == (StepView::RemoveDir { path: path@ }),
{
    Step::RemoveDir { path: String::from_str(path) }
}

/// The step that creates the directory `path`.
pub fn mkdir(path: &str) -> (r: Step)
    ensures
        r@ == (StepView::MakeDir { path: path@ }),
{
    Step::MakeDir { path: String::from_str(path) }
}

/// The step that writes `content` to the file `path`.
pub fn write_to_file(path: &str, content: &str) -> (r: Step)
    ensures
        r@ == (StepView::WriteFile { path: path@, content: content@ }),
{
    Step::WriteFile { path: String::from_str(path), content: String::from_str(content) }
}

/// The step that adds `content` to the end of the file `path`.
pub fn append_file(path: &str, content: &str) -> (r: Step)
    ensures
        r@ == (StepView::AppendFile { path: path@, content: content@ }),
{
    Step::AppendFile { path: String::from_str(path), content: String::from_str(content) }
}

/// The step that replaces every `from` in the file `path` by `to`.
pub fn replace_in_file(path: &str, from: &str, to: &str) -> (r: Step)
    ensures
        r@ == (StepView::ReplaceInFile { path: path@, from: from@, to: to@ }),
{
    Step::ReplaceInFile {
        path: String::from_str(path),
        from: String::from_str(from),
        to: String::from_str(to),
    }
}

/// The step that gives the file `path` the name `name`.
pub fn rename_file(path: &str, name: &str) -> (r: Step)
    ensures
        r@ == (StepView::Rename { path: path@, name: name@ }),
{
    Step::Rename { path: String::from_str(path), name: String::from_str(name) }
}

/// What a file holds once every `from` in `content` is replaced by `to`.
pub fn replaced_content(content: &str, from: &str, to: &str) -> (r: String)
    ensures
        r@ == replaced(content@, from@, to@),
{
    replace_all(content, from, to)
}

/// The step that strips the binary of `contract_name` in the output
/// directory of the project at `project_root`.
pub fn wasm_strip(contract_name: &str, project_root: &str) -> (r: Step)
    ensures
        r@ == strip_step(contract_name@, project_root@),
{
    Step::WasmStrip {
        dir: String::from_str(project_root),
        file: wasm_path_in_wasm_dir(contract_name, project_root),
    }
}

/// The step that runs the toolchain's subcommand `command` with
/// `tail_args` in `current_dir`.
pub fn cargo(current_dir: &str, command: &str, tail_args: &Vec<String>) -> (r: Step)
    ensures
        r@ == cargo_step(current_dir@, seq![command@] + tail_args.deep_view()),
{
    let mut args: Vec<String> = Vec::new();
    assert(args.deep_view() =~= Seq::<Seq<char>>::empty());
    push_text(&mut args, command);
    extend_text(&mut args, tail_args);
    assert(args.deep_view() =~= seq![command@] + tail_args.deep_view());
    Step::Cargo { dir: String::from_str(current_dir), args, env: no_variables() }
}

/// The step that compiles the binary of `contract_name`, a contract of
/// the module `module_name`, for release.
pub fn cargo_build_wasm_files(current_dir: &str, contract_name: &str, module_name: &str) -> (r:
    Step)
    ensures
        r@ == build_wasm_step(current_dir@, contract_name@, module_name@),
{
    let build_contract = concat(module_name, "_build_contract");
    let mut args: Vec<String> = Vec::new();
    assert(args.deep_view() =~= Seq::<Seq<char>>::empty());
    push_text(&mut args, "build");
    push_text(&mut args, "--target");
    push_text(&mut args, WASM_TARGET);
    push_text(&mut args, "--bin");
    push_text(&mut args, build_contract.as_str());
    push_text(&mut args, "--release");
    assert(args.deep_view() =~= seq![
        "build"@,
        "--target"@,
        WASM_TARGET@,
        "--bin"@,
        module_name@ + "_build_contract"@,
        "--release"@,
    ]);
    Step::Cargo {
        dir: String::from_str(current_dir),
        args,
        env: one_variable(ODRA_MODULE_ENV_KEY, contract_name),
    }
}

/// The step that writes the schema of `contract_name`, a contract of the
/// module `module_name`.
pub fn cargo_generate_schema_files(current_dir: &str, contract_name: &str, module_name: &str) -> (r:
    Step)
    ensures
        r@ == schema_step(current_dir@, contract_name@, module_name@),
{
    let build_schema = concat(module_name, "_build_schema");
    let mut args: Vec<String> = Vec::new();
    assert(args.deep_view() =~= Seq::<Seq<char>>::empty());
    push_text(&mut args, "run");
    push_text(&mut args, "--bin");
    push_text(&mut args, build_schema.as_str());
    push_text(&mut args, "--release");
    assert(args.deep_view() =~= seq![
        "run"@,
        "--bin"@,
        module_name@ + "_build_schema"@,
        "--release"@,
    ]);
    Step::Cargo {
        dir: String::from_str(current_dir),
        args,
        env: one_variable(ODRA_MODULE_ENV_KEY, contract_name),
    }
}

/// The step that updates the dependencies of the crate in `current_dir`.
pub fn cargo_update(current_dir: &str) -> (r: Step)
    ensures
        r@ == cargo_step(current_dir@, seq!["update"@]),
{
    let tail: Vec<String> = Vec::new();
    assert(seq!["update"@] + tail.deep_view() =~= seq!["update"@]);
    cargo(current_dir, "update", &tail)
}

/// The step that removes what the toolchain built in `current_dir`.
pub fn cargo_clean(current_dir: &str) -> (r: Step)
    ensures
        r@ == cargo_step(current_dir@, seq!["clean"@]),
{
    let tail: Vec<String> = Vec::new();
    assert(seq!["clean"@] + tail.deep_view() =~= seq!["clean"@]);
    cargo(current_dir, "clean", &tail)
}

/// The step that runs the library's tests in `current_dir`, with `args`
/// passed on.
pub fn cargo_test_mock_vm(current_dir: &str, args: &Vec<String>) -> (r: Step)
    ensures
        r@ == test_step(current_dir@, args.deep_view()),
{
    let mut tail: Vec<String> = Vec::new();
    assert(tail.deep_view() =~= Seq::<Seq<char>>::empty());
    push_text(&mut tail, "--lib");
    extend_text(&mut tail, args);
    assert(seq!["test"@] + tail.deep_view() =~= seq!["test"@, "--lib"@] + args.deep_view());
    cargo(current_dir, "test", &tail)
}

/// The step that runs the library's tests in `project_root` against the
/// backend `backend_name`, with `args` passed on.
pub fn cargo_test_backend(project_root: &str, backend_name: &str, args: &Vec<String>) -> (r: Step)
    ensures
        r@ == test_backend_step(project_root@, backend_name@, args.deep_view()),
{
    let mut all: Vec<String> = Vec::new();
    assert(all.deep_view() =~= Seq::<Seq<char>>::empty());
    push_text(&mut all, "test");
    push_text(&mut all, "--lib");
    extend_text(&mut all, args);
    assert(all.deep_view() =~= seq!["test"@, "--lib"@] + args.deep_view());
    Step::Cargo {
        dir: String::from_str(project_root),
        args: all,
        env: one_variable(ODRA_BACKEND_ENV_KEY, backend_name),
    }
}

/// The flag that passes the user's choice of verbosity on to the
/// toolchain: `verbose` goes before `quiet`.
pub fn verbosity_arg(verbose: bool, quiet: bool) -> (r: Option<&'static str>)
    ensures
        verbose ==> r.deep_view() == Some("--verbose"@),
        !verbose && quiet ==> r.deep_view() == Some("--quiet"@),
        !verbose && !quiet ==> r is None,
{
    if verbose {
        Some("--verbose")
    } else if quiet {
        Some("--quiet")
    } else {
        None
    }
}

/// The arguments of a toolchain step as they are handed to the toolchain.
pub fn cargo_args(args: &Vec<String>, verbosity: Option<&str>) -> (r: Vec<String>)
    ensures
        r.deep_view() == with_verbosity(args.deep_view(), verbosity.deep_view()),
{
    let mut out: Vec<String> = Vec::new();
    assert(out.deep_view() =~= Seq::<Seq<char>>::empty());
    match verbosity {
        None => {
            extend_text(&mut out, args);
            assert(out.deep_view() =~= args.deep_view());
        },
        Some(flag) => {
            if args.len() == 0 {
                push_text(&mut out, flag);
                assert(out.deep_view() =~= seq![flag@]);
            } else {
                push_text(&mut out, args[0].as_str());
                push_text(&mut out, flag);
                let mut i: usize = 1;
                assert(args.deep_view().subrange(1, 1) =~= Seq::<Seq<char>>::empty());
                assert(out.deep_view() =~= seq![args.deep_view()[0], flag@]
                    + args.deep_view().subrange(1, 1));
                while i < args.len()
                    invariant
                        1 <= i <= args.len(),
                        out.deep_view() == seq![args.deep_view()[0], flag@]
                            + args.deep_view().subrange(1, i as int),
                    decreases args.len() - i,
                {
                    push_text(&mut out, args[i].as_str());
                    i = i + 1;
                    assert(out.deep_view() =~= seq![args.deep_view()[0], flag@]
                        + args.deep_view().subrange(1, i as int)) by {
                        assert(args.deep_view()[i - 1] == args[i - 1]@);
                    }
                }
            }
        },
    }
    out
}

/// A command line cut at its spaces: the program, then its arguments. A
/// line without a program is refused.
pub fn command_output(command: &str) -> (r: Result<(String, Vec<String>), Error>)
    ensures
        fields(command@, ' ').len() == 0 ==> r is Err && r->Err_0@ == (
            ErrorKind::InvalidInternalCommand,
            command@,
        ),
        fields(command@, ' ').len() > 0 ==> r is Ok && r->Ok_0.0@ == fields(command@, ' ')[0]
            && r->Ok_0.1.deep_view() == fields(command@, ' ').subrange(
            1,
            fields(command@, ' ').len() as int,
        ),
{
    let mut words = split_fields(command, ' ');
    if words.len() == 0 {
        return Err(Error::InvalidInternalCommand(String::from_str(command)));
    }
    let ghost all = words.deep_view();
    let program = words.remove(0);
    assert(words.deep_view() =~= all.subrange(1, all.len() as int));
    Ok((program, words))
}

/// What becomes of a command that ended: nothing where it succeeded,
/// `error` where it did not.
pub fn parse_command_result(success: bool, error: Error) -> (r: Result<(), Error>)
    ensures
        success ==> r is Ok,
        !success ==> r == Err::<(), Error>(error),
{
    if success {
        Ok(())
    } else {
        Err(error)
    }
}

/// What a step that was tried comes to. The stripping tool has done its
/// part once it could be run at all, whatever it then said; every other
/// step must have been run and must have succeeded. A step that has not
/// done its part ends in its failure.
pub open spec fn outcome_of(step: StepView, invoked: bool, succeeded: bool) -> Result<
    (),
    (ErrorKind, Seq<char>),
> {
    let done = match step {
        StepView::WasmStrip { dir, file } => invoked,
        _ => invoked && succeeded,
    };
    if done {
        Ok(())
    } else {
        Err(failure_of(step))
    }
}

/// The place of the first step of `plan` that was tried and has not done
/// its part; -1 where each step that was tried has. `attempts` tells of
/// each step tried so far, in the plan's order, whether it could be run
/// and whether it then succeeded.
pub open spec fn first_failed(plan: Seq<StepView>, attempts: Seq<(bool, bool)>) -> int
    decreases plan.len(),
{
    if plan.len() == 0 || attempts.len() == 0 {
        -1
    } else if outcome_of(plan[0], attempts[0].0, attempts[0].1) is Err {
        0
    } else {
        let rest = first_failed(
            plan.subrange(1, plan.len() as int),
            attempts.subrange(1, attempts.len() as int),
        );
        if rest < 0 {
            -1
        } else {
            rest + 1
        }
    }
}

/// The step to try next: the one behind those tried so far, as long as
/// none of them has failed and the plan has a step left.
pub open spec fn next_to_try(plan: Seq<StepView>, attempts: Seq<(bool, bool)>) -> Option<int> {
    if first_failed(plan, attempts) >= 0 || attempts.len() >= plan.len() {
        None
    } else {
        Some(attempts.len() as int)
    }
}

/// What a run of `plan` has come to after `attempts`: the failure of the
/// first step that failed, or nothing.
pub open spec fn run_outcome(plan: Seq<StepView>, attempts: Seq<(bool, bool)>) -> Result<
    (),
    (ErrorKind, Seq<char>),
> {
    let i = first_failed(plan, attempts);
    if 0 <= i < plan.len() {
        Err(failure_of(plan[i]))
    } else {
        Ok(())
    }
}

/// What the place of the first failed step is: a step that was tried and
/// has not done its part, with each step before it done.
pub proof fn lemma_first_failed(plan: Seq<StepView>, attempts: Seq<(bool, bool)>)
    ensures
        -1 <= first_failed(plan, attempts) < plan.len(),
        first_failed(plan, attempts) < attempts.len(),
        first_failed(plan, attempts) >= 0 ==> outcome_of(
            plan[first_failed(plan, attempts)],
            attempts[first_failed(plan, attempts)].0,
            attempts[first_failed(plan, attempts)].1,
        ) is Err,
        forall|k: int|
            0 <= k < plan.len() && k < attempts.len() && (first_failed(plan, attempts) < 0 || k
                < first_failed(plan, attempts)) ==> outcome_of(
                plan[k],
                (#[trigger] attempts[k]).0,
                attempts[k].1,
            ) is Ok,
    decreases plan.len(),
{
    if plan.len() > 0 && attempts.len() > 0 && outcome_of(plan[0], attempts[0].0, attempts[0].1)
        is Ok {
        let p = plan.subrange(1, plan.len() as int);
        let a = attempts.subrange(1, attempts.len() as int);
        lemma_first_failed(p, a);
        assert forall|k: int|
            0 <= k < plan.len() && k < attempts.len() && (first_failed(plan, attempts) < 0 || k
                < first_failed(plan, attempts)) implies outcome_of(
            plan[k],
            (#[trigger] attempts[k]).0,
            attempts[k].1,
        ) is Ok by {
            if k > 0 {
                assert(plan[k] == p[k - 1]);
                assert(attempts[k] == a[k - 1]);
            }
        }
    }
}

/// A run stops at the first failure: a step is tried only when every step
/// before it was tried and has done its part, and no step is tried behind
/// one that failed.
pub proof fn lemma_run_stops_at_first_failure(plan: Seq<StepView>, attempts: Seq<(bool, bool)>)
    ensures
        match next_to_try(plan, attempts) {
            Some(i) => i == attempts.len() && i < plan.len() && run_outcome(plan, attempts) is Ok
                && forall|k: int|
                0 <= k < i ==> outcome_of(plan[k], (#[trigger] attempts[k]).0, attempts[k].1)
                    is Ok,
            None => run_outcome(plan, attempts) is Err || attempts.len() >= plan.len(),
        },
{
    lemma_first_failed(plan, attempts);
}

/// The place of the first step of `plan` that was tried and has failed.
pub fn find_failed(plan: &Vec<Step>, attempts: &Vec<(bool, bool)>) -> (r: Option<usize>)
    ensures
        match r {
            Some(i) => i as int == first_failed(plan.deep_view(), attempts@) && i < plan.len(),
            None => first_failed(plan.deep_view(), attempts@) < 0,
        },
{
    let ghost steps = plan.deep_view();
    let mut i: usize = 0;
    while i < plan.len() && i < attempts.len()
        invariant
            steps == plan.deep_view(),
            i <= plan.len(),
            i <= attempts.len(),
            forall|k: int|
                0 <= k < i ==> outcome_of(steps[k], (#[trigger] attempts@[k]).0, attempts@[k].1)
                    is Ok,
        decreases plan.len() - i,
    {
        assert(steps[i as int] == plan[i as int]@);
        if plan[i].outcome(attempts[i].0, attempts[i].1).is_err() {
            proof {
                lemma_first_failed(steps, attempts@);
            }
            return Some(i);
        }
        i = i + 1;
    }
    proof {
        lemma_first_failed(steps, attempts@);
    }
    None
}

/// The step of `plan` to try next, after `attempts`.
pub fn next_step(plan: &Vec<Step>, attempts: &Vec<(bool, bool)>) -> (r: Option<usize>)
    ensures
        match r {
            Some(i) => next_to_try(plan.deep_view(), attempts@) == Some(i as int) && i
                < plan.len(),
            None => next_to_try(plan.deep_view(), attempts@) is None,
        },
{
    match find_failed(plan, attempts) {
        Some(_) => None,
        None => if attempts.len() >= plan.len() {
            None
        } else {
            Some(attempts.len())
        },
    }
}

/// What a run of `plan` has come to after `attempts`.
pub fn run_result(plan: &Vec<Step>, attempts: &Vec<(bool, bool)>) -> (r: Result<(), Error>)
    ensures
        match r {
            Ok(_) => run_outcome(plan.deep_view(), attempts@) is Ok,
            Err(e) => run_outcome(plan.deep_view(), attempts@) == Err::<
                (),
                (ErrorKind, Seq<char>),
            >(e@),
        },
{
    match find_failed(plan, attempts) {
        Some(i) => {
            assert(plan.deep_view()[i as int] == plan[i as int]@);
            Err(plan[i].failure())
        },
        None => Ok(()),
    }
}

impl Step {
    /// What this step comes to, once it was tried: `invoked` says whether
    /// it could be run at all, `succeeded` whether it then succeeded.
    pub fn outcome(&self, invoked: bool, succeeded: bool) -> (r: Result<(), Error>)
        ensures
            match r {
                Ok(_) => outcome_of(self@, invoked, succeeded) is Ok,
                Err(e) => outcome_of(self@, invoked, succeeded) == Err::<(), (ErrorKind, Seq<char>)>(
                    e@,
                ),
            },
    {
        let done = match self {
            Step::WasmStrip { dir, file } => invoked,
            _ => invoked && succeeded,
        };
        if done {
            Ok(())
        } else {
            Err(self.failure())
        }
    }

    /// The failure that this step ends in when it cannot be carried out.
    pub fn failure(&self) -> (r: Error)
        ensures
            r@ == failure_of(self@),
    {
        match self {
            Step::MakeDir { path } => Error::CommandFailed(concat("mkdir ", path.as_str())),
            Step::RemoveDir { path } => Error::RemoveDirNotPossible(path.clone()),
            Step::WriteFile { path, content } => Error::CommandFailed(
                concat("write ", path.as_str()),
            ),
            Step::AppendFile { path, content } => Error::CommandFailed(
                concat("append ", path.as_str()),
            ),
            Step::ReplaceInFile { path, from, to } => Error::CommandFailed(
                concat("replace ", path.as_str()),
            ),
            Step::Copy { source, target } => {
                let mut s = String::from_str("cp ");
                s.append(source.as_str());
                s.append(" ");
                s.append(target.as_str());
                Error::CommandFailed(s)
            },
            Step::Rename { path, name } => {
                let mut s = String::from_str("mv ");
                s.append(path.as_str());
                s.append(" ");
                s.append(name.as_str());
                Error::CommandFailed(s)
            },
            Step::Cargo { dir, args, env } => {
                let mut words: Vec<String> = Vec::new();
                assert(words.deep_view() =~= Seq::<Seq<char>>::empty());
                push_text(&mut words, "cargo");
                extend_text(&mut words, args);
                assert(words.deep_view() =~= seq!["cargo"@] + args.deep_view());
                Error::CommandFailed(join_spaced(&words))
            },
            Step::WasmStrip { dir, file } => Error::WasmstripNotInstalled,
            Step::WriteManifest { path, manifest } => Error::CommandFailed(
                concat("write ", path.as_str()),
            ),
            Step::SaveRegistry { path, contracts } => Error::CommandFailed(
                concat("write ", path.as_str()),
            ),
            Step::GenerateProject { source, subfolder, branch, name, define, init } =>
                Error::FailedToGenerateProjectFromTemplate(source.clone()),
        }
    }
}

} // verus!
