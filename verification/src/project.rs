//! The project: where it lies, what it is called, which members it has and
//! where its framework dependency comes from.

use crate::cargo_toml::{
    dep_named, find_dependency, Dependency, DependencyView, DepsView, Manifest, ManifestView,
};
use crate::consts::{CARGO_TOML_FILENAME, ODRA_CRATE_NAME, ODRA_TOML_FILENAME};
use crate::errors::{Error, ErrorKind};
use crate::odra_toml::{Contract, OdraToml};
use crate::paths::{file_name, file_name_of, join, joined_path, parent, parent_of};
use crate::text::same_text;
use vstd::prelude::*;
use vstd::string::*;

verus! {

/// Where the framework dependency comes from.
#[derive(Clone, Debug, PartialEq, Eq)]
pub enum OdraLocation {
    /// A checkout on disk, by its path.
    Local(String),
    /// A repository, and a branch where one is given.
    Remote(String, Option<String>),
    /// A published version.
    CratesIO(String),
}

/// What an `OdraLocation` holds.
pub enum OdraLocationView {
    Local(Seq<char>),
    Remote(Seq<char>, Option<Seq<char>>),
    CratesIO(Seq<char>),
}

impl View for OdraLocation {
    type V = OdraLocationView;

    open spec fn view(&self) -> OdraLocationView {
        match self {
            OdraLocation::Local(p) => OdraLocationView::Local(p@),
            OdraLocation::Remote(r, b) => OdraLocationView::Remote(r@, b.deep_view()),
            OdraLocation::CratesIO(v) => OdraLocationView::CratesIO(v@),
        }
    }
}

impl DeepView for OdraLocation {
    type V = OdraLocationView;

    open spec fn deep_view(&self) -> OdraLocationView {
        self@
    }
}

impl OdraLocation {
    /// A copy of this location.
    pub fn duplicate(&self) -> (r: OdraLocation)
        ensures
            r@ == self@,
    {
        match self {
            OdraLocation::Local(p) => OdraLocation::Local(p.clone()),
            OdraLocation::Remote(r, b) => OdraLocation::Remote(
                r.clone(),
                crate::cargo_toml::copy_opt(b),
            ),
            OdraLocation::CratesIO(v) => OdraLocation::CratesIO(v.clone()),
        }
    }
}

/// A member of the project: a crate of the workspace, or the project
/// itself where it is no workspace.
#[derive(Clone, Debug, PartialEq, Eq)]
pub struct Member {
    /// Name of the member; empty for the project itself.
    pub name: String,
    /// Root directory of the member.
    pub root: String,
    /// Path of the member's build manifest.
    pub cargo_toml: String,
}

/// What a `Member` holds.
pub struct MemberView {
    pub name: Seq<char>,
    pub root: Seq<char>,
    pub cargo_toml: Seq<char>,
}

impl View for Member {
    type V = MemberView;

    open spec fn view(&self) -> MemberView {
        MemberView { name: self.name@, root: self.root@, cargo_toml: self.cargo_toml@ }
    }
}

impl DeepView for Member {
    type V = MemberView;

    open spec fn deep_view(&self) -> MemberView {
        self@
    }
}

/// What was found in one directory: its path and the names, among those
/// looked for, of the files that it holds.
#[derive(Clone, Debug, PartialEq, Eq)]
pub struct DirProbe {
    pub dir: String,
    pub entries: Vec<String>,
}

/// What a `DirProbe` holds.
pub struct DirProbeView {
    pub dir: Seq<char>,
    pub entries: Seq<Seq<char>>,
}

impl View for DirProbe {
    type V = DirProbeView;

    open spec fn view(&self) -> DirProbeView {
        DirProbeView { dir: self.dir@, entries: self.entries.deep_view() }
    }
}

impl DeepView for DirProbe {
    type V = DirProbeView;

    open spec fn deep_view(&self) -> DirProbeView {
        self@
    }
}

/// The whole project.
#[derive(Clone, Debug, PartialEq, Eq)]
pub struct Project {
    /// Name of the project.
    pub name: String,
    /// Root directory of the project.
    pub project_root: String,
    /// Path of the project's build manifest.
    pub cargo_toml_location: String,
    /// Path of the contract registry.
    pub odra_toml_location: String,
    /// Members of the project.
    pub members: Vec<Member>,
}

/// What a `Project` holds.
pub struct ProjectView {
    pub name: Seq<char>,
    pub project_root: Seq<char>,
    pub cargo_toml_location: Seq<char>,
    pub odra_toml_location: Seq<char>,
    pub members: Seq<MemberView>,
}

impl View for Project {
    type V = ProjectView;

    open spec fn view(&self) -> ProjectView {
        ProjectView {
            name: self.name@,
            project_root: self.project_root@,
            cargo_toml_location: self.cargo_toml_location@,
            odra_toml_location: self.odra_toml_location@,
            members: self.members.deep_view(),
        }
    }
}

impl DeepView for Project {
    type V = ProjectView;

    open spec fn deep_view(&self) -> ProjectView {
        self@
    }
}

/// A failure, as contracts speak of it: its kind and the text it is about.
pub type Failure = (ErrorKind, Seq<char>);

/// The place in `probes`, a directory followed by its ancestors, of the
/// first directory that holds `filename`; -1 where none does.
pub open spec fn marked_index(filename: Seq<char>, probes: Seq<DirProbeView>) -> int
    decreases probes.len(),
{
    if probes.len() == 0 {
        -1
    } else if probes[0].entries.contains(filename) {
        0
    } else {
        let rest = marked_index(filename, probes.subrange(1, probes.len() as int));
        if rest < 0 {
            -1
        } else {
            rest + 1
        }
    }
}

/// The path of `filename` in the first directory of `probes` that holds it.
pub open spec fn found_upwards(filename: Seq<char>, probes: Seq<DirProbeView>) -> Option<
    Seq<char>,
> {
    let i = marked_index(filename, probes);
    if 0 <= i < probes.len() {
        Some(joined_path(probes[i].dir, filename))
    } else {
        None
    }
}

/// The path of the build manifest of the project that `probes` lead to: it
/// lies beside the registry, and there is none where the directory of the
/// registry holds no manifest.
pub open spec fn found_cargo_toml(probes: Seq<DirProbeView>) -> Option<Seq<char>> {
    let i = marked_index(ODRA_TOML_FILENAME@, probes);
    if 0 <= i < probes.len() && probes[i].entries.contains(CARGO_TOML_FILENAME@) {
        Some(joined_path(probes[i].dir, CARGO_TOML_FILENAME@))
    } else {
        None
    }
}

/// The members that a manifest declares, in the order of their
/// declaration; none where the manifest has no workspace.
pub open spec fn detected_members(manifest: ManifestView) -> Seq<Seq<char>> {
    match manifest.workspace {
        Some(w) => w.members,
        None => Seq::<Seq<char>>::empty(),
    }
}

/// The member named `name` of the project at `root`.
pub open spec fn member_of(root: Seq<char>, name: Seq<char>) -> MemberView {
    MemberView {
        name,
        root: joined_path(root, name),
        cargo_toml: joined_path(joined_path(root, name), CARGO_TOML_FILENAME@),
    }
}

/// The one member of a project that is no workspace: the project itself,
/// without a name.
pub open spec fn root_member(root: Seq<char>) -> MemberView {
    MemberView {
        name: Seq::<char>::empty(),
        root,
        cargo_toml: joined_path(root, CARGO_TOML_FILENAME@),
    }
}

/// The place of the first of `names` whose manifest under `root` is not
/// among `present`; -1 where each is.
pub open spec fn first_missing(
    root: Seq<char>,
    names: Seq<Seq<char>>,
    present: Seq<Seq<char>>,
) -> int
    decreases names.len(),
{
    if names.len() == 0 {
        -1
    } else if !present.contains(member_of(root, names[0]).cargo_toml) {
        0
    } else {
        let rest = first_missing(root, names.subrange(1, names.len() as int), present);
        if rest < 0 {
            -1
        } else {
            rest + 1
        }
    }
}

/// The members of the project at `root`: one for each of `names`, each
/// with its manifest among `present`; the project itself where `names` is
/// empty. A member whose manifest is not there is a failure that names
/// the manifest.
pub open spec fn resolved_members(
    root: Seq<char>,
    names: Seq<Seq<char>>,
    present: Seq<Seq<char>>,
) -> Result<Seq<MemberView>, Failure> {
    let missing = first_missing(root, names, present);
    if names.len() == 0 {
        Ok(seq![root_member(root)])
    } else if 0 <= missing < names.len() {
        Err((ErrorKind::FailedToReadCargo, member_of(root, names[missing]).cargo_toml))
    } else {
        Ok(Seq::new(names.len(), |i: int| member_of(root, names[i])))
    }
}

/// The project that `probes` lead to. `probes` holds the starting
/// directory and then each of its ancestors, nearest first. The project's
/// root is the first of them that holds the registry, and must hold a build
/// manifest too; `manifest` is what that manifest holds, and `present` the
/// manifests of members that exist. Every member that the manifest
/// declares is a member of the project, and must have its manifest. The
/// project is named after its package, or after its root directory where
/// the manifest declares no package.
pub open spec fn detected(
    probes: Seq<DirProbeView>,
    manifest: ManifestView,
    present: Seq<Seq<char>>,
) -> Result<ProjectView, Failure> {
    let i = marked_index(ODRA_TOML_FILENAME@, probes);
    if !(0 <= i < probes.len()) || found_cargo_toml(probes) is None {
        Err((ErrorKind::NotAnOdraProject, Seq::<char>::empty()))
    } else {
        let root = probes[i].dir;
        match resolved_members(root, detected_members(manifest), present) {
            Err(e) => Err(e),
            Ok(members) => Ok(
                ProjectView {
                    name: match manifest.package {
                        Some(p) => p.0,
                        None => file_name_of(root),
                    },
                    project_root: root,
                    cargo_toml_location: joined_path(root, CARGO_TOML_FILENAME@),
                    odra_toml_location: joined_path(root, ODRA_TOML_FILENAME@),
                    members,
                },
            ),
        }
    }
}

/// The place of the first member named `name`, or -1.
pub open spec fn member_index(members: Seq<MemberView>, name: Seq<char>) -> int
    decreases members.len(),
{
    if members.len() == 0 {
        -1
    } else if members[0].name == name {
        0
    } else {
        let rest = member_index(members.subrange(1, members.len() as int), name);
        if rest < 0 {
            -1
        } else {
            rest + 1
        }
    }
}

/// A project is a workspace where one of its members has a name.
pub open spec fn is_workspace_view(members: Seq<MemberView>) -> bool {
    exists|i: int| 0 <= i < members.len() && (#[trigger] members[i]).name.len() > 0
}

/// The dependency set in which a manifest names the framework: that of
/// the workspace where there is one, the manifest's own where there is
/// none.
pub open spec fn project_deps(manifest: ManifestView) -> DepsView {
    match manifest.workspace {
        None => manifest.dependencies,
        Some(w) => w.dependencies,
    }
}

/// Where a dependency entry says the framework comes from. An entry with a
/// repository is remote, with the branch it names or none. Without one, an
/// entry with a path is local: the checkout is the directory that holds the
/// named crate. With neither, a version is a published one. An entry with
/// none of the three, or with a path that has no parent, is unsupported.
pub open spec fn location_of(dep: DependencyView) -> Result<OdraLocationView, Failure> {
    match dep {
        DependencyView::Simple(v) => Ok(OdraLocationView::CratesIO(v)),
        DependencyView::Detailed(d) => {
            if d.git is Some {
                Ok(OdraLocationView::Remote(d.git->0, d.branch))
            } else if d.path is Some && parent_of(d.path->0) is Some {
                Ok(OdraLocationView::Local(parent_of(d.path->0)->0))
            } else if d.path is None && d.version is Some {
                Ok(OdraLocationView::CratesIO(d.version->0))
            } else {
                Err((ErrorKind::FailedToReadCargo, "Unsupported location of Odra."@))
            }
        },
    }
}

/// Where a manifest says the framework comes from; a manifest that does not
/// depend on the framework is a failure of its own.
pub open spec fn project_location(manifest: ManifestView) -> Result<OdraLocationView, Failure> {
    match dep_named(project_deps(manifest), ODRA_CRATE_NAME@) {
        None => Err((ErrorKind::OdraNotADependency, Seq::<char>::empty())),
        Some(dep) => location_of(dep),
    }
}

/// What the place of the first directory that holds `filename` is: a
/// directory that holds it, with none before it that does.
pub proof fn lemma_marked_index(filename: Seq<char>, probes: Seq<DirProbeView>)
    ensures
        -1 <= marked_index(filename, probes) < probes.len(),
        marked_index(filename, probes) >= 0 ==> probes[marked_index(
            filename,
            probes,
        )].entries.contains(filename),
        forall|k: int|
            0 <= k < probes.len() && (marked_index(filename, probes) < 0 || k < marked_index(
                filename,
                probes,
            )) ==> !(#[trigger] probes[k]).entries.contains(filename),
    decreases probes.len(),
{
    if probes.len() > 0 && !probes[0].entries.contains(filename) {
        let rest = probes.subrange(1, probes.len() as int);
        lemma_marked_index(filename, rest);
        assert forall|k: int|
            0 <= k < probes.len() && (marked_index(filename, probes) < 0 || k < marked_index(
                filename,
                probes,
            )) implies !(#[trigger] probes[k]).entries.contains(filename) by {
            if k > 0 {
                assert(probes[k] == rest[k - 1]);
            }
        }
    }
}

/// The first directory of `probes` that holds `filename` is at `i` if that
/// one holds it and none before it does.
pub proof fn lemma_marked_index_is(filename: Seq<char>, probes: Seq<DirProbeView>, i: int)
    requires
        0 <= i < probes.len(),
        probes[i].entries.contains(filename),
        forall|k: int| 0 <= k < i ==> !(#[trigger] probes[k]).entries.contains(filename),
    ensures
        marked_index(filename, probes) == i,
{
    lemma_marked_index(filename, probes);
}

/// Directories that do not hold `filename` can be dropped from the front
/// of `probes`: the search finds the same directory without them.
pub proof fn lemma_skip_unmarked(filename: Seq<char>, probes: Seq<DirProbeView>, k: int)
    requires
        0 <= k <= probes.len(),
        forall|j: int| 0 <= j < k ==> !(#[trigger] probes[j]).entries.contains(filename),
    ensures
        ({
            let rest = probes.subrange(k, probes.len() as int);
            let a = marked_index(filename, probes);
            let b = marked_index(filename, rest);
            &&& (a < 0 <==> b < 0)
            &&& a >= 0 ==> a == b + k && probes[a] == rest[b]
        }),
{
    let rest = probes.subrange(k, probes.len() as int);
    lemma_marked_index(filename, probes);
    lemma_marked_index(filename, rest);
    let a = marked_index(filename, probes);
    let b = marked_index(filename, rest);
    if b >= 0 {
        assert(rest[b] == probes[b + k]);
        assert forall|j: int| 0 <= j < b + k implies !(#[trigger] probes[j]).entries.contains(
            filename,
        ) by {
            if j >= k {
                assert(probes[j] == rest[j - k]);
            }
        }
        lemma_marked_index_is(filename, probes, b + k);
    } else {
        if a >= 0 {
            assert(a >= k);
            assert(rest[a - k] == probes[a]);
        }
    }
}

/// Detection from a directory nested in a project gives the project that
/// detection from the project's root gives. `probes` starts at the nested
/// directory; its first `k` directories are the ones below the root, none
/// of which holds a registry of its own.
pub proof fn lemma_detect_from_nested(
    probes: Seq<DirProbeView>,
    k: int,
    manifest: ManifestView,
    present: Seq<Seq<char>>,
)
    requires
        0 <= k <= probes.len(),
        forall|j: int| 0 <= j < k ==> !(#[trigger] probes[j]).entries.contains(ODRA_TOML_FILENAME@),
    ensures
        detected(probes, manifest, present) == detected(
            probes.subrange(k, probes.len() as int),
            manifest,
            present,
        ),
        found_upwards(ODRA_TOML_FILENAME@, probes) == found_upwards(
            ODRA_TOML_FILENAME@,
            probes.subrange(k, probes.len() as int),
        ),
        found_cargo_toml(probes) == found_cargo_toml(probes.subrange(k, probes.len() as int)),
{
    lemma_skip_unmarked(ODRA_TOML_FILENAME@, probes, k);
}

/// What is found on the way up from `path`: the path and each of its
/// ancestors, nearest first, each with the files that `disk` says it
/// holds.
pub open spec fn probes_from(
    path: Seq<char>,
    disk: spec_fn(Seq<char>) -> Seq<Seq<char>>,
) -> Seq<DirProbeView> {
    Seq::new(
        crate::paths::ancestors_of(path).len(),
        |i: int|
            DirProbeView {
                dir: crate::paths::ancestors_of(path)[i],
                entries: disk(crate::paths::ancestors_of(path)[i]),
            },
    )
}

/// Detection from a directory nested in a project gives the project that
/// detection from the project's root gives. `root` is the ancestor of
/// `start` at place `k`; none of the directories below it on the way holds
/// a registry of its own.
pub proof fn lemma_detect_from_nested_directory(
    start: Seq<char>,
    k: int,
    disk: spec_fn(Seq<char>) -> Seq<Seq<char>>,
    manifest: ManifestView,
    present: Seq<Seq<char>>,
)
    requires
        0 <= k < crate::paths::ancestors_of(start).len(),
        forall|j: int|
            0 <= j < k ==> !disk(#[trigger] crate::paths::ancestors_of(start)[j]).contains(
                ODRA_TOML_FILENAME@,
            ),
    ensures
        detected(probes_from(start, disk), manifest, present) == detected(
            probes_from(crate::paths::ancestors_of(start)[k], disk),
            manifest,
            present,
        ),
{
    let all = crate::paths::ancestors_of(start);
    let root = all[k];
    let probes = probes_from(start, disk);
    crate::paths::lemma_ancestors_suffix(start, k);
    assert(probes.subrange(k, probes.len() as int) =~= probes_from(root, disk)) by {
        let upper = crate::paths::ancestors_of(root);
        assert(upper == all.subrange(k, all.len() as int));
        assert forall|i: int| 0 <= i < upper.len() implies upper[i] == all[i + k] by {}
    }
    assert forall|j: int| 0 <= j < k implies !(#[trigger] probes[j]).entries.contains(
        ODRA_TOML_FILENAME@,
    ) by {
        assert(probes[j].entries == disk(all[j]));
    }
    lemma_detect_from_nested(probes, k, manifest, present);
}

/// Whether `names` holds `name`.
pub fn holds_name(names: &Vec<String>, name: &str) -> (r: bool)
    ensures
        r == names.deep_view().contains(name@),
{
    let ghost all = names.deep_view();
    let mut i: usize = 0;
    while i < names.len()
        invariant
            all == names.deep_view(),
            i <= names.len(),
            forall|k: int| 0 <= k < i ==> all[k] != name@,
        decreases names.len() - i,
    {
        assert(all[i as int] == names[i as int]@);
        if same_text(names[i].as_str(), name) {
            return true;
        }
        i = i + 1;
    }
    false
}

/// The place in `probes` of the first directory that holds `filename`.
pub fn find_marked(filename: &str, probes: &Vec<DirProbe>) -> (r: Option<usize>)
    ensures
        match r {
            Some(i) => i as int == marked_index(filename@, probes.deep_view()) && i
                < probes.len(),
            None => marked_index(filename@, probes.deep_view()) < 0,
        },
{
    let ghost all = probes.deep_view();
    let mut i: usize = 0;
    while i < probes.len()
        invariant
            all == probes.deep_view(),
            i <= probes.len(),
            forall|k: int| 0 <= k < i ==> !(#[trigger] all[k]).entries.contains(filename@),
        decreases probes.len() - i,
    {
        assert(all[i as int] == probes[i as int]@);
        if holds_name(&probes[i].entries, filename) {
            proof {
                lemma_marked_index_is(filename@, all, i as int);
            }
            return Some(i);
        }
        i = i + 1;
    }
    proof {
        lemma_marked_index(filename@, all);
    }
    None
}

impl Project {
    /// Searches `probes`, a directory followed by its ancestors, for the
    /// first directory that holds `filename`, and gives the file's path.
    pub fn find_file_upwards(filename: &str, probes: &Vec<DirProbe>) -> (r: Option<String>)
        ensures
            r.deep_view() == found_upwards(filename@, probes.deep_view()),
    {
        match find_marked(filename, probes) {
            None => None,
            Some(i) => {
                assert(probes.deep_view()[i as int] == probes[i as int]@);
                Some(join(probes[i].dir.as_str(), filename))
            },
        }
    }

    /// The path of the registry of the project that `probes` lead to.
    pub fn find_odra_toml(probes: &Vec<DirProbe>) -> (r: Option<String>)
        ensures
            r.deep_view() == found_upwards(ODRA_TOML_FILENAME@, probes.deep_view()),
    {
        Self::find_file_upwards(ODRA_TOML_FILENAME, probes)
    }

    /// The path of the build manifest of the project that `probes` lead to.
    pub fn find_cargo_toml(probes: &Vec<DirProbe>) -> (r: Option<String>)
        ensures
            r.deep_view() == found_cargo_toml(probes.deep_view()),
    {
        match find_marked(ODRA_TOML_FILENAME, probes) {
            None => None,
            Some(i) => {
                assert(probes.deep_view()[i as int] == probes[i as int]@);
                if holds_name(&probes[i].entries, CARGO_TOML_FILENAME) {
                    Some(join(probes[i].dir.as_str(), CARGO_TOML_FILENAME))
                } else {
                    None
                }
            },
        }
    }

    /// The members that `manifest` declares, each as its name and its path
    /// under the project's root.
    pub fn detect_members(manifest: &Manifest) -> (r: Vec<(String, String)>)
        ensures
            r.len() == detected_members(manifest@).len(),
            forall|i: int|
                0 <= i < r.len() ==> {
                    &&& (#[trigger] r[i]).0@ == detected_members(manifest@)[i]
                    &&& r[i].1@ == r[i].0@
                },
    {
        let mut out: Vec<(String, String)> = Vec::new();
        match &manifest.workspace {
            None => {},
            Some(w) => {
                let ghost declared = w.members.deep_view();
                let mut i: usize = 0;
                while i < w.members.len()
                    invariant
                        declared == w.members.deep_view(),
                        i <= w.members.len(),
                        out.len() == i,
                        forall|k: int|
                            0 <= k < i ==> {
                                &&& (#[trigger] out[k]).0@ == declared[k]
                                &&& out[k].1@ == out[k].0@
                            },
                    decreases w.members.len() - i,
                {
                    assert(declared[i as int] == w.members[i as int]@);
                    out.push((w.members[i].clone(), w.members[i].clone()));
                    i = i + 1;
                }
            },
        }
        out
    }

    /// The members of the project at `root`: one for each member that
    /// `manifest` declares, in the order of their declaration. `present`
    /// lists the manifests of members that exist; a declared member whose
    /// manifest is not among them is a failure.
    pub fn members(root: &str, manifest: &Manifest, present: &Vec<String>) -> (r: Result<Vec<Member>, Error>)
        ensures
            match r {
                Ok(m) => resolved_members(
                    root@,
                    detected_members(manifest@),
                    present.deep_view(),
                ) == Ok::<Seq<MemberView>, Failure>(m.deep_view()),
                Err(e) => resolved_members(
                    root@,
                    detected_members(manifest@),
                    present.deep_view(),
                ) == Err::<Seq<MemberView>, Failure>(e@),
            },
    {
        let detected = Self::detect_members(manifest);
        let ghost names = detected_members(manifest@);
        let mut out: Vec<Member> = Vec::new();
        if detected.len() == 0 {
            out.push(
                Member {
                    name: String::new(),
                    root: String::from_str(root),
                    cargo_toml: join(root, CARGO_TOML_FILENAME),
                },
            );
            assert(out.deep_view() =~= seq![root_member(root@)]);
            return Ok(out);
        }
        let mut i: usize = 0;
        assert(names.subrange(0, names.len() as int) =~= names);
        while i < detected.len()
            invariant
                names == detected_members(manifest@),
                i <= detected.len(),
                detected.len() == names.len(),
                forall|k: int| 0 <= k < detected.len() ==> (#[trigger] detected[k]).0@ == names[k],
                forall|k: int| 0 <= k < detected.len() ==> (#[trigger] detected[k]).1@ == names[k],
                out.len() == i,
                forall|k: int| 0 <= k < i ==> (#[trigger] out[k])@ == member_of(root@, names[k]),
                forall|k: int|
                    0 <= k < i ==> present.deep_view().contains(
                        member_of(root@, #[trigger] names[k]).cargo_toml,
                    ),
            decreases detected.len() - i,
        {
            let member_root = join(root, detected[i].1.as_str());
            let cargo_toml = join(member_root.as_str(), CARGO_TOML_FILENAME);
            if !holds_name(present, cargo_toml.as_str()) {
                proof {
                    lemma_first_missing_is(root@, names, present.deep_view(), i as int);
                }
                return Err(Error::FailedToReadCargo(cargo_toml));
            }
            out.push(Member { name: detected[i].0.clone(), root: member_root, cargo_toml });
            i = i + 1;
        }
        proof {
            lemma_none_missing(root@, names, present.deep_view());
            assert(out.deep_view() =~= Seq::new(names.len(), |k: int| member_of(root@, names[k])));
        }
        Ok(out)
    }

    /// Detects the project that `probes` lead to.
    pub fn detect(probes: &Vec<DirProbe>, manifest: &Manifest, present: &Vec<String>) -> (r:
        Result<Project, Error>)
        ensures
            match r {
                Ok(p) => detected(probes.deep_view(), manifest@, present.deep_view()) == Ok::<
                    ProjectView,
                    Failure,
                >(p@),
                Err(e) => detected(probes.deep_view(), manifest@, present.deep_view()) == Err::<
                    ProjectView,
                    Failure,
                >(e@),
            },
    {
        let found = find_marked(ODRA_TOML_FILENAME, probes);
        let cargo = Self::find_cargo_toml(probes);
        match (found, cargo) {
            (Some(i), Some(cargo_toml_location)) => {
                assert(probes.deep_view()[i as int] == probes[i as int]@);
                let root = probes[i].dir.clone();
                let members = Self::members(root.as_str(), manifest, present)?;
                let name = match &manifest.package {
                    Some(p) => p.name.clone(),
                    None => file_name(root.as_str()),
                };
                let odra_toml_location = join(root.as_str(), ODRA_TOML_FILENAME);
                Ok(
                    Project {
                        name,
                        project_root: root,
                        cargo_toml_location,
                        odra_toml_location,
                        members,
                    },
                )
            },
            _ => Err(Error::NotAnOdraProject),
        }
    }

    /// The place of the first member named `name`.
    pub fn find_member(&self, name: &str) -> (r: Option<usize>)
        ensures
            match r {
                Some(i) => i as int == member_index(self.members.deep_view(), name@) && i
                    < self.members.len(),
                None => member_index(self.members.deep_view(), name@) < 0,
            },
    {
        let ghost all = self.members.deep_view();
        let mut i: usize = 0;
        while i < self.members.len()
            invariant
                all == self.members.deep_view(),
                i <= self.members.len(),
                forall|k: int| 0 <= k < i ==> (#[trigger] all[k]).name != name@,
            decreases self.members.len() - i,
        {
            assert(all[i as int] == self.members[i as int]@);
            if same_text(self.members[i].name.as_str(), name) {
                proof {
                    lemma_member_index(all, name@);
                }
                return Some(i);
            }
            i = i + 1;
        }
        proof {
            lemma_member_index(all, name@);
        }
        None
    }

    /// Root directory of a module: of the project where no module is
    /// named; else of the member of that name, and a failure where there is
    /// none.
    pub fn module_root(&self, module_name: Option<String>) -> (r: Result<String, Error>)
        ensures
            match module_name {
                None => r is Ok && r->Ok_0@ == self.project_root@,
                Some(m) => {
                    let i = member_index(self.members.deep_view(), m@);
                    if i >= 0 {
                        r is Ok && r->Ok_0@ == self.members.deep_view()[i].root
                    } else {
                        r is Err && r->Err_0@ == (ErrorKind::ModuleNotFound, m@)
                    }
                },
            },
    {
        match module_name {
            None => Ok(self.project_root.clone()),
            Some(m) => match self.find_member(m.as_str()) {
                Some(i) => {
                    assert(self.members.deep_view()[i as int] == self.members[i as int]@);
                    Ok(self.members[i].root.clone())
                },
                None => Err(Error::ModuleNotFound(m)),
            },
        }
    }

    /// Name of a module: of the project where no module is named; else of
    /// the member of that name, and a failure where there is none.
    pub fn module_name(&self, module_name: Option<String>) -> (r: Result<String, Error>)
        ensures
            match module_name {
                None => r is Ok && r->Ok_0@ == self.name@,
                Some(m) => {
                    if member_index(self.members.deep_view(), m@) >= 0 {
                        r is Ok && r->Ok_0@ == m@
                    } else {
                        r is Err && r->Err_0@ == (ErrorKind::ModuleNotFound, m@)
                    }
                },
            },
    {
        match module_name {
            None => Ok(self.name.clone()),
            Some(m) => match self.find_member(m.as_str()) {
                Some(i) => {
                    proof {
                        lemma_member_index(self.members.deep_view(), m@);
                        assert(self.members.deep_view()[i as int] == self.members[i as int]@);
                    }
                    Ok(self.members[i].name.clone())
                },
                None => Err(Error::ModuleNotFound(m)),
            },
        }
    }

    /// Whether the project is a workspace.
    pub fn is_workspace(&self) -> (r: bool)
        ensures
            r == is_workspace_view(self.members.deep_view()),
    {
        let ghost all = self.members.deep_view();
        let mut i: usize = 0;
        while i < self.members.len()
            invariant
                all == self.members.deep_view(),
                i <= self.members.len(),
                forall|k: int| 0 <= k < i ==> (#[trigger] all[k]).name.len() == 0,
            decreases self.members.len() - i,
        {
            assert(all[i as int] == self.members[i as int]@);
            if self.members[i].name.as_str().unicode_len() > 0 {
                return true;
            }
            i = i + 1;
        }
        false
    }

    /// Root directory of the project.
    pub fn project_root(&self) -> (r: String)
        ensures
            r@ == self.project_root@,
    {
        self.project_root.clone()
    }

    /// The project's registry: `contracts`, read from the registry's place.
    pub fn odra_toml(&self, contracts: Vec<Contract>) -> (r: OdraToml)
        ensures
            r.contracts == contracts,
            r.location@ == self.odra_toml_location@,
    {
        OdraToml { contracts, location: self.odra_toml_location.clone() }
    }

    /// Where the project's framework dependency comes from, as `manifest`,
    /// the project's build manifest, names it.
    pub fn project_odra_location(&self, manifest: &Manifest) -> (r: Result<OdraLocation, Error>)
        ensures
            match r {
                Ok(l) => project_location(manifest@) == Ok::<OdraLocationView, Failure>(l@),
                Err(e) => project_location(manifest@) == Err::<OdraLocationView, Failure>(e@),
            },
    {
        let deps = match &manifest.workspace {
            None => &manifest.dependencies,
            Some(w) => &w.dependencies,
        };
        match find_dependency(deps, ODRA_CRATE_NAME) {
            None => Err(Error::OdraNotADependency),
            Some(i) => {
                assert(deps.deep_view()[i as int] == (deps[i as int].0@, deps[i as int].1@));
                location_from_dependency(&deps[i].1)
            },
        }
    }
}

/// Where a dependency entry says the framework comes from.
pub fn location_from_dependency(dep: &Dependency) -> (r: Result<OdraLocation, Error>)
    ensures
        match r {
            Ok(l) => location_of(dep@) == Ok::<OdraLocationView, Failure>(l@),
            Err(e) => location_of(dep@) == Err::<OdraLocationView, Failure>(e@),
        },
{
    match dep {
        Dependency::Simple(v) => Ok(OdraLocation::CratesIO(v.clone())),
        Dependency::Detailed(d) => {
            match (&d.git, &d.path, &d.version) {
                (Some(git), _, _) => Ok(
                    OdraLocation::Remote(git.clone(), crate::cargo_toml::copy_opt(&d.branch)),
                ),
                (None, Some(path), _) => match parent(path.as_str()) {
                    Some(dir) => Ok(OdraLocation::Local(dir)),
                    None => Err(
                        Error::FailedToReadCargo(String::from_str("Unsupported location of Odra.")),
                    ),
                },
                (None, None, Some(version)) => Ok(OdraLocation::CratesIO(version.clone())),
                (None, None, None) => Err(
                    Error::FailedToReadCargo(String::from_str("Unsupported location of Odra.")),
                ),
            }
        },
    }
}

/// What the place of the first member named `name` is: a member of that
/// name, with none before it of that name.
pub proof fn lemma_member_index(members: Seq<MemberView>, name: Seq<char>)
    ensures
        -1 <= member_index(members, name) < members.len(),
        member_index(members, name) >= 0 ==> members[member_index(members, name)].name == name,
        forall|k: int|
            0 <= k < members.len() && (member_index(members, name) < 0 || k < member_index(
                members,
                name,
            )) ==> (#[trigger] members[k]).name != name,
    decreases members.len(),
{
    if members.len() > 0 && members[0].name != name {
        let rest = members.subrange(1, members.len() as int);
        lemma_member_index(rest, name);
        assert forall|k: int|
            0 <= k < members.len() && (member_index(members, name) < 0 || k < member_index(
                members,
                name,
            )) implies (#[trigger] members[k]).name != name by {
            if k > 0 {
                assert(members[k] == rest[k - 1]);
            }
        }
    }
}

/// What the place of the first member without manifest is: a member whose
/// manifest is not among `present`, with the manifest of each before it
/// among them.
pub proof fn lemma_first_missing(root: Seq<char>, names: Seq<Seq<char>>, present: Seq<Seq<char>>)
    ensures
        -1 <= first_missing(root, names, present) < names.len(),
        first_missing(root, names, present) >= 0 ==> !present.contains(
            member_of(root, names[first_missing(root, names, present)]).cargo_toml,
        ),
        forall|k: int|
            0 <= k < names.len() && (first_missing(root, names, present) < 0 || k < first_missing(
                root,
                names,
                present,
            )) ==> present.contains(member_of(root, #[trigger] names[k]).cargo_toml),
    decreases names.len(),
{
    if names.len() > 0 && present.contains(member_of(root, names[0]).cargo_toml) {
        let rest = names.subrange(1, names.len() as int);
        lemma_first_missing(root, rest, present);
        assert forall|k: int|
            0 <= k < names.len() && (first_missing(root, names, present) < 0 || k < first_missing(
                root,
                names,
                present,
            )) implies present.contains(member_of(root, #[trigger] names[k]).cargo_toml) by {
            if k > 0 {
                assert(names[k] == rest[k - 1]);
            }
        }
    }
}

/// The first member without manifest is at `i` if that one's is missing
/// and that of none before it is.
pub proof fn lemma_first_missing_is(
    root: Seq<char>,
    names: Seq<Seq<char>>,
    present: Seq<Seq<char>>,
    i: int,
)
    requires
        0 <= i < names.len(),
        !present.contains(member_of(root, names[i]).cargo_toml),
        forall|k: int|
            0 <= k < i ==> present.contains(member_of(root, #[trigger] names[k]).cargo_toml),
    ensures
        first_missing(root, names, present) == i,
{
    lemma_first_missing(root, names, present);
}

/// No member is without manifest where the manifest of each is among
/// `present`.
pub proof fn lemma_none_missing(root: Seq<char>, names: Seq<Seq<char>>, present: Seq<Seq<char>>)
    requires
        forall|k: int|
            0 <= k < names.len() ==> present.contains(
                member_of(root, #[trigger] names[k]).cargo_toml,
            ),
    ensures
        first_missing(root, names, present) < 0,
{
    lemma_first_missing(root, names, present);
}

} // verus!
