//! The build manifest, as far as this crate reads and writes it: the
//! package's identity, the workspace's members, the dependency set and the
//! binary targets.

use crate::errors::{Error, ErrorKind};
use crate::text::same_text;
use vstd::prelude::*;
use vstd::string::*;

verus! {

/// A dependency given with its fields.
#[derive(Clone, Debug, PartialEq, Eq)]
pub struct DependencyDetail {
    pub version: Option<String>,
    pub package: Option<String>,
    pub registry: Option<String>,
    pub registry_index: Option<String>,
    pub path: Option<String>,
    pub git: Option<String>,
    pub branch: Option<String>,
    pub tag: Option<String>,
    pub rev: Option<String>,
    pub features: Vec<String>,
    pub optional: bool,
    pub default_features: bool,
}

/// What a `DependencyDetail` holds.
pub struct DependencyDetailView {
    pub version: Option<Seq<char>>,
    pub package: Option<Seq<char>>,
    pub registry: Option<Seq<char>>,
    pub registry_index: Option<Seq<char>>,
    pub path: Option<Seq<char>>,
    pub git: Option<Seq<char>>,
    pub branch: Option<Seq<char>>,
    pub tag: Option<Seq<char>>,
    pub rev: Option<Seq<char>>,
    pub features: Seq<Seq<char>>,
    pub optional: bool,
    pub default_features: bool,
}

impl View for DependencyDetail {
    type V = DependencyDetailView;

    open spec fn view(&self) -> DependencyDetailView {
        DependencyDetailView {
            version: self.version.deep_view(),
            package: self.package.deep_view(),
            registry: self.registry.deep_view(),
            registry_index: self.registry_index.deep_view(),
            path: self.path.deep_view(),
            git: self.git.deep_view(),
            branch: self.branch.deep_view(),
            tag: self.tag.deep_view(),
            rev: self.rev.deep_view(),
            features: self.features.deep_view(),
            optional: self.optional,
            default_features: self.default_features,
        }
    }
}

impl DeepView for DependencyDetail {
    type V = DependencyDetailView;

    open spec fn deep_view(&self) -> DependencyDetailView {
        self@
    }
}

/// The dependency that names nothing: no source, no features, not
/// optional, default features on.
pub open spec fn empty_detail() -> DependencyDetailView {
    DependencyDetailView {
        version: None,
        package: None,
        registry: None,
        registry_index: None,
        path: None,
        git: None,
        branch: None,
        tag: None,
        rev: None,
        features: Seq::empty(),
        optional: false,
        default_features: true,
    }
}

/// A dependency: a bare version requirement, or its fields.
#[derive(Clone, Debug, PartialEq, Eq)]
pub enum Dependency {
    Simple(String),
    Detailed(DependencyDetail),
}

/// What a `Dependency` holds.
pub enum DependencyView {
    Simple(Seq<char>),
    Detailed(DependencyDetailView),
}

impl View for Dependency {
    type V = DependencyView;

    open spec fn view(&self) -> DependencyView {
        match self {
            Dependency::Simple(v) => DependencyView::Simple(v@),
            Dependency::Detailed(d) => DependencyView::Detailed(d@),
        }
    }
}

impl DeepView for Dependency {
    type V = DependencyView;

    open spec fn deep_view(&self) -> DependencyView {
        self@
    }
}

/// A dependency set, by name.
pub type DepsView = Seq<(Seq<char>, DependencyView)>;

/// A binary target, and which of the toolchain's doings take it in.
#[derive(Clone, Debug, PartialEq, Eq)]
pub struct Product {
    pub name: String,
    pub path: String,
    pub test: bool,
    pub doctest: bool,
    pub bench: bool,
    pub doc: bool,
    pub harness: bool,
}

/// What a `Product` holds.
pub struct ProductView {
    pub name: Seq<char>,
    pub path: Seq<char>,
    pub test: bool,
    pub doctest: bool,
    pub bench: bool,
    pub doc: bool,
    pub harness: bool,
}

impl View for Product {
    type V = ProductView;

    open spec fn view(&self) -> ProductView {
        ProductView {
            name: self.name@,
            path: self.path@,
            test: self.test,
            doctest: self.doctest,
            bench: self.bench,
            doc: self.doc,
            harness: self.harness,
        }
    }
}

impl DeepView for Product {
    type V = ProductView;

    open spec fn deep_view(&self) -> ProductView {
        self@
    }
}

/// The binary target `name` with its source at `path`, which is built and
/// nothing else: not tested, not benchmarked, not documented.
pub open spec fn plain_binary(name: Seq<char>, path: Seq<char>) -> ProductView {
    ProductView {
        name,
        path,
        test: false,
        doctest: false,
        bench: false,
        doc: false,
        harness: false,
    }
}

impl Product {
    /// The binary target `name` with its source at `path`, which is built
    /// and nothing else.
    pub fn binary(name: String, path: String) -> (r: Product)
        ensures
            r@ == plain_binary(name@, path@),
    {
        Product { name, path, test: false, doctest: false, bench: false, doc: false, harness: false }
    }
}

/// A package's identity.
#[derive(Clone, Debug, PartialEq, Eq)]
pub struct Package {
    pub name: String,
    pub version: String,
}

impl View for Package {
    type V = (Seq<char>, Seq<char>);

    /// The package's name and version.
    open spec fn view(&self) -> (Seq<char>, Seq<char>) {
        (self.name@, self.version@)
    }
}

impl DeepView for Package {
    type V = (Seq<char>, Seq<char>);

    open spec fn deep_view(&self) -> (Seq<char>, Seq<char>) {
        self@
    }
}

/// The workspace section of a manifest.
#[derive(Clone, Debug, PartialEq, Eq)]
pub struct Workspace {
    pub members: Vec<String>,
    pub dependencies: Vec<(String, Dependency)>,
}

/// What a `Workspace` holds.
pub struct WorkspaceView {
    pub members: Seq<Seq<char>>,
    pub dependencies: DepsView,
}

impl View for Workspace {
    type V = WorkspaceView;

    open spec fn view(&self) -> WorkspaceView {
        WorkspaceView {
            members: self.members.deep_view(),
            dependencies: self.dependencies.deep_view(),
        }
    }
}

impl DeepView for Workspace {
    type V = WorkspaceView;

    open spec fn deep_view(&self) -> WorkspaceView {
        self@
    }
}

/// A build manifest.
#[derive(Clone, Debug, PartialEq, Eq)]
pub struct Manifest {
    pub package: Option<Package>,
    pub workspace: Option<Workspace>,
    pub dependencies: Vec<(String, Dependency)>,
    pub bin: Vec<Product>,
}

/// What a `Manifest` holds.
pub struct ManifestView {
    pub package: Option<(Seq<char>, Seq<char>)>,
    pub workspace: Option<WorkspaceView>,
    pub dependencies: DepsView,
    pub bin: Seq<ProductView>,
}

impl View for Manifest {
    type V = ManifestView;

    open spec fn view(&self) -> ManifestView {
        ManifestView {
            package: self.package.deep_view(),
            workspace: self.workspace.deep_view(),
            dependencies: self.dependencies.deep_view(),
            bin: self.bin.deep_view(),
        }
    }
}

impl DeepView for Manifest {
    type V = ManifestView;

    open spec fn deep_view(&self) -> ManifestView {
        self@
    }
}

/// The index of the first entry of `deps` named `name`, or -1.
pub open spec fn dep_index(deps: DepsView, name: Seq<char>) -> int
    decreases deps.len(),
{
    if deps.len() == 0 {
        -1
    } else if deps[0].0 == name {
        0
    } else {
        let rest = dep_index(deps.subrange(1, deps.len() as int), name);
        if rest < 0 {
            -1
        } else {
            rest + 1
        }
    }
}

/// The dependency that `deps` holds under `name`.
pub open spec fn dep_named(deps: DepsView, name: Seq<char>) -> Option<DependencyView> {
    let i = dep_index(deps, name);
    if 0 <= i < deps.len() {
        Some(deps[i].1)
    } else {
        None
    }
}

/// `deps` with `dep` under `name`: in the place of the entry of that name
/// where there is one, at the end where there is none.
pub open spec fn dep_inserted(deps: DepsView, name: Seq<char>, dep: DependencyView) -> DepsView {
    let i = dep_index(deps, name);
    if 0 <= i < deps.len() {
        deps.update(i, (name, dep))
    } else {
        deps.push((name, dep))
    }
}

/// No two entries of `deps` have the same name.
pub open spec fn names_distinct(deps: DepsView) -> bool {
    forall|i: int, j: int|
        0 <= i < deps.len() && 0 <= j < deps.len() && i != j ==> (#[trigger] deps[i]).0 != (
        #[trigger] deps[j]).0
}

/// What the place of the first entry named `name` is: an entry of that
/// name, with none before it of that name.
pub proof fn lemma_dep_index(deps: DepsView, name: Seq<char>)
    ensures
        -1 <= dep_index(deps, name) < deps.len(),
        dep_index(deps, name) >= 0 ==> deps[dep_index(deps, name)].0 == name,
        forall|k: int|
            0 <= k < deps.len() && (dep_index(deps, name) < 0 || k < dep_index(deps, name))
                ==> (#[trigger] deps[k]).0 != name,
    decreases deps.len(),
{
    if deps.len() > 0 && deps[0].0 != name {
        let rest = deps.subrange(1, deps.len() as int);
        lemma_dep_index(rest, name);
        assert forall|k: int|
            0 <= k < deps.len() && (dep_index(deps, name) < 0 || k < dep_index(
                deps,
                name,
            )) implies (#[trigger] deps[k]).0 != name by {
            if k > 0 {
                assert(deps[k] == rest[k - 1]);
            }
        }
    }
}

/// Inserting into a set whose names are distinct leaves them distinct, and
/// the set then holds the new dependency under its name and every other
/// one as before.
pub proof fn lemma_dep_inserted(
    deps: DepsView,
    name: Seq<char>,
    dep: DependencyView,
    other: Seq<char>,
)
    requires
        names_distinct(deps),
    ensures
        names_distinct(dep_inserted(deps, name, dep)),
        dep_named(dep_inserted(deps, name, dep), name) == Some(dep),
        other != name ==> dep_named(dep_inserted(deps, name, dep), other) == dep_named(
            deps,
            other,
        ),
{
    let after = dep_inserted(deps, name, dep);
    lemma_dep_index(deps, name);
    lemma_dep_index(deps, other);
    lemma_dep_index(after, name);
    lemma_dep_index(after, other);
    let i = dep_index(deps, name);
    if 0 <= i {
        assert(after[i].0 == name);
        assert forall|a: int, b: int|
            0 <= a < after.len() && 0 <= b < after.len() && a != b implies (#[trigger] after[a]).0
            != (#[trigger] after[b]).0 by {
            assert(after[a].0 == deps[a].0);
            assert(after[b].0 == deps[b].0);
        }
        assert(dep_index(after, name) == i) by {
            let j = dep_index(after, name);
            if j < 0 {
                assert(after[i].0 != name);
            } else if j != i {
                assert(after[j].0 != after[i].0);
            }
        }
    } else {
        let n = deps.len() as int;
        assert(after[n].0 == name);
        assert forall|a: int, b: int|
            0 <= a < after.len() && 0 <= b < after.len() && a != b implies (#[trigger] after[a]).0
            != (#[trigger] after[b]).0 by {
            if a < n {
                assert(after[a] == deps[a]);
            }
            if b < n {
                assert(after[b] == deps[b]);
            }
        }
        assert(dep_index(after, name) == n) by {
            let j = dep_index(after, name);
            if j < 0 {
                assert(after[n].0 != name);
            } else if j != n {
                assert(after[j] == deps[j]);
            }
        }
    }
    if other != name {
        let a = dep_index(deps, other);
        let b = dep_index(after, other);
        if a >= 0 {
            assert(after[a].0 == other);
            assert(after[a].1 == deps[a].1);
            if b < 0 {
                assert(after[a].0 != other);
            } else if b != a {
                assert(after[a].0 != after[b].0);
            }
        } else {
            if b >= 0 {
                if b < deps.len() {
                    assert(deps[b].0 == after[b].0);
                    assert(deps[b].0 != other);
                }
            }
        }
    }
}

/// A copy of an optional string.
pub fn copy_opt(s: &Option<String>) -> (r: Option<String>)
    ensures
        r.deep_view() == s.deep_view(),
{
    match s {
        None => None,
        Some(x) => Some(x.clone()),
    }
}

/// A copy of a list of strings.
pub fn copy_strings(v: &Vec<String>) -> (r: Vec<String>)
    ensures
        r.deep_view() == v.deep_view(),
{
    let mut out: Vec<String> = Vec::new();
    let mut i: usize = 0;
    while i < v.len()
        invariant
            i <= v.len(),
            out.len() == i,
            forall|k: int| 0 <= k < i ==> out[k]@ == v[k]@,
        decreases v.len() - i,
    {
        out.push(v[i].clone());
        i = i + 1;
    }
    assert(out.deep_view() =~= v.deep_view());
    out
}

impl DependencyDetail {
    /// The dependency that names nothing.
    pub fn empty() -> (r: DependencyDetail)
        ensures
            r@ == empty_detail(),
    {
        let r = DependencyDetail {
            version: None,
            package: None,
            registry: None,
            registry_index: None,
            path: None,
            git: None,
            branch: None,
            tag: None,
            rev: None,
            features: Vec::new(),
            optional: false,
            default_features: true,
        };
        assert(r.features.deep_view() =~= Seq::<Seq<char>>::empty());
        r
    }

    /// A copy of this dependency.
    pub fn duplicate(&self) -> (r: DependencyDetail)
        ensures
            r@ == self@,
    {
        DependencyDetail {
            version: copy_opt(&self.version),
            package: copy_opt(&self.package),
            registry: copy_opt(&self.registry),
            registry_index: copy_opt(&self.registry_index),
            path: copy_opt(&self.path),
            git: copy_opt(&self.git),
            branch: copy_opt(&self.branch),
            tag: copy_opt(&self.tag),
            rev: copy_opt(&self.rev),
            features: copy_strings(&self.features),
            optional: self.optional,
            default_features: self.default_features,
        }
    }
}

impl Dependency {
    /// A copy of this dependency.
    pub fn duplicate(&self) -> (r: Dependency)
        ensures
            r@ == self@,
    {
        match self {
            Dependency::Simple(v) => Dependency::Simple(v.clone()),
            Dependency::Detailed(d) => Dependency::Detailed(d.duplicate()),
        }
    }
}

/// The place of the first entry of `deps` named `name`.
pub fn find_dependency(deps: &Vec<(String, Dependency)>, name: &str) -> (r: Option<usize>)
    ensures
        match r {
            Some(i) => i as int == dep_index(deps.deep_view(), name@) && i < deps.len(),
            None => dep_index(deps.deep_view(), name@) < 0,
        },
{
    let ghost all = deps.deep_view();
    let n = deps.len();
    let mut i: usize = 0;
    assert(all.subrange(0, n as int) =~= all);
    while i < n
        invariant
            all == deps.deep_view(),
            n == deps.len(),
            i <= n,
            forall|k: int| 0 <= k < i ==> (#[trigger] all[k]).0 != name@,
        decreases n - i,
    {
        assert(all[i as int].0 == deps[i as int].0@);
        if same_text(deps[i].0.as_str(), name) {
            proof {
                lemma_dep_index(all, name@);
            }
            return Some(i);
        }
        i = i + 1;
    }
    proof {
        lemma_dep_index(all, name@);
    }
    None
}

/// Puts `dep` into `deps` under `name`, in the place of the entry of that
/// name where there is one, at the end where there is none. A set in which
/// no name occurs twice stays one.
pub fn insert_dependency(deps: &mut Vec<(String, Dependency)>, name: String, dep: Dependency)
    ensures
        final(deps).deep_view() == dep_inserted(old(deps).deep_view(), name@, dep@),
        names_distinct(old(deps).deep_view()) ==> names_distinct(final(deps).deep_view()),
{
    let ghost before = deps.deep_view();
    proof {
        if names_distinct(before) {
            lemma_dep_inserted(before, name@, dep@, name@);
        }
    }
    match find_dependency(deps, name.as_str()) {
        Some(i) => {
            let ghost entry = (name@, dep@);
            deps[i] = (name, dep);
            assert(deps.deep_view() =~= before.update(i as int, entry));
        },
        None => {
            let ghost entry = (name@, dep@);
            deps.push((name, dep));
            assert(deps.deep_view() =~= before.push(entry));
        },
    }
}

/// What the `toml` crate writes for a dependency given with its fields,
/// as `cargo_toml` describes it; `None` where it cannot be written.
pub uninterp spec fn dependency_toml_text(dep: DependencyDetailView) -> Option<Seq<char>>;

/// What the `toml` crate writes for a package of the given name and
/// version, as `cargo_toml` describes a new package; `None` where it
/// cannot be written.
pub uninterp spec fn package_toml_text(name: Seq<char>, version: Seq<char>) -> Option<Seq<char>>;

/// What the `toml` crate writes for a binary target, as `cargo_toml`
/// describes it; `None` where it cannot be written.
pub uninterp spec fn product_toml_text(product: ProductView) -> Option<Seq<char>>;

/// Has the `toml` crate write `dep`, as a `cargo_toml` dependency with the
/// same fields, through `toml::to_string`. The text depends on the fields
/// alone; nothing else is claimed of it.
#[verifier::external_body]
pub(crate) fn dependency_toml(dep: &DependencyDetail) -> (r: Option<String>)
    ensures
        r.deep_view() == dependency_toml_text(dep@),
{
    let detail = ::cargo_toml::DependencyDetail {
        version: dep.version.clone(), registry: dep.registry.clone(),
        registry_index: dep.registry_index.clone(), path: dep.path.clone(),
        git: dep.git.clone(), branch: dep.branch.clone(),
        tag: dep.tag.clone(), rev: dep.rev.clone(),
        features: dep.features.clone(), package: dep.package.clone(),
        optional: dep.optional, default_features: dep.default_features,
        ..Default::default()
    };
    toml::to_string(&::cargo_toml::Dependency::Detailed(detail)).ok()
}

/// Has the `toml` crate write the package that `cargo_toml`'s
/// `Package::new` makes of the name and the version of `package`, through
/// `toml::to_string`. The text depends on the two alone; nothing else is
/// claimed of it.
#[verifier::external_body]
fn package_toml(package: &Package) -> (r: Option<String>)
    ensures
        r.deep_view() == package_toml_text(package.name@, package.version@),
{
    toml::to_string(
        &::cargo_toml::Package::<()>::new(package.name.clone(), package.version.clone()),
    ).ok()
}

/// Has the `toml` crate write `product`, as a `cargo_toml` product with
/// the same name, path and flags, through `toml::to_string`. The text
/// depends on those alone; nothing else is claimed of it.
#[verifier::external_body]
fn product_toml(product: &Product) -> (r: Option<String>)
    ensures
        r.deep_view() == product_toml_text(product@),
{
    let target = ::cargo_toml::Product {
        name: Some(product.name.clone()), path: Some(product.path.clone()),
        test: product.test, doctest: product.doctest, bench: product.bench,
        doc: product.doc, harness: product.harness,
        ..Default::default()
    };
    toml::to_string(&target).ok()
}

/// A key that a manifest holds as it is, without quotes: letters of the
/// alphabet, digits, `_` and `-`, and at least one of them.
pub open spec fn is_bare_key(s: Seq<char>) -> bool {
    s.len() > 0 && forall|i: int| 0 <= i < s.len() ==> is_key_char(#[trigger] s[i])
}

/// A character of a key that needs no quotes.
pub open spec fn is_key_char(c: char) -> bool {
    ('a' <= c <= 'z') || ('A' <= c <= 'Z') || ('0' <= c <= '9') || c == '_' || c == '-'
}

/// A dependency with its fields spelled out: a bare version becomes the
/// dependency with that version and nothing else.
pub open spec fn detail_of(dep: DependencyView) -> DependencyDetailView {
    match dep {
        DependencyView::Simple(v) => DependencyDetailView { version: Some(v), ..empty_detail() },
        DependencyView::Detailed(d) => d,
    }
}

/// The section of a manifest that names the dependency `dep` as `name`:
/// a table of its own under `dependencies`, with the dependency's fields as
/// `toml` writes them. A name that would need quotes is not written.
pub open spec fn dependency_section(name: Seq<char>, dep: DependencyView) -> Option<Seq<char>> {
    match dependency_toml_text(detail_of(dep)) {
        Some(fields) => if is_bare_key(name) {
            Some("[dependencies."@ + name + "]\n"@ + fields + "\n"@)
        } else {
            None
        },
        None => None,
    }
}

/// The sections of the dependencies `deps`, in their order; `None` where
/// one of them cannot be written.
pub open spec fn dependency_sections(deps: DepsView) -> Option<Seq<char>>
    decreases deps.len(),
{
    if deps.len() == 0 {
        Some(Seq::<char>::empty())
    } else {
        match (
            dependency_sections(deps.drop_last()),
            dependency_section(deps.last().0, deps.last().1),
        ) {
            (Some(front), Some(last)) => Some(front + last),
            _ => None,
        }
    }
}

/// The section of a manifest that declares the binary target `product`.
pub open spec fn bin_section(product: ProductView) -> Option<Seq<char>> {
    match product_toml_text(product) {
        Some(fields) => Some("[[bin]]\n"@ + fields + "\n"@),
        None => None,
    }
}

/// The sections of the binary targets `bins`, in their order; `None` where
/// one of them cannot be written.
pub open spec fn bin_sections(bins: Seq<ProductView>) -> Option<Seq<char>>
    decreases bins.len(),
{
    if bins.len() == 0 {
        Some(Seq::<char>::empty())
    } else {
        match (bin_sections(bins.drop_last()), bin_section(bins.last())) {
            (Some(front), Some(last)) => Some(front + last),
            _ => None,
        }
    }
}

/// The section of a manifest that gives the package's identity; nothing
/// where the manifest declares no package.
pub open spec fn package_section(package: Option<(Seq<char>, Seq<char>)>) -> Option<Seq<char>> {
    match package {
        None => Some(Seq::<char>::empty()),
        Some(p) => match package_toml_text(p.0, p.1) {
            Some(fields) => Some("[package]\n"@ + fields + "\n"@),
            None => None,
        },
    }
}

/// The text of a manifest file: the package, then one section for each
/// dependency, then one for each binary target, each in the manifest's
/// order. The fields of every section are what `toml` writes for them. A
/// manifest with a workspace is not written, and none whose parts cannot
/// all be written.
pub open spec fn manifest_text_of(m: ManifestView) -> Option<Seq<char>> {
    match (
        package_section(m.package),
        dependency_sections(m.dependencies),
        bin_sections(m.bin),
    ) {
        (Some(package), Some(dependencies), Some(bins)) => if m.workspace is None {
            Some(package + dependencies + bins)
        } else {
            None
        },
        _ => None,
    }
}

/// Whether `s` is a key that a manifest holds without quotes.
pub fn bare_key(s: &str) -> (r: bool)
    ensures
        r == is_bare_key(s@),
{
    let v = crate::text::chars_of(s);
    if v.len() == 0 {
        return false;
    }
    let mut i: usize = 0;
    while i < v.len()
        invariant
            v@ == s@,
            i <= v.len(),
            forall|k: int| 0 <= k < i ==> is_key_char(#[trigger] v@[k]),
        decreases v.len() - i,
    {
        let c = v[i];
        let fits = ('a' <= c && c <= 'z') || ('A' <= c && c <= 'Z') || ('0' <= c && c <= '9') || c
            == '_' || c == '-';
        if !fits {
            return false;
        }
        i = i + 1;
    }
    true
}

/// A dependency with its fields spelled out.
pub fn detail(dep: &Dependency) -> (r: DependencyDetail)
    ensures
        r@ == detail_of(dep@),
{
    match dep {
        Dependency::Simple(v) => {
            let mut d = DependencyDetail::empty();
            d.version = Some(v.clone());
            d
        },
        Dependency::Detailed(d) => d.duplicate(),
    }
}

/// The text of the manifest file that holds `manifest`; `None` where it
/// cannot be written.
pub fn manifest_text(manifest: &Manifest) -> (r: Option<String>)
    ensures
        r.deep_view() == manifest_text_of(manifest@),
{
    let mut out = String::new();
    match &manifest.package {
        None => {},
        Some(p) => {
            assert(manifest@.package == Some((p.name@, p.version@)));
            match package_toml(p) {
                None => {
                    return None;
                },
                Some(fields) => {
                    out.append("[package]\n");
                    out.append(fields.as_str());
                    out.append("\n");
                },
            }
        },
    }
    assert(Some(out@) == package_section(manifest@.package)) by {
        assert(Seq::<char>::empty() + "[package]\n"@ =~= "[package]\n"@);
    }
    let ghost head = out@;
    let ghost deps = manifest.dependencies.deep_view();
    let mut i: usize = 0;
    assert(deps.subrange(0, 0) =~= Seq::<(Seq<char>, DependencyView)>::empty());
    assert(head + Seq::<char>::empty() =~= head);
    while i < manifest.dependencies.len()
        invariant
            deps == manifest.dependencies.deep_view(),
            i <= manifest.dependencies.len(),
            dependency_sections(deps.subrange(0, i as int)) is Some,
            out@ == head + dependency_sections(deps.subrange(0, i as int))->0,
        decreases manifest.dependencies.len() - i,
    {
        let ghost next = deps.subrange(0, i + 1);
        proof {
            assert(next.drop_last() =~= deps.subrange(0, i as int));
            assert(next.last() == (
                manifest.dependencies[i as int].0@,
                manifest.dependencies[i as int].1@,
            ));
            if dependency_section(next.last().0, next.last().1) is None {
                lemma_sections_fail(deps, i as int);
            }
        }
        let spelled = detail(&manifest.dependencies[i].1);
        let fields = match dependency_toml(&spelled) {
            None => {
                return None;
            },
            Some(fields) => fields,
        };
        if !bare_key(manifest.dependencies[i].0.as_str()) {
            return None;
        }
        let ghost before = out@;
        let ghost front = dependency_sections(deps.subrange(0, i as int))->0;
        out.append("[dependencies.");
        out.append(manifest.dependencies[i].0.as_str());
        out.append("]\n");
        out.append(fields.as_str());
        out.append("\n");
        proof {
            let last = dependency_section(next.last().0, next.last().1)->0;
            assert(out@ =~= before + last);
            assert(head + front + last =~= head + (front + last));
        }
        i = i + 1;
    }
    assert(deps.subrange(0, i as int) =~= deps);
    let ghost middle = out@;
    let ghost bins = manifest.bin.deep_view();
    let mut j: usize = 0;
    assert(bins.subrange(0, 0) =~= Seq::<ProductView>::empty());
    assert(middle + Seq::<char>::empty() =~= middle);
    while j < manifest.bin.len()
        invariant
            bins == manifest.bin.deep_view(),
            j <= manifest.bin.len(),
            bin_sections(bins.subrange(0, j as int)) is Some,
            out@ == middle + bin_sections(bins.subrange(0, j as int))->0,
            package_section(manifest@.package) is Some,
            dependency_sections(manifest@.dependencies) is Some,
            middle == package_section(manifest@.package)->0 + dependency_sections(
                manifest@.dependencies,
            )->0,
        decreases manifest.bin.len() - j,
    {
        let ghost next = bins.subrange(0, j + 1);
        proof {
            assert(next.drop_last() =~= bins.subrange(0, j as int));
            assert(next.last() == manifest.bin[j as int]@);
            if bin_section(next.last()) is None {
                lemma_bin_sections_fail(bins, j as int);
            }
        }
        let fields = match product_toml(&manifest.bin[j]) {
            None => {
                return None;
            },
            Some(fields) => fields,
        };
        let ghost before = out@;
        let ghost front = bin_sections(bins.subrange(0, j as int))->0;
        out.append("[[bin]]\n");
        out.append(fields.as_str());
        out.append("\n");
        proof {
            let last = bin_section(next.last())->0;
            assert(out@ =~= before + last);
            assert(middle + front + last =~= middle + (front + last));
        }
        j = j + 1;
    }
    assert(bins.subrange(0, j as int) =~= bins);
    if manifest.workspace.is_some() {
        return None;
    }
    Some(out)
}

/// Where the section of one dependency cannot be written, the sections of
/// all cannot.
pub proof fn lemma_sections_fail(deps: DepsView, i: int)
    requires
        0 <= i < deps.len(),
        dependency_section(deps[i].0, deps[i].1) is None,
    ensures
        dependency_sections(deps) is None,
    decreases deps.len(),
{
    if i < deps.len() - 1 {
        assert(deps.drop_last()[i] == deps[i]);
        lemma_sections_fail(deps.drop_last(), i);
    }
}

/// Where the section of one binary target cannot be written, the sections
/// of all cannot.
pub proof fn lemma_bin_sections_fail(bins: Seq<ProductView>, i: int)
    requires
        0 <= i < bins.len(),
        bin_section(bins[i]) is None,
    ensures
        bin_sections(bins) is None,
    decreases bins.len(),
{
    if i < bins.len() - 1 {
        assert(bins.drop_last()[i] == bins[i]);
        lemma_bin_sections_fail(bins.drop_last(), i);
    }
}

/// The manifest that was read, or why it could not be: `parsed` is what
/// reading and parsing the file gave, with the reader's own words on
/// failure.
pub fn load_cargo_toml(parsed: Result<Manifest, String>) -> (r: Result<Manifest, Error>)
    ensures
        match parsed {
            Ok(m) => r == Ok::<Manifest, Error>(m),
            Err(why) => r is Err && r->Err_0@ == (ErrorKind::FailedToReadCargo, why@),
        },
{
    match parsed {
        Ok(m) => Ok(m),
        Err(why) => Err(Error::FailedToReadCargo(why)),
    }
}

} // verus!
