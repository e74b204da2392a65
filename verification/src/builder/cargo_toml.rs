//! The manifest of a builder: which binaries it has and what it depends
//! on. It is made anew for every build, from the same inputs the same
//! manifest.

use crate::backend::{Backend, BackendView};
use crate::builder::{codegen_bin, codegen_source, wasm_source};
use crate::cargo_toml::{
    dep_inserted, empty_detail, insert_dependency, names_distinct, Dependency, DependencyDetail,
    DependencyDetailView, DependencyView, DepsView, Manifest, ManifestView, Package, Product,
    ProductView, plain_binary, manifest_text_of,
};
use crate::consts::ODRA_CRATE_NAME;
use crate::odra_toml::{fqn_struct_name, Contract};
use crate::paths::{join, joined_path};
use crate::project::{Member, MemberView, OdraLocation, OdraLocationView};
use crate::text::{concat, concat3};
use vstd::prelude::*;
use vstd::string::*;

verus! {

/// The name of a builder's package.
pub const BUILDER_PACKAGE: &'static str = "builder";

/// The version of a builder's package.
pub const BUILDER_VERSION: &'static str = "1.0.0";

/// The text of a builder's manifest before its dependencies and the name
/// of the project are filled in.
pub const CARGO_TOML: &'static str = r##"
[package]
name = "builder"
version = "0.1.0"
edition = "2021"

[dependencies]
#dependencies
odra = { git = "https://github.com/odradev/odra", default-features = false, features = ["wasm"] }
#package_name = { path = "..", default-features = false, features = ["wasm"] }

[build-dependencies]
quote = "1.0.18"
    "##;

/// The text of the two binary targets of one contract before the
/// contract's name is filled in.
pub const BIN: &'static str = r##"
[[bin]]
name = "#contract_name_build"
path = "src/#contract_name.rs"

[[bin]]
name = "#contract_name"
path = "src/#contract_name_wasm.rs"
    "##;

/// The dependency on the crate `crate_name` of the framework at
/// `location`, as a builder names it: with `features` and without default
/// features. A local framework is named by the path of that crate in the
/// checkout, one directory up, since the builder lies one below the
/// project; a remote one by its repository and branch; a published one by
/// its version.
pub open spec fn framework_dependency(
    location: OdraLocationView,
    crate_name: Seq<char>,
    features: Seq<Seq<char>>,
) -> DependencyView {
    let source = match location {
        OdraLocationView::Local(dir) => DependencyDetailView {
            path: Some(joined_path(".."@, joined_path(dir, crate_name))),
            ..empty_detail()
        },
        OdraLocationView::Remote(repo, branch) => DependencyDetailView {
            git: Some(repo),
            branch,
            ..empty_detail()
        },
        OdraLocationView::CratesIO(version) => DependencyDetailView {
            version: Some(version),
            ..empty_detail()
        },
    };
    DependencyView::Detailed(DependencyDetailView { features, default_features: false, ..source })
}

/// The name under which a builder depends on a member: the member's own,
/// or the project's for the member without a name.
pub open spec fn member_dependency_name(member: MemberView, project_name: Seq<char>) -> Seq<char> {
    if member.name.len() == 0 {
        project_name
    } else {
        member.name
    }
}

/// The dependency of a builder on a member: by its path, one directory up,
/// with the backend's feature and without default features.
pub open spec fn member_dependency(member: MemberView, backend_name: Seq<char>) -> DependencyView {
    DependencyView::Detailed(
        DependencyDetailView {
            path: Some(
                if member.name.len() == 0 {
                    ".."@
                } else {
                    joined_path(".."@, member.name)
                },
            ),
            features: seq![backend_name],
            default_features: false,
            ..empty_detail()
        },
    )
}

/// `deps` with the dependency on each of `members`.
pub open spec fn with_members(
    deps: DepsView,
    members: Seq<MemberView>,
    project_name: Seq<char>,
    backend_name: Seq<char>,
) -> DepsView
    decreases members.len(),
{
    if members.len() == 0 {
        deps
    } else {
        dep_inserted(
            with_members(deps, members.drop_last(), project_name, backend_name),
            member_dependency_name(members.last(), project_name),
            member_dependency(members.last(), backend_name),
        )
    }
}

/// The name of the crate that implements the backend of package
/// `package`.
pub open spec fn backend_crate(package: Seq<char>) -> Seq<char> {
    "odra-"@ + package + "-backend"@
}

/// The dependency of a builder on the backend's crate: the backend's own
/// dependency; where that names a path, the path of the `backend` part of
/// it, one directory up, without features and default features.
pub open spec fn backend_crate_dependency(dep: DependencyView) -> DependencyView {
    match dep {
        DependencyView::Simple(v) => DependencyView::Simple(v),
        DependencyView::Detailed(d) => match d.path {
            None => DependencyView::Detailed(d),
            Some(p) => DependencyView::Detailed(
                DependencyDetailView {
                    path: Some("../"@ + p + "/backend"@),
                    features: Seq::empty(),
                    default_features: false,
                    ..d
                },
            ),
        },
    }
}

/// The two binary targets of the contract `fqn`: the one that generates
/// its code, and the one compiled from the generated code, which is named
/// after the contract's type.
pub open spec fn bins_of_contract(fqn: Seq<char>) -> Seq<ProductView> {
    let name = fqn_struct_name(fqn);
    seq![
        plain_binary(codegen_bin(name), codegen_source(name)),
        plain_binary(name, wasm_source(name)),
    ]
}

/// The binary targets of `contracts`, in their order.
pub open spec fn bins_of(contracts: Seq<Seq<char>>) -> Seq<ProductView>
    decreases contracts.len(),
{
    if contracts.len() == 0 {
        Seq::empty()
    } else {
        bins_of(contracts.drop_last()) + bins_of_contract(contracts.last())
    }
}

/// The dependency set of a builder: the framework, with the backend's name
/// as its only feature; each member; the backend's crate.
pub open spec fn synthesized_deps(
    backend: BackendView,
    members: Seq<MemberView>,
    project_name: Seq<char>,
    location: OdraLocationView,
) -> DepsView {
    let d0 = Seq::<(Seq<char>, DependencyView)>::empty();
    let d1 = dep_inserted(
        d0,
        ODRA_CRATE_NAME@,
        framework_dependency(location, ODRA_CRATE_NAME@, seq![backend.name]),
    );
    let d2 = with_members(d1, members, project_name, backend.name);
    dep_inserted(
        d2,
        backend_crate(backend.dependency_name),
        backend_crate_dependency(backend.dependency),
    )
}

/// The manifest of the builder of `backend` for `contracts`, in a project
/// named `project_name` with `members` whose framework comes from
/// `location`.
pub open spec fn synthesized(
    backend: BackendView,
    contracts: Seq<Seq<char>>,
    members: Seq<MemberView>,
    project_name: Seq<char>,
    location: OdraLocationView,
) -> ManifestView {
    ManifestView {
        package: Some((BUILDER_PACKAGE@, BUILDER_VERSION@)),
        workspace: None,
        dependencies: synthesized_deps(backend, members, project_name, location),
        bin: bins_of(contracts),
    }
}

/// The same inputs give the same manifest: what is synthesized depends on
/// nothing but what the backend, the contracts, the members, the
/// project's name and the framework's location hold.
pub proof fn lemma_synthesis_deterministic(
    backend_a: BackendView,
    contracts_a: Seq<Seq<char>>,
    members_a: Seq<MemberView>,
    project_name_a: Seq<char>,
    location_a: OdraLocationView,
    backend_b: BackendView,
    contracts_b: Seq<Seq<char>>,
    members_b: Seq<MemberView>,
    project_name_b: Seq<char>,
    location_b: OdraLocationView,
)
    requires
        backend_a == backend_b,
        contracts_a =~= contracts_b,
        members_a =~= members_b,
        project_name_a =~= project_name_b,
        location_a == location_b,
    ensures
        synthesized(backend_a, contracts_a, members_a, project_name_a, location_a) == synthesized(
            backend_b,
            contracts_b,
            members_b,
            project_name_b,
            location_b,
        ),
{
}

/// The same inputs give the same manifest file, byte for byte: the text of
/// the synthesized manifest depends on nothing but what the backend, the
/// contracts, the members, the project's name and the framework's
/// location hold.
pub proof fn lemma_manifest_text_deterministic(
    backend_a: BackendView,
    contracts_a: Seq<Seq<char>>,
    members_a: Seq<MemberView>,
    project_name_a: Seq<char>,
    location_a: OdraLocationView,
    backend_b: BackendView,
    contracts_b: Seq<Seq<char>>,
    members_b: Seq<MemberView>,
    project_name_b: Seq<char>,
    location_b: OdraLocationView,
)
    requires
        backend_a == backend_b,
        contracts_a =~= contracts_b,
        members_a =~= members_b,
        project_name_a =~= project_name_b,
        location_a == location_b,
    ensures
        manifest_text_of(
            synthesized(backend_a, contracts_a, members_a, project_name_a, location_a),
        ) == manifest_text_of(
            synthesized(backend_b, contracts_b, members_b, project_name_b, location_b),
        ),
{
}

/// Every contract has exactly two binary targets in the manifest, at its
/// place in the order of the contracts.
pub proof fn lemma_bins_of(contracts: Seq<Seq<char>>)
    ensures
        bins_of(contracts).len() == 2 * contracts.len(),
        forall|i: int|
            0 <= i < contracts.len() ==> {
                &&& bins_of(contracts)[2 * i] == bins_of_contract(#[trigger] contracts[i])[0]
                &&& bins_of(contracts)[2 * i + 1] == bins_of_contract(contracts[i])[1]
            },
    decreases contracts.len(),
{
    if contracts.len() > 0 {
        let front = contracts.drop_last();
        lemma_bins_of(front);
        assert forall|i: int| 0 <= i < contracts.len() implies {
            &&& bins_of(contracts)[2 * i] == bins_of_contract(#[trigger] contracts[i])[0]
            &&& bins_of(contracts)[2 * i + 1] == bins_of_contract(contracts[i])[1]
        } by {
            if i < front.len() {
                assert(front[i] == contracts[i]);
            }
        }
    }
}

/// The text of a builder's manifest before its dependencies and the name
/// of the project are filled in.
pub fn cargo_toml() -> (r: &'static str)
    ensures
        r@ == CARGO_TOML@,
{
    CARGO_TOML
}

/// The text of the two binary targets of one contract before the
/// contract's name is filled in.
pub fn bin() -> (r: &'static str)
    ensures
        r@ == BIN@,
{
    BIN
}

/// The dependency on the crate `crate_name` of the framework at
/// `location`, with `features` and without default features.
pub fn framework_dependency_on(
    location: &OdraLocation,
    crate_name: &str,
    features: Vec<String>,
) -> (r: Dependency)
    ensures
        r@ == framework_dependency(location@, crate_name@, features.deep_view()),
{
    let mut d = DependencyDetail::empty();
    match location {
        OdraLocation::Local(dir) => {
            let inner = join(dir.as_str(), crate_name);
            d.path = Some(join("..", inner.as_str()));
        },
        OdraLocation::Remote(repo, branch) => {
            d.git = Some(repo.clone());
            d.branch = crate::cargo_toml::copy_opt(branch);
        },
        OdraLocation::CratesIO(version) => {
            d.version = Some(version.clone());
        },
    }
    d.features = features;
    d.default_features = false;
    Dependency::Detailed(d)
}

/// The dependency of a builder on `member`.
pub fn member_dependency_on(member: &Member, backend_name: &str) -> (r: Dependency)
    ensures
        r@ == member_dependency(member@, backend_name@),
{
    let mut d = DependencyDetail::empty();
    if member.name.as_str().unicode_len() == 0 {
        d.path = Some(String::from_str(".."));
    } else {
        d.path = Some(join("..", member.name.as_str()));
    }
    let mut features: Vec<String> = Vec::new();
    features.push(String::from_str(backend_name));
    assert(features.deep_view() =~= seq![backend_name@]);
    d.features = features;
    d.default_features = false;
    Dependency::Detailed(d)
}

/// The dependency of a builder on the crate of `backend`.
pub fn backend_dependency_on(backend: &Backend) -> (r: Dependency)
    ensures
        r@ == backend_crate_dependency(backend.dependency@),
{
    match &backend.dependency {
        Dependency::Simple(v) => Dependency::Simple(v.clone()),
        Dependency::Detailed(detail) => {
            let mut d = detail.duplicate();
            match &detail.path {
                None => {},
                Some(p) => {
                    d.path = Some(concat3("../", p.as_str(), "/backend"));
                    let features: Vec<String> = Vec::new();
                    assert(features.deep_view() =~= Seq::<Seq<char>>::empty());
                    d.features = features;
                    d.default_features = false;
                },
            }
            Dependency::Detailed(d)
        },
    }
}

/// The binary targets of `contracts`.
pub fn binaries(contracts: &Vec<Contract>) -> (r: Vec<Product>)
    ensures
        r.deep_view() == bins_of(contracts.deep_view()),
{
    let ghost all = contracts.deep_view();
    let mut bins: Vec<Product> = Vec::new();
    let mut i: usize = 0;
    assert(all.subrange(0, 0) =~= Seq::<Seq<char>>::empty());
    assert(bins.deep_view() =~= Seq::<ProductView>::empty());
    while i < contracts.len()
        invariant
            all == contracts.deep_view(),
            i <= contracts.len(),
            bins.deep_view() == bins_of(all.subrange(0, i as int)),
        decreases contracts.len() - i,
    {
        proof {
            let next = all.subrange(0, i + 1);
            assert(next.drop_last() =~= all.subrange(0, i as int));
            assert(next.last() == contracts[i as int]@);
        }
        let ghost before = bins.deep_view();
        let name = contracts[i].struct_name();
        bins.push(
            Product::binary(concat(name.as_str(), "_build"), concat3("src/", name.as_str(), ".rs")),
        );
        bins.push(Product::binary(name.clone(), concat3("src/", name.as_str(), "_wasm.rs")));
        assert(bins.deep_view() =~= before + bins_of_contract(contracts[i as int]@));
        i = i + 1;
    }
    assert(all.subrange(0, i as int) =~= all);
    bins
}

/// The manifest of the builder of `backend` for `contracts`, in a project
/// named `project_name` with `members` whose framework comes from
/// `location`. No name occurs twice among its dependencies: a dependency
/// put under a name that is taken takes the place of the one that was
/// there.
pub fn build_cargo_toml(
    backend: &Backend,
    contracts: &Vec<Contract>,
    members: &Vec<Member>,
    project_name: &str,
    location: &OdraLocation,
) -> (r: Manifest)
    ensures
        r@ == synthesized(
            backend@,
            contracts.deep_view(),
            members.deep_view(),
            project_name@,
            location@,
        ),
        names_distinct(r@.dependencies),
{
    let ghost ms = members.deep_view();
    let mut deps: Vec<(String, Dependency)> = Vec::new();
    assert(deps.deep_view() =~= Seq::<(Seq<char>, DependencyView)>::empty());
    let mut features: Vec<String> = Vec::new();
    features.push(backend.name.clone());
    assert(features.deep_view() =~= seq![backend.name@]);
    insert_dependency(
        &mut deps,
        String::from_str(ODRA_CRATE_NAME),
        framework_dependency_on(location, ODRA_CRATE_NAME, features),
    );
    let ghost d1 = deps.deep_view();
    let mut i: usize = 0;
    assert(ms.subrange(0, 0) =~= Seq::<MemberView>::empty());
    while i < members.len()
        invariant
            ms == members.deep_view(),
            i <= members.len(),
            names_distinct(deps.deep_view()),
            deps.deep_view() == with_members(
                d1,
                ms.subrange(0, i as int),
                project_name@,
                backend.name@,
            ),
        decreases members.len() - i,
    {
        proof {
            let next = ms.subrange(0, i + 1);
            assert(next.drop_last() =~= ms.subrange(0, i as int));
            assert(next.last() == members[i as int]@);
        }
        let name = if members[i].name.as_str().unicode_len() == 0 {
            String::from_str(project_name)
        } else {
            members[i].name.clone()
        };
        insert_dependency(
            &mut deps,
            name,
            member_dependency_on(&members[i], backend.name.as_str()),
        );
        i = i + 1;
    }
    assert(ms.subrange(0, i as int) =~= ms);
    insert_dependency(
        &mut deps,
        concat3("odra-", backend.dependency_name.as_str(), "-backend"),
        backend_dependency_on(backend),
    );
    Manifest {
        package: Some(
            Package {
                name: String::from_str(BUILDER_PACKAGE),
                version: String::from_str(BUILDER_VERSION),
            },
        ),
        workspace: None,
        dependencies: deps,
        bin: binaries(contracts),
    }
}

} // verus!
