use cargo_odra::backend::Backend;
use cargo_odra::builder::cargo_toml::{
    backend_dependency_on, bin, binaries, build_cargo_toml, cargo_toml, framework_dependency_on,
    member_dependency_on,
};
use cargo_odra::cargo_toml::{
    bare_key, manifest_text, Dependency, DependencyDetail, Manifest, Package, Product, Workspace,
};
use cargo_odra::odra_toml::Contract;
use cargo_odra::project::{Member, OdraLocation};

fn contracts(fqns: &[&str]) -> Vec<Contract> {
    fqns.iter().map(|f| Contract::new(f.to_string()).unwrap()).collect()
}

fn detailed(set: impl Fn(&mut DependencyDetail)) -> Dependency {
    let mut d = DependencyDetail::empty();
    set(&mut d);
    Dependency::Detailed(d)
}

fn root_member() -> Member {
    Member { name: "".to_string(), root: "/p".to_string(), cargo_toml: "/p/Cargo.toml".to_string() }
}

fn member(name: &str) -> Member {
    Member { name: name.to_string(), root: format!("/p/{}", name), cargo_toml: format!("/p/{}/Cargo.toml", name) }
}

fn product(name: &str, path: &str) -> Product {
    Product::binary(name.to_string(), path.to_string())
}

#[test]
fn every_contract_has_two_binaries() {
    assert_eq!(
        binaries(&contracts(&["flipper::Flipper", "tokens::erc20::Erc20"])),
        vec![
            product("Flipper_build", "src/Flipper.rs"),
            product("Flipper", "src/Flipper_wasm.rs"),
            product("Erc20_build", "src/Erc20.rs"),
            product("Erc20", "src/Erc20_wasm.rs"),
        ]
    );
    assert_eq!(binaries(&vec![]), vec![]);
}

#[test]
fn the_framework_is_named_as_its_location_says() {
    let features = vec!["casper".to_string()];
    assert_eq!(
        framework_dependency_on(&OdraLocation::CratesIO("0.8.0".to_string()), "odra", features.clone()),
        detailed(|d| {
            d.version = Some("0.8.0".to_string());
            d.features = vec!["casper".to_string()];
            d.default_features = false;
        })
    );
    assert_eq!(
        framework_dependency_on(
            &OdraLocation::Remote("repo".to_string(), Some("develop".to_string())),
            "odra",
            features.clone()
        ),
        detailed(|d| {
            d.git = Some("repo".to_string());
            d.branch = Some("develop".to_string());
            d.features = vec!["casper".to_string()];
            d.default_features = false;
        })
    );
}

#[test]
fn a_local_framework_is_one_directory_further_up() {
    assert_eq!(
        framework_dependency_on(&OdraLocation::Local("../odra".to_string()), "odra", vec![]),
        detailed(|d| {
            d.path = Some("../../odra/odra".to_string());
            d.default_features = false;
        })
    );
    assert_eq!(
        framework_dependency_on(&OdraLocation::Local("/home/me/odra".to_string()), "odra", vec![]),
        detailed(|d| {
            d.path = Some("/home/me/odra/odra".to_string());
            d.default_features = false;
        })
    );
}

#[test]
fn a_member_is_a_path_dependency() {
    assert_eq!(
        member_dependency_on(&member("tokens"), "casper"),
        detailed(|d| {
            d.path = Some("../tokens".to_string());
            d.features = vec!["casper".to_string()];
            d.default_features = false;
        })
    );
    assert_eq!(
        member_dependency_on(&root_member(), "casper"),
        detailed(|d| {
            d.path = Some("..".to_string());
            d.features = vec!["casper".to_string()];
            d.default_features = false;
        })
    );
}

#[test]
fn the_backends_crate_is_named_as_the_backend_says() {
    assert_eq!(
        backend_dependency_on(&Backend::named("casper")),
        detailed(|d| d.version = Some("*".to_string()))
    );
    let local = Backend {
        name: "casper".to_string(),
        dependency_name: "casper".to_string(),
        dependency: detailed(|d| {
            d.path = Some("../odra-casper".to_string());
            d.features = vec!["x".to_string()];
        }),
    };
    assert_eq!(
        backend_dependency_on(&local),
        detailed(|d| {
            d.path = Some("../../odra-casper/backend".to_string());
            d.default_features = false;
        })
    );
    let simple = Backend {
        name: "casper".to_string(),
        dependency_name: "casper".to_string(),
        dependency: Dependency::Simple("0.1".to_string()),
    };
    assert_eq!(backend_dependency_on(&simple), Dependency::Simple("0.1".to_string()));
}

#[test]
fn the_manifest_of_a_builder() {
    let manifest = build_cargo_toml(
        &Backend::named("casper"),
        &contracts(&["flipper::Flipper"]),
        &vec![root_member()],
        "proj",
        &OdraLocation::CratesIO("0.8.0".to_string()),
    );
    assert_eq!(
        manifest,
        Manifest {
            package: Some(Package { name: "builder".to_string(), version: "1.0.0".to_string() }),
            workspace: None,
            dependencies: vec![
                (
                    "odra".to_string(),
                    detailed(|d| {
                        d.version = Some("0.8.0".to_string());
                        d.features = vec!["casper".to_string()];
                        d.default_features = false;
                    })
                ),
                (
                    "proj".to_string(),
                    detailed(|d| {
                        d.path = Some("..".to_string());
                        d.features = vec!["casper".to_string()];
                        d.default_features = false;
                    })
                ),
                ("odra-casper-backend".to_string(), detailed(|d| d.version = Some("*".to_string()))),
            ],
            bin: vec![product("Flipper_build", "src/Flipper.rs"), product("Flipper", "src/Flipper_wasm.rs")],
        }
    );
}

#[test]
fn the_manifest_of_a_builder_in_a_workspace() {
    let manifest = build_cargo_toml(
        &Backend::named("casper"),
        &contracts(&["tokens::Erc20", "games::dice::Dice"]),
        &vec![member("tokens"), member("games")],
        "proj",
        &OdraLocation::Local("../odra".to_string()),
    );
    let names: Vec<&str> = manifest.dependencies.iter().map(|(n, _)| n.as_str()).collect();
    assert_eq!(names, vec!["odra", "tokens", "games", "odra-casper-backend"]);
    assert_eq!(
        manifest.dependencies[2].1,
        detailed(|d| {
            d.path = Some("../games".to_string());
            d.features = vec!["casper".to_string()];
            d.default_features = false;
        })
    );
    assert_eq!(manifest.bin.len(), 4);
}

#[test]
fn the_same_inputs_give_the_same_manifest() {
    let backend = Backend::named("casper");
    let cs = contracts(&["tokens::Erc20", "games::dice::Dice"]);
    let ms = vec![member("tokens"), member("games")];
    let location = OdraLocation::Remote("repo".to_string(), Some("develop".to_string()));
    let first = build_cargo_toml(&backend, &cs, &ms, "proj", &location);
    let second = build_cargo_toml(
        &Backend::named("casper"),
        &contracts(&["tokens::Erc20", "games::dice::Dice"]),
        &vec![member("tokens"), member("games")],
        "proj",
        &OdraLocation::Remote("repo".to_string(), Some("develop".to_string())),
    );
    assert_eq!(first, second);
    assert_eq!(format!("{:?}", first), format!("{:?}", second));
}

#[test]
fn a_member_called_like_the_framework_takes_its_place() {
    let manifest = build_cargo_toml(
        &Backend::named("casper"),
        &vec![],
        &vec![member("odra")],
        "proj",
        &OdraLocation::CratesIO("0.8.0".to_string()),
    );
    assert_eq!(manifest.dependencies.len(), 2);
    assert_eq!(manifest.dependencies[0].0, "odra");
    assert_eq!(
        manifest.dependencies[0].1,
        detailed(|d| {
            d.path = Some("../odra".to_string());
            d.features = vec!["casper".to_string()];
            d.default_features = false;
        })
    );
}

#[test]
fn the_texts_of_a_manifest_keep_their_placeholders() {
    assert!(cargo_toml().contains("#dependencies"));
    assert!(cargo_toml().contains("#package_name = { path = \"..\""));
    assert!(bin().contains("name = \"#contract_name_build\""));
    assert!(bin().contains("path = \"src/#contract_name_wasm.rs\""));
}

fn sample_manifest() -> Manifest {
    build_cargo_toml(
        &Backend::named("casper"),
        &contracts(&["a::A"]),
        &vec![root_member()],
        "proj",
        &OdraLocation::CratesIO("0.8.0".to_string()),
    )
}

#[test]
fn a_plain_binary_is_built_and_nothing_else() {
    assert_eq!(
        Product::binary("A".to_string(), "src/A.rs".to_string()),
        Product {
            name: "A".to_string(),
            path: "src/A.rs".to_string(),
            test: false,
            doctest: false,
            bench: false,
            doc: false,
            harness: false,
        }
    );
}

#[test]
fn the_text_of_a_builders_manifest() {
    let text = manifest_text(&sample_manifest()).unwrap();
    assert_eq!(
        text,
        "[package]\nname = \"builder\"\nedition = \"2021\"\nversion = \"1.0.0\"\n\n\
         [dependencies.odra]\nversion = \"0.8.0\"\nfeatures = [\"casper\"]\ndefault-features = false\n\n\
         [dependencies.proj]\npath = \"..\"\nfeatures = [\"casper\"]\ndefault-features = false\n\n\
         [dependencies.odra-casper-backend]\nversion = \"*\"\nfeatures = []\n\n\
         [[bin]]\npath = \"src/A.rs\"\nname = \"A_build\"\ntest = false\ndoctest = false\nbench = false\n\
         doc = false\nharness = false\nrequired-features = []\n\n\
         [[bin]]\npath = \"src/A_wasm.rs\"\nname = \"A\"\ntest = false\ndoctest = false\nbench = false\n\
         doc = false\nharness = false\nrequired-features = []\n\n"
    );
}

#[test]
fn the_text_of_a_manifest_reads_back_as_the_manifest() {
    let manifest = sample_manifest();
    let text = manifest_text(&manifest).unwrap();
    let back = cargo_toml::Manifest::from_str(&text).unwrap();
    let package = back.package.unwrap();
    assert_eq!(package.name, "builder");
    assert_eq!(package.version.get().unwrap(), "1.0.0");
    assert_eq!(back.dependencies.len(), 3);
    for (name, dependency) in &manifest.dependencies {
        let read = back.dependencies.get(name).unwrap().detail().unwrap();
        let written = cargo_odra::cargo_toml::detail(dependency);
        assert_eq!(read.version, written.version);
        assert_eq!(read.path, written.path);
        assert_eq!(read.git, written.git);
        assert_eq!(read.branch, written.branch);
        assert_eq!(read.features, written.features);
        assert_eq!(read.optional, written.optional);
        assert_eq!(read.default_features, written.default_features);
    }
    assert_eq!(back.bin.len(), 2);
    for (read, written) in back.bin.iter().zip(manifest.bin.iter()) {
        assert_eq!(read.name.as_deref(), Some(written.name.as_str()));
        assert_eq!(read.path.as_deref(), Some(written.path.as_str()));
        assert_eq!(read.test, written.test);
        assert_eq!(read.doctest, written.doctest);
        assert_eq!(read.bench, written.bench);
        assert_eq!(read.doc, written.doc);
        assert_eq!(read.harness, written.harness);
    }
}

#[test]
fn the_same_inputs_give_the_same_manifest_text() {
    let first = manifest_text(&sample_manifest());
    let second = manifest_text(&sample_manifest());
    assert!(first.is_some());
    assert_eq!(first.map(|t| t.into_bytes()), second.map(|t| t.into_bytes()));
}

#[test]
fn a_bare_version_is_written_as_a_version() {
    let manifest = Manifest {
        package: None,
        workspace: None,
        dependencies: vec![("serde".to_string(), Dependency::Simple("1.0".to_string()))],
        bin: vec![],
    };
    assert_eq!(
        manifest_text(&manifest),
        Some("[dependencies.serde]\nversion = \"1.0\"\nfeatures = []\n\n".to_string())
    );
}

#[test]
fn an_empty_manifest_has_an_empty_text() {
    let manifest = Manifest { package: None, workspace: None, dependencies: vec![], bin: vec![] };
    assert_eq!(manifest_text(&manifest), Some(String::new()));
}

#[test]
fn a_dependency_whose_name_needs_quotes_is_not_written() {
    for name in ["", "a.b", "a b", "ä", "a\"b", "[x]"] {
        let manifest = Manifest {
            package: None,
            workspace: None,
            dependencies: vec![(name.to_string(), Dependency::Simple("1".to_string()))],
            bin: vec![],
        };
        assert_eq!(manifest_text(&manifest), None);
    }
}

#[test]
fn a_manifest_with_a_workspace_is_not_written() {
    let mut manifest = sample_manifest();
    manifest.workspace = Some(Workspace { members: vec![], dependencies: vec![] });
    assert_eq!(manifest_text(&manifest), None);
}

#[test]
fn keys_without_quotes() {
    for key in ["odra", "odra-casper-backend", "my_crate2", "A", "0", "-", "_"] {
        assert!(bare_key(key));
    }
    for key in ["", "a.b", "a b", "é", "a/b", "a\n"] {
        assert!(!bare_key(key));
    }
}

#[test]
fn no_name_occurs_twice_among_the_dependencies() {
    let manifest = build_cargo_toml(
        &Backend::named("casper"),
        &vec![],
        &vec![member("odra"), member("tokens"), member("tokens"), member("odra-casper-backend")],
        "proj",
        &OdraLocation::CratesIO("0.8.0".to_string()),
    );
    let names: Vec<&str> = manifest.dependencies.iter().map(|(n, _)| n.as_str()).collect();
    assert_eq!(names, vec!["odra", "tokens", "odra-casper-backend"]);
    assert_eq!(manifest.dependencies[2].1, detailed(|d| d.version = Some("*".to_string())));
}
