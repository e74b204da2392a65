use cargo_odra::backend::{find_backend, lib_filename, lib_pattern, Backend, DependencyType};
use cargo_odra::cargo_toml::detail;
use cargo_odra::cargo_toml::{Dependency, DependencyDetail};
use cargo_odra::cli::{AddBackendCommand, RemoveBackendCommand};
use cargo_odra::command::Step;
use cargo_odra::errors::Error;

fn detailed(set: impl Fn(&mut DependencyDetail)) -> Dependency {
    let mut d = DependencyDetail::empty();
    set(&mut d);
    Dependency::Detailed(d)
}

fn backend(name: &str, dependency: Dependency) -> Backend {
    Backend { name: name.to_string(), dependency_name: "casper".to_string(), dependency }
}

fn add(name: Option<&str>, path: Option<&str>, repo: Option<&str>, branch: Option<&str>) -> AddBackendCommand {
    AddBackendCommand {
        name: name.map(|s| s.to_string()),
        package: "casper".to_string(),
        path: path.map(|s| s.to_string()),
        repo_uri: repo.map(|s| s.to_string()),
        branch: branch.map(|s| s.to_string()),
    }
}

fn cargo(dir: &str, args: &[&str]) -> Step {
    Step::Cargo { dir: dir.to_string(), args: args.iter().map(|a| a.to_string()).collect(), env: vec![] }
}

fn names(files: &[&str]) -> Vec<String> {
    files.iter().map(|f| f.to_string()).collect()
}

#[test]
fn where_a_backends_crate_comes_from() {
    assert_eq!(backend("a", Dependency::Simple("1".to_string())).dependency_type(), DependencyType::Crates);
    assert_eq!(backend("a", detailed(|d| d.version = Some("1".to_string()))).dependency_type(), DependencyType::Crates);
    assert_eq!(backend("a", detailed(|d| d.git = Some("r".to_string()))).dependency_type(), DependencyType::Remote);
    assert_eq!(
        backend("a", detailed(|d| {
            d.git = Some("r".to_string());
            d.path = Some("p".to_string());
        }))
        .dependency_type(),
        DependencyType::Local
    );
}

#[test]
fn a_backend_from_a_request_with_a_path() {
    assert_eq!(
        Backend::from_add_command(&add(Some("casper-local"), Some("../casper/"), Some("repo"), None)),
        Backend {
            name: "casper-local".to_string(),
            dependency_name: "casper".to_string(),
            dependency: detailed(|d| d.path = Some("../casper/".to_string())),
        }
    );
}

#[test]
fn a_backend_from_a_request_with_a_repository() {
    assert_eq!(
        Backend::from_add_command(&add(None, None, Some("repo"), Some("develop"))),
        Backend {
            name: "casper".to_string(),
            dependency_name: "casper".to_string(),
            dependency: detailed(|d| {
                d.git = Some("repo".to_string());
                d.branch = Some("develop".to_string());
            }),
        }
    );
}

#[test]
fn a_backend_from_a_request_with_nothing_is_any_published_version() {
    let b = Backend::from_add_command(&add(None, None, None, Some("ignored")));
    assert_eq!(b, backend("casper", detailed(|d| d.version = Some("*".to_string()))));
    assert_eq!(Backend::named("casper"), b);
}

#[test]
fn adding_a_backend_twice_changes_nothing() {
    let mut backends: Vec<Backend> = vec![];
    assert!(Backend::add(&mut backends, &add(None, None, None, None)));
    assert!(Backend::add(&mut backends, &add(Some("casper-dev"), None, Some("repo"), None)));
    assert!(!Backend::add(&mut backends, &add(None, Some("p"), None, None)));
    assert_eq!(backends.len(), 2);
    assert_eq!(backends[0], Backend::named("casper"));
    assert_eq!(backends[1].name, "casper-dev");
    assert_eq!(find_backend(&backends, "casper-dev"), Some(1));
    assert_eq!(find_backend(&backends, "nope"), None);
}

#[test]
fn removing_a_backend_takes_it_out() {
    let mut backends = vec![Backend::named("a"), Backend::named("b"), Backend::named("c")];
    assert!(Backend::remove(&mut backends, &RemoveBackendCommand { name: "b".to_string() }));
    assert_eq!(backends, vec![Backend::named("a"), Backend::named("c")]);
    assert!(!Backend::remove(&mut backends, &RemoveBackendCommand { name: "b".to_string() }));
    assert_eq!(backends.len(), 2);
}

#[test]
fn loading_a_backend_by_name() {
    let backends = vec![Backend::named("a"), Backend::named("b")];
    assert_eq!(Backend::load(&backends, "b"), Some(Backend::named("b")));
    assert_eq!(Backend::load(&backends, "c"), None);
}

#[test]
fn a_bare_version_spelled_out() {
    assert_eq!(
        Dependency::Detailed(detail(&Dependency::Simple("1.2".to_string()))),
        detailed(|d| d.version = Some("1.2".to_string()))
    );
}

#[test]
fn the_part_of_a_local_backend_is_seen_from_the_builder() {
    let b = backend("casper", detailed(|d| d.path = Some("../casper/".to_string())));
    assert_eq!(
        b.dependency("backend"),
        detailed(|d| {
            d.path = Some("../../casper/backend".to_string());
            d.optional = true;
        })
    );
    let b = backend("casper", detailed(|d| d.git = Some("repo".to_string())));
    assert_eq!(
        b.dependency("test_env"),
        detailed(|d| {
            d.git = Some("repo".to_string());
            d.optional = true;
        })
    );
    let b = backend("casper", Dependency::Simple("1".to_string()));
    assert_eq!(
        b.dependency("backend"),
        detailed(|d| {
            d.version = Some("1".to_string());
            d.optional = true;
        })
    );
}

#[test]
fn the_framework_as_a_builder_names_it() {
    assert_eq!(
        Backend::odra_dependency(&Dependency::Simple("0.8.0".to_string())),
        detailed(|d| {
            d.version = Some("0.8.0".to_string());
            d.optional = true;
        })
    );
    assert_eq!(
        Backend::odra_dependency(&detailed(|d| {
            d.path = Some("../odra/odra".to_string());
            d.features = vec!["x".to_string()];
        })),
        detailed(|d| {
            d.path = Some("../../odra/odra".to_string());
            d.features = vec!["wasm".to_string()];
            d.optional = true;
            d.default_features = false;
        })
    );
    assert_eq!(
        Backend::odra_dependency(&detailed(|d| d.git = Some("repo".to_string()))),
        detailed(|d| {
            d.git = Some("repo".to_string());
            d.features = vec!["wasm".to_string()];
            d.optional = true;
            d.default_features = false;
        })
    );
}

#[test]
fn the_project_as_a_builder_names_it() {
    assert_eq!(
        Backend::project_dependency(),
        detailed(|d| {
            d.path = Some("..".to_string());
            d.features = vec!["wasm".to_string()];
            d.optional = true;
            d.default_features = false;
        })
    );
}

#[test]
fn the_dependencies_of_a_backends_builder() {
    let b = backend("casper", detailed(|d| d.path = Some("../casper/".to_string())));
    let deps = b.builder_dependencies("proj", &Dependency::Simple("0.8.0".to_string()));
    assert_eq!(
        deps,
        vec![
            ("odra".to_string(), Backend::odra_dependency(&Dependency::Simple("0.8.0".to_string()))),
            ("proj".to_string(), Backend::project_dependency()),
            ("odra-casper-backend".to_string(), b.dependency("backend")),
            ("odra-casper-test-env".to_string(), b.dependency("test_env")),
        ]
    );
}

#[test]
fn getters_of_a_backend() {
    let b = backend("casper-dev", Dependency::Simple("1".to_string()));
    assert_eq!(b.name(), "casper-dev");
    assert_eq!(b.package(), "casper");
    assert_eq!(b.backend_dependency(), &Dependency::Simple("1".to_string()));
    assert_eq!(b.builder_path(), ".builder_casper-dev/");
    assert_eq!(b.duplicate(), b);
    assert!(Backend::def_rs().contains("#contract_fqn"));
    assert_eq!(Backend::main_rs(), "\nfn main() {}\n        ");
}

#[test]
fn a_backend_checks_for_the_target() {
    let b = Backend::named("casper");
    assert_eq!(b.check_requirements("wasm32-unknown-unknown"), Ok(()));
    assert_eq!(b.check_requirements("none"), Err(Error::WasmTargetNotInstalled));
}

#[test]
fn formatting_and_building_the_library_run_in_the_builder() {
    let b = Backend::named("casper");
    assert_eq!(b.fmt("/p"), cargo("/p/.builder_casper/", &["fmt"]));
    assert_eq!(
        b.build_lib("/p"),
        cargo(
            "/p/.builder_casper/",
            &["run", "--bin", "builder", "--release", "--no-default-features", "--features=build"]
        )
    );
}

#[test]
fn the_library_pattern_and_name() {
    assert_eq!(lib_pattern(), "libodra_test_env-.*\\.so");
    assert_eq!(lib_filename(), "libodra_test_env.so");
}

#[test]
fn the_built_library_is_the_last_file_with_a_hash() {
    assert_eq!(
        Backend::built_lib(&names(&[
            "libodra_test_env-0123.so",
            "libserde-99.so",
            "libodra_test_env-abcd.so",
            "libodra_test_env-abcd.d",
            "libodra_test_env.so",
        ])),
        "libodra_test_env-abcd.so"
    );
    assert_eq!(Backend::built_lib(&names(&["libserde-99.so", "odra_test_env"])), "libodra_test_env.so");
    assert_eq!(Backend::built_lib(&names(&[])), "libodra_test_env.so");
}

#[test]
fn the_built_library_is_put_where_the_tests_look() {
    let b = Backend::named("casper");
    let source = "/p/.builder_casper/target/release/deps/libodra_test_env-abcd.so".to_string();
    assert_eq!(
        b.place_lib("/p", &names(&["libodra_test_env-abcd.so"])),
        vec![
            Step::MakeDir { path: "/p/target/release".to_string() },
            Step::MakeDir { path: "/p/target/debug".to_string() },
            Step::Copy { source: source.clone(), target: "/p/target/release/libodra_test_env.so".to_string() },
            Step::Copy { source, target: "/p/target/debug/libodra_test_env.so".to_string() },
        ]
    );
}
