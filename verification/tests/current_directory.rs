use cargo_odra::backend::Backend;
use cargo_odra::clean::Clean;
use cargo_odra::cli::{GenerateCommand, InitCommand, TestCommand, UpdateCommand};
use cargo_odra::command::Step;
use cargo_odra::errors::Error;
use cargo_odra::generate::Generate;
use cargo_odra::init::Init;
use cargo_odra::odra_toml::{Contract, OdraToml};
use cargo_odra::project::{Member, OdraLocation, Project};
use cargo_odra::template::Fetched;
use cargo_odra::tests::Tests;
use cargo_odra::update::{update, update_builder, update_everything};

fn cargo(dir: &str, args: &[&str]) -> Step {
    Step::Cargo { dir: dir.to_string(), args: args.iter().map(|a| a.to_string()).collect(), env: vec![] }
}

fn project() -> Project {
    Project {
        name: "proj".to_string(),
        project_root: "/p".to_string(),
        cargo_toml_location: "/p/Cargo.toml".to_string(),
        odra_toml_location: "/p/Odra.toml".to_string(),
        members: vec![Member { name: "".to_string(), root: "/p".to_string(), cargo_toml: "/p/Cargo.toml".to_string() }],
    }
}

fn registry() -> OdraToml {
    OdraToml { contracts: vec![Contract::new("a::A".to_string()).unwrap()], location: "/p/Odra.toml".to_string() }
}

fn init_command(name: &str, repo: &str) -> InitCommand {
    InitCommand {
        name: name.to_string(),
        repo_uri: repo.to_string(),
        git_branch: "".to_string(),
        source: None,
        template: "full".to_string(),
    }
}

#[test]
fn cleaning_the_current_directory() {
    assert_eq!(
        Clean::new().clean(&vec!["wasm".to_string(), ".builder_casper".to_string()]),
        vec![
            Step::RemoveDir { path: "wasm".to_string() },
            Step::RemoveDir { path: ".builder_casper".to_string() },
            cargo(".", &["clean"]),
        ]
    );
    assert_eq!(Clean::new().clean(&vec![]), vec![cargo(".", &["clean"])]);
    assert_eq!(Clean::rm_rf("wasm"), Step::RemoveDir { path: "wasm".to_string() });
}

#[test]
fn a_contract_made_from_the_sample() {
    let g = Generate::new(GenerateCommand { contract_name: "my_token".to_string(), module: None });
    let plan = g.generate_contract(
        Fetched::Body("pub struct Flipper;\n// the flipper flips\nimpl FlipperRef {}".to_string()),
        "proj",
    );
    assert_eq!(
        plan,
        Ok(vec![
            Step::WriteFile {
                path: "src/my_token.rs".to_string(),
                content: "pub struct MyToken;\n// the my token flips\nimpl MyTokenRef {}".to_string(),
            },
            Step::AppendFile {
                path: "src/lib.rs".to_string(),
                content: "\npub mod my_token;\npub use my_token::{MyToken, MyTokenRef};\n\n".to_string(),
            },
            Step::AppendFile {
                path: "Odra.toml".to_string(),
                content: "\nmy_token = { path = \"src/my_token.rs\", name = \"my_token\", fqn = \"proj::MyToken\"}\n".to_string(),
            },
        ])
    );
}

#[test]
fn a_sample_that_cannot_be_had_stops_the_contract() {
    let g = Generate::new(GenerateCommand { contract_name: "t".to_string(), module: None });
    let url = "https://raw.githubusercontent.com/odradev/odra-template/master/src/flipper.rs";
    assert_eq!(g.generate_contract(Fetched::Failed, "proj"), Err(Error::FailedToFetchTemplate(url.to_string())));
    assert_eq!(g.generate_contract(Fetched::Undecodable, "proj"), Err(Error::FailedToParseTemplate(url.to_string())));
}

#[test]
fn a_project_from_the_default_repository() {
    let init = Init::new(init_command("My Project", ""));
    assert_eq!(init.init.repo_uri, "odradev/odra-template");
    assert_eq!(
        init.generate_project(true, "2024-01-02"),
        vec![Step::GenerateProject {
            source: "odradev/odra-template".to_string(),
            subfolder: None,
            branch: None,
            name: "my_project".to_string(),
            define: vec!["date=2024-01-02".to_string()],
            init: true,
        }]
    );
}

#[test]
fn a_project_from_a_named_repository() {
    let init = Init::new(init_command("TokenSale", "me/template"));
    assert_eq!(
        init.generate_project(false, "2030-12-31"),
        vec![Step::GenerateProject {
            source: "me/template".to_string(),
            subfolder: None,
            branch: None,
            name: "token_sale".to_string(),
            define: vec!["date=2030-12-31".to_string()],
            init: false,
        }]
    );
}

#[test]
fn test_arguments_start_with_the_subcommand() {
    let t = Tests::new(TestCommand { backend: None, args: vec!["a".to_string()], skip_build: false }, &vec![]).unwrap();
    assert_eq!(t.get_test_args(), vec!["test".to_string(), "a".to_string()]);
    assert_eq!(t.test_mock_vm("/p"), cargo("/p", &["test", "a", "--no-default-features", "--features=mock-vm"]));
    assert_eq!(t.test_backend("/p"), cargo("/p", &["test", "a", "--no-default-features", "--features=wasm-test"]));
}

#[test]
fn tests_against_the_mock() {
    let t = Tests::new(TestCommand { backend: None, args: vec![], skip_build: false }, &vec![]).unwrap();
    assert_eq!(
        t.test(&project(), "", &registry(), &OdraLocation::CratesIO("0.8.0".to_string()), &vec![]),
        Ok(vec![cargo("/p", &["test", "--no-default-features", "--features=mock-vm"])])
    );
}

#[test]
fn tests_against_a_backend_of_the_project() {
    let backends = vec![Backend::named("casper")];
    let t = Tests::new(
        TestCommand { backend: Some("casper".to_string()), args: vec![], skip_build: false },
        &backends,
    )
    .unwrap();
    assert_eq!(t.backend, Some(Backend::named("casper")));
    let location = OdraLocation::CratesIO("0.8.0".to_string());
    let mut want = backends[0]
        .build(&project(), "", "wasm32-unknown-unknown", &registry(), &location, &vec![])
        .unwrap();
    want.push(cargo("/p", &["test", "--no-default-features", "--features=wasm-test"]));
    assert_eq!(t.test(&project(), "wasm32-unknown-unknown", &registry(), &location, &vec![]), Ok(want));
    assert_eq!(
        t.test(&project(), "", &registry(), &location, &vec![]),
        Err(Error::WasmTargetNotInstalled)
    );
}

#[test]
fn tests_against_an_unknown_backend_are_refused() {
    assert_eq!(
        Tests::new(TestCommand { backend: Some("near".to_string()), args: vec![], skip_build: false }, &vec![Backend::named("casper")]),
        Err(Error::BackendNotFound("near".to_string()))
    );
}

#[test]
fn an_update_of_everything() {
    let backends = vec![Backend::named("casper"), Backend::named("near")];
    let want = vec![
        cargo("/p", &["update"]),
        cargo("/p/.builder_casper/", &["update"]),
        cargo("/p/.builder_near/", &["update"]),
    ];
    assert_eq!(update_everything(&backends, "/p"), want);
    assert_eq!(update(&UpdateCommand { backend: None }, &backends, "/p"), Ok(want));
}

#[test]
fn an_update_of_one_builder() {
    let backends = vec![Backend::named("casper"), Backend::named("near")];
    assert_eq!(
        update(&UpdateCommand { backend: Some("near".to_string()) }, &backends, "/p"),
        Ok(vec![cargo("/p/.builder_near/", &["update"])])
    );
    assert_eq!(update_builder(&backends[0], "."), cargo("./.builder_casper/", &["update"]));
    assert_eq!(
        update(&UpdateCommand { backend: Some("eth".to_string()) }, &backends, "/p"),
        Err(Error::BackendNotFound("eth".to_string()))
    );
}
