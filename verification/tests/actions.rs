use cargo_odra::actions::clean::clean_action;
use cargo_odra::actions::client::client_action;
use cargo_odra::actions::generate::GenerateAction;
use cargo_odra::actions::schema::SchemaAction;
use cargo_odra::actions::test::TestAction;
use cargo_odra::actions::update::{update_action, update_project};
use cargo_odra::actions::build_wasm::plan_build;
use cargo_odra::backend::Backend;
use cargo_odra::cli::UpdateCommand;
use cargo_odra::command::Step;
use cargo_odra::errors::Error;
use cargo_odra::odra_toml::{Contract, OdraToml};
use cargo_odra::project::{Member, OdraLocation, Project};
use cargo_odra::template::Fetched;

const INSTALLED: &str = "wasm32-unknown-unknown\n";

fn registry(fqns: &[&str]) -> OdraToml {
    OdraToml {
        contracts: fqns.iter().map(|f| Contract::new(f.to_string()).unwrap()).collect(),
        location: "/p/Odra.toml".to_string(),
    }
}

fn project() -> Project {
    Project {
        name: "proj".to_string(),
        project_root: "/p".to_string(),
        cargo_toml_location: "/p/Cargo.toml".to_string(),
        odra_toml_location: "/p/Odra.toml".to_string(),
        members: vec![Member { name: "".to_string(), root: "/p".to_string(), cargo_toml: "/p/Cargo.toml".to_string() }],
    }
}

fn workspace() -> Project {
    let member = |name: &str| Member {
        name: name.to_string(),
        root: format!("/p/{}", name),
        cargo_toml: format!("/p/{}/Cargo.toml", name),
    };
    Project { members: vec![member("tokens"), member("games")], ..project() }
}

fn location() -> OdraLocation {
    OdraLocation::CratesIO("0.8.0".to_string())
}

fn cargo(dir: &str, args: &[&str], env: &[(&str, &str)]) -> Step {
    Step::Cargo {
        dir: dir.to_string(),
        args: args.iter().map(|a| a.to_string()).collect(),
        env: env.iter().map(|(k, v)| (k.to_string(), v.to_string())).collect(),
    }
}

fn body(text: &str) -> Fetched {
    Fetched::Body(text.to_string())
}

const SNIPPET: &str = "pub mod #contract_name;\npub use #contract_name::{#module_name, #module_nameRef};\n";

#[test]
fn cleaning_removes_outputs_and_builders() {
    let plan = clean_action(&workspace(), &vec![".builder_casper".to_string()]);
    assert_eq!(
        plan,
        vec![
            Step::RemoveDir { path: "/p/tokens/wasm".to_string() },
            Step::RemoveDir { path: "/p/games/wasm".to_string() },
            Step::RemoveDir { path: "/p/wasm".to_string() },
            Step::RemoveDir { path: "/p/.builder_casper".to_string() },
            cargo("/p", &["clean"], &[]),
        ]
    );
}

#[test]
fn cleaning_a_project_without_builders() {
    let mut p = project();
    p.members = vec![];
    assert_eq!(
        clean_action(&p, &vec![]),
        vec![Step::RemoveDir { path: "/p/wasm".to_string() }, cargo("/p", &["clean"], &[])]
    );
}

#[test]
fn a_client_is_generated_from_the_frameworks_template() {
    assert_eq!(
        client_action(&project(), &location()),
        vec![
            Step::GenerateProject {
                source: "https://github.com/odradev/odra.git".to_string(),
                subfolder: Some("templates/client".to_string()),
                branch: Some("release/0.8.0".to_string()),
                name: "client".to_string(),
                define: vec![],
                init: false,
            },
            Step::ReplaceInFile {
                path: "/p/client/Cargo.toml".to_string(),
                from: "#project_name".to_string(),
                to: "proj".to_string(),
            },
        ]
    );
    let plan = client_action(&project(), &OdraLocation::Local("../odra".to_string()));
    assert_eq!(
        plan[0],
        Step::GenerateProject {
            source: "../odra".to_string(),
            subfolder: Some("templates/client".to_string()),
            branch: None,
            name: "client".to_string(),
            define: vec![],
            init: false,
        }
    );
}

#[test]
fn an_update_updates_the_project() {
    assert_eq!(update_action(&UpdateCommand { backend: None }, "/p"), vec![cargo("/p", &["update"], &[])]);
    assert_eq!(
        update_action(&UpdateCommand { backend: Some("casper".to_string()) }, "."),
        vec![cargo(".", &["update"], &[])]
    );
    assert_eq!(update_project("/p"), cargo("/p", &["update"], &[]));
}

#[test]
fn schemas_are_written_for_the_selected_contracts() {
    let p = project();
    let reg = registry(&["flipper::Flipper", "tokens::erc20::Erc20"]);
    let action = SchemaAction::new(&p, Some("Erc20".to_string()));
    assert_eq!(action.contracts_names(), "Erc20");
    assert_eq!(
        action.build(INSTALLED, &reg),
        Ok(vec![cargo(
            "/p",
            &["run", "--bin", "proj_build_schema", "--release"],
            &[("ODRA_MODULE", "Erc20")]
        )])
    );
    let all = SchemaAction::new(&p, None).build(INSTALLED, &reg).unwrap();
    assert_eq!(all.len(), 2);
}

#[test]
fn in_a_workspace_a_schema_is_written_by_the_contracts_crate() {
    let p = workspace();
    let reg = registry(&["tokens::erc20::Erc20"]);
    assert_eq!(
        SchemaAction::new(&p, None).generate_schema_files(&reg.contracts),
        vec![cargo(
            "/p",
            &["run", "--bin", "tokens_build_schema", "--release"],
            &[("ODRA_MODULE", "Erc20")]
        )]
    );
}

#[test]
fn schemas_need_the_target_and_known_contracts() {
    let p = project();
    let reg = registry(&["flipper::Flipper"]);
    assert_eq!(SchemaAction::new(&p, None).build("", &reg), Err(Error::WasmTargetNotInstalled));
    assert_eq!(
        SchemaAction::new(&p, Some("Nope".to_string())).build(INSTALLED, &reg),
        Err(Error::ContractNotFound("Nope".to_string()))
    );
    assert_eq!(
        SchemaAction::new(&p, Some("A\tB".to_string())).build("", &reg),
        Err(Error::FailedToParseArgument("contracts_names".to_string()))
    );
}

#[test]
fn tests_without_a_backend_run_as_they_are() {
    let p = project();
    let action = TestAction::new(&p, None, vec!["--".to_string(), "--nocapture".to_string()], false);
    assert_eq!(action.get_passthrough_args(), &vec!["--".to_string(), "--nocapture".to_string()]);
    assert_eq!(
        action.test("", &registry(&["a::A"]), &location(), &vec![]),
        Ok(vec![cargo("/p", &["test", "--lib", "--", "--nocapture"], &[])])
    );
    assert_eq!(action.test_mock_vm(), cargo("/p", &["test", "--lib", "--", "--nocapture"], &[]));
}

#[test]
fn tests_against_a_backend_build_first() {
    let p = project();
    let reg = registry(&["a::A"]);
    let action = TestAction::new(&p, Some("casper".to_string()), vec![], false);
    assert_eq!(action.backend_name(), "casper");
    let mut want =
        plan_build(&p, &Backend::named("casper"), "", INSTALLED, &reg, &location(), &vec![]).unwrap();
    assert_eq!(action.build_wasm_files(INSTALLED, &reg, &location(), &vec![]), Ok(want.clone()));
    want.push(cargo("/p", &["test", "--lib"], &[("ODRA_BACKEND", "casper")]));
    assert_eq!(action.test(INSTALLED, &reg, &location(), &vec![]), Ok(want));
    assert_eq!(action.test_backend(), cargo("/p", &["test", "--lib"], &[("ODRA_BACKEND", "casper")]));
}

#[test]
fn a_failing_build_stops_the_tests() {
    let p = project();
    let action = TestAction::new(&p, Some("casper".to_string()), vec![], false);
    assert_eq!(
        action.test("", &registry(&["a::A"]), &location(), &vec![]),
        Err(Error::WasmTargetNotInstalled)
    );
}

#[test]
fn the_build_before_the_tests_can_be_skipped() {
    let p = project();
    let action = TestAction::new(&p, Some("casper".to_string()), vec!["x".to_string()], true);
    assert_eq!(
        action.test("", &registry(&["a::A"]), &location(), &vec![]),
        Ok(vec![cargo("/p", &["test", "--lib", "x"], &[("ODRA_BACKEND", "casper")])])
    );
}

#[test]
fn a_workspace_needs_a_module_for_a_new_contract() {
    let p = workspace();
    assert!(matches!(
        GenerateAction::new(&p, location(), "my token".to_string(), None),
        Err(Error::ModuleNotProvided)
    ));
    match GenerateAction::new(&p, location(), "my token".to_string(), Some("nope".to_string())) {
        Err(e) => assert_eq!(e, Error::ModuleNotFound("nope".to_string())),
        Ok(_) => panic!("a module that is no member must be refused"),
    }
}

#[test]
fn the_names_of_a_new_contract() {
    let p = project();
    let g = GenerateAction::new(&p, location(), "my token".to_string(), None).unwrap();
    assert_eq!(g.contract_name(), "my token");
    assert_eq!(g.contract_struct_name(), "MyToken");
    assert_eq!(g.module_name(), "my_token");
    assert_eq!(g.module_ref_ident(), "my_tokenRef");
    assert_eq!(g.module_file_path(), "/p/src/my_token.rs");
    assert_eq!(g.module_root, "/p");
    let w = workspace();
    let g = GenerateAction::new(&w, location(), "dice".to_string(), Some("games".to_string())).unwrap();
    assert_eq!(g.module_file_path(), "/p/games/src/dice.rs");
}

#[test]
fn the_plan_of_a_new_contract() {
    let p = project();
    let g = GenerateAction::new(&p, location(), "my_token".to_string(), None).unwrap();
    let plan = g.generate_contract(
        body("pub struct #module_name;"),
        false,
        body(SNIPPET),
        Some("pub mod flipper;\n"),
        &registry(&["flipper::Flipper"]),
    );
    assert_eq!(
        plan,
        Ok(vec![
            Step::WriteFile { path: "/p/src/my_token.rs".to_string(), content: "pub struct MyToken;".to_string() },
            Step::AppendFile {
                path: "/p/src/lib.rs".to_string(),
                content: "pub mod my_token;\npub use my_token::{MyToken, MyTokenRef};\n".to_string(),
            },
            Step::SaveRegistry {
                path: "/p/Odra.toml".to_string(),
                contracts: vec!["flipper::Flipper".to_string(), "my_token::MyToken".to_string()],
            },
        ])
    );
}

#[test]
fn a_new_contract_in_a_workspace_is_named_behind_its_member() {
    let w = workspace();
    let g = GenerateAction::new(&w, location(), "dice".to_string(), Some("games".to_string())).unwrap();
    assert_eq!(
        g.update_odra_toml(&registry(&[])),
        Ok(vec![Step::SaveRegistry {
            path: "/p/Odra.toml".to_string(),
            contracts: vec!["games::dice::Dice".to_string()],
        }])
    );
}

#[test]
fn a_contract_file_that_exists_is_not_written_over() {
    let p = project();
    let g = GenerateAction::new(&p, location(), "my_token".to_string(), None).unwrap();
    assert_eq!(
        g.add_contract_file_to_src(body("x"), true),
        Err(Error::FileAlreadyExists("/p/src/my_token.rs".to_string()))
    );
    assert_eq!(
        g.generate_contract(body("x"), true, body(SNIPPET), Some(""), &registry(&[])),
        Err(Error::FileAlreadyExists("/p/src/my_token.rs".to_string()))
    );
}

#[test]
fn a_template_that_cannot_be_had_stops_the_new_contract() {
    let p = project();
    let g = GenerateAction::new(&p, location(), "my_token".to_string(), None).unwrap();
    assert_eq!(
        g.add_contract_file_to_src(Fetched::Failed, false),
        Err(Error::FailedToFetchTemplate(
            "https://raw.githubusercontent.com/odradev/odra/release/0.8.0/templates/module.rs.template".to_string()
        ))
    );
    assert_eq!(
        g.update_lib_rs(Fetched::Undecodable, Some("")),
        Err(Error::FailedToParseTemplate(
            "https://raw.githubusercontent.com/odradev/odra/release/0.8.0/templates/module_register.rs.template".to_string()
        ))
    );
}

#[test]
fn the_root_file_must_be_there_and_must_not_hold_the_registration() {
    let p = project();
    let g = GenerateAction::new(&p, location(), "my_token".to_string(), None).unwrap();
    assert_eq!(g.update_lib_rs(body(SNIPPET), None), Err(Error::LibRsNotFound));
    assert_eq!(
        g.update_lib_rs(
            body(SNIPPET),
            Some("// lib\npub mod my_token;\npub use my_token::{MyToken, MyTokenRef};\n")
        ),
        Err(Error::ModuleAlreadyInLibRs("my_token".to_string()))
    );
}

#[test]
fn a_root_file_that_seems_to_know_the_contract_is_left_alone() {
    let p = project();
    let g = GenerateAction::new(&p, location(), "my_token".to_string(), None).unwrap();
    assert_eq!(g.update_lib_rs(body(SNIPPET), Some("mod my_token;")), Ok(vec![]));
    assert_eq!(g.update_lib_rs(body(SNIPPET), Some("use x::{MyToken, my_tokenRef};")), Ok(vec![]));
    assert_eq!(g.update_lib_rs(body(SNIPPET), Some("use x::MyToken;")).map(|p| p.len()), Ok(1));
}

#[test]
fn a_contract_that_the_registry_has_is_not_entered_again() {
    let p = project();
    let g = GenerateAction::new(&p, location(), "my_token".to_string(), None).unwrap();
    assert_eq!(
        g.update_odra_toml(&registry(&["other::MyToken"])),
        Err(Error::ContractAlreadyInOdraToml("MyToken".to_string()))
    );
}

#[test]
fn a_name_that_gives_no_well_formed_entry_is_refused() {
    let p = project();
    let g = GenerateAction::new(&p, location(), "".to_string(), None).unwrap();
    assert_eq!(g.update_odra_toml(&registry(&[])), Err(Error::MalformedFqn("::".to_string())));
}
