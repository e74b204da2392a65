use cargo_odra::actions::build_wasm::{plan_build, BuildAction};
use cargo_odra::actions::utils::{
    check_target_requirements, contracts, parse_contracts_names, remove_extra_spaces,
    select_contracts, validate_contract_name_argument,
};
use cargo_odra::backend::Backend;
use cargo_odra::builder::cargo_toml::build_cargo_toml;
use cargo_odra::builder::{mirror_of, Builder};
use cargo_odra::command::Step;
use cargo_odra::errors::Error;
use cargo_odra::odra_toml::{Contract, OdraToml};
use cargo_odra::project::{Member, OdraLocation, Project};

const INSTALLED: &str = "wasm32-unknown-unknown\nx86_64-unknown-linux-gnu\n";
const DIR: &str = "/p/.builder_casper/";

fn contract(fqn: &str) -> Contract {
    Contract::new(fqn.to_string()).unwrap()
}

fn registry(fqns: &[&str]) -> OdraToml {
    OdraToml { contracts: fqns.iter().map(|f| contract(f)).collect(), location: "/p/Odra.toml".to_string() }
}

fn project() -> Project {
    Project {
        name: "proj".to_string(),
        project_root: "/p".to_string(),
        cargo_toml_location: "/p/Cargo.toml".to_string(),
        odra_toml_location: "/p/Odra.toml".to_string(),
        members: vec![Member { name: "".to_string(), root: "/p".to_string(), cargo_toml: "/p/Cargo.toml".to_string() }],
    }
}

fn workspace() -> Project {
    let member = |name: &str| Member {
        name: name.to_string(),
        root: format!("/p/{}", name),
        cargo_toml: format!("/p/{}/Cargo.toml", name),
    };
    Project { members: vec![member("a"), member("b")], ..project() }
}

fn location() -> OdraLocation {
    OdraLocation::CratesIO("0.8.0".to_string())
}

fn build(project: &Project, filter: &str, installed: &str, reg: &OdraToml, existing: &[&str]) -> Result<Vec<Step>, Error> {
    let existing: Vec<String> = existing.iter().map(|e| e.to_string()).collect();
    plan_build(project, &Backend::named("casper"), filter, installed, reg, &location(), &existing)
}

fn env(name: &str) -> Vec<(String, String)> {
    vec![("ODRA_BACKEND".to_string(), "casper".to_string()), ("ODRA_MODULE".to_string(), name.to_string())]
}

fn codegen(name: &str) -> Step {
    Step::Cargo {
        dir: DIR.to_string(),
        args: vec!["run".to_string(), "--bin".to_string(), format!("{}_build", name)],
        env: env(name),
    }
}

fn compile(name: &str) -> Step {
    Step::Cargo {
        dir: DIR.to_string(),
        args: ["build", "--target", "wasm32-unknown-unknown", "--bin", name, "--release"]
            .iter()
            .map(|a| a.to_string())
            .collect(),
        env: env(name),
    }
}

fn built(name: &str) -> String {
    format!("/p/.builder_casper/target/wasm32-unknown-unknown/release/{}.wasm", name)
}

fn stub(fqn: &str, name: &str) -> Step {
    Step::WriteFile {
        path: format!("/p/.builder_casper/src/{}.rs", name),
        content: Builder::def_rs()
            .replace("#contract_fqn", fqn)
            .replace("#contract_name", name)
            .replace("#backend_name", "casper"),
    }
}

fn is_compile(step: &Step) -> bool {
    matches!(step, Step::Cargo { args, .. } if args[0] == "build")
}

fn is_codegen(step: &Step) -> bool {
    matches!(step, Step::Cargo { args, .. } if args[0] == "run")
}

#[test]
fn the_whole_plan_of_a_build_of_one_contract() {
    let reg = registry(&["flipper::Flipper"]);
    let plan = build(&project(), "", INSTALLED, &reg, &[]).unwrap();
    let manifest = build_cargo_toml(
        &Backend::named("casper"),
        &reg.contracts,
        &project().members,
        "proj",
        &location(),
    );
    assert_eq!(
        plan,
        vec![
            Step::MakeDir { path: "/p/.builder_casper/".to_string() },
            Step::MakeDir { path: "/p/.builder_casper/src".to_string() },
            Step::WriteManifest { path: "/p/.builder_casper/Cargo.toml".to_string(), manifest },
            stub("flipper::Flipper", "Flipper"),
            codegen("Flipper"),
            compile("Flipper"),
            Step::MakeDir { path: "/p/wasm".to_string() },
            Step::Copy { source: built("Flipper"), target: "/p/wasm/Flipper.wasm".to_string() },
            Step::WasmStrip { dir: "/p".to_string(), file: "/p/wasm/Flipper.wasm".to_string() },
        ]
    );
}

#[test]
fn the_harness_names_the_contract_and_the_backend() {
    let plan = build(&project(), "", INSTALLED, &registry(&["a::b::Token"]), &[]).unwrap();
    match &plan[3] {
        Step::WriteFile { path, content } => {
            assert_eq!(path, "/p/.builder_casper/src/Token.rs");
            assert!(content.contains("<a::b::Token as odra::contract_def::HasContractDef>::contract_def()"));
            assert!(content.contains("odra_casper_backend::codegen::gen_contract(contract_def, \"a::b::Token\".to_string())"));
            assert!(content.contains("File::create(\"src/Token_wasm.rs\")"));
            assert!(!content.contains('#'));
        }
        other => panic!("a written file was expected, not {:?}", other),
    }
}

#[test]
fn the_steps_come_phase_by_phase_in_registry_order() {
    let plan = build(&project(), "", INSTALLED, &registry(&["a::A", "b::B"]), &[]).unwrap();
    assert_eq!(
        plan[3..].to_vec(),
        vec![
            stub("a::A", "A"),
            stub("b::B", "B"),
            codegen("A"),
            codegen("B"),
            compile("A"),
            compile("B"),
            Step::MakeDir { path: "/p/wasm".to_string() },
            Step::Copy { source: built("A"), target: "/p/wasm/A.wasm".to_string() },
            Step::Copy { source: built("B"), target: "/p/wasm/B.wasm".to_string() },
            Step::WasmStrip { dir: "/p".to_string(), file: "/p/wasm/A.wasm".to_string() },
            Step::WasmStrip { dir: "/p".to_string(), file: "/p/wasm/B.wasm".to_string() },
        ]
    );
}

#[test]
fn a_missing_target_stops_the_build_before_anything_is_made() {
    let reg = registry(&["a::A"]);
    assert_eq!(build(&project(), "", "x86_64-unknown-linux-gnu\n", &reg, &[]), Err(Error::WasmTargetNotInstalled));
    assert_eq!(build(&project(), "A", "", &reg, &[]), Err(Error::WasmTargetNotInstalled));
    assert_eq!(build(&project(), "Nope", "wasm32-wasi", &reg, &[]), Err(Error::WasmTargetNotInstalled));
}

#[test]
fn an_existing_harness_is_not_written_again() {
    let reg = registry(&["a::A", "b::B"]);
    let plan = build(&project(), "", INSTALLED, &reg, &["/p/.builder_casper/src/A.rs"]).unwrap();
    let written: Vec<&Step> = plan.iter().filter(|s| matches!(s, Step::WriteFile { .. })).collect();
    assert_eq!(written, vec![&stub("b::B", "B")]);
    assert!(plan.contains(&codegen("A")));
    assert!(plan.contains(&compile("A")));
}

#[test]
fn a_second_build_writes_no_harness_at_all() {
    let reg = registry(&["a::A", "b::B"]);
    let first = build(&project(), "", INSTALLED, &reg, &[]).unwrap();
    let made: Vec<String> = first
        .iter()
        .filter_map(|s| match s {
            Step::WriteFile { path, .. } => Some(path.clone()),
            _ => None,
        })
        .collect();
    assert_eq!(made, vec!["/p/.builder_casper/src/A.rs", "/p/.builder_casper/src/B.rs"]);
    let made: Vec<&str> = made.iter().map(|m| m.as_str()).collect();
    let second = build(&project(), "", INSTALLED, &reg, &made).unwrap();
    assert!(second.iter().all(|s| !matches!(s, Step::WriteFile { .. })));
    assert!(second.iter().any(|s| matches!(s, Step::WriteManifest { .. })));
    assert_eq!(second.len(), first.len() - 2);
}

#[test]
fn a_filter_with_a_tab_or_a_line_break_is_refused() {
    let reg = registry(&["a::A", "b::B"]);
    let refused = Err(Error::FailedToParseArgument("contracts_names".to_string()));
    for filter in ["A\tB", "A\nB", "\tA", "A\n", "A B\r", "A\u{A0}B", "A\u{2028}"] {
        assert_eq!(build(&project(), filter, INSTALLED, &reg, &[]), refused);
        assert_eq!(build(&project(), filter, "", &reg, &[]), refused);
    }
}

#[test]
fn a_build_of_one_contract_of_two_touches_that_one_only() {
    let reg = registry(&["a::A", "b::B"]);
    let plan = build(&project(), "A", INSTALLED, &reg, &[]).unwrap();
    assert_eq!(plan.iter().filter(|s| is_codegen(s)).count(), 1);
    assert_eq!(plan.iter().filter(|s| is_compile(s)).count(), 1);
    assert_eq!(plan.iter().filter(|s| matches!(s, Step::Copy { .. })).count(), 1);
    assert_eq!(plan.iter().filter(|s| matches!(s, Step::WasmStrip { .. })).count(), 1);
    assert!(plan.contains(&compile("A")));
    assert!(plan.contains(&Step::Copy { source: built("A"), target: "/p/wasm/A.wasm".to_string() }));
    assert!(plan.contains(&Step::WasmStrip { dir: "/p".to_string(), file: "/p/wasm/A.wasm".to_string() }));
    assert_eq!(
        plan[3..].to_vec(),
        vec![
            stub("a::A", "A"),
            codegen("A"),
            compile("A"),
            Step::MakeDir { path: "/p/wasm".to_string() },
            Step::Copy { source: built("A"), target: "/p/wasm/A.wasm".to_string() },
            Step::WasmStrip { dir: "/p".to_string(), file: "/p/wasm/A.wasm".to_string() },
        ]
    );
    match &plan[2] {
        Step::WriteManifest { manifest, .. } => {
            let names: Vec<&str> = manifest.bin.iter().map(|b| b.name.as_str()).collect();
            assert_eq!(names, vec!["A_build", "A"]);
        }
        other => panic!("a manifest was expected, not {:?}", other),
    }
}

#[test]
fn an_unknown_contract_stops_the_build() {
    let reg = registry(&["a::A", "b::B"]);
    assert_eq!(build(&project(), "A C B", INSTALLED, &reg, &[]), Err(Error::ContractNotFound("C".to_string())));
    assert_eq!(build(&project(), "a::A", INSTALLED, &reg, &[]), Err(Error::ContractNotFound("a::A".to_string())));
}

#[test]
fn an_empty_filter_selects_every_contract() {
    let reg = registry(&["a::A", "b::B"]);
    let all = build(&project(), "", INSTALLED, &reg, &[]).unwrap();
    assert_eq!(build(&project(), "   ", INSTALLED, &reg, &[]).unwrap(), all);
    assert_eq!(build(&project(), " B  A ", INSTALLED, &reg, &[]).unwrap(), all);
}

#[test]
fn in_a_workspace_the_binary_is_mirrored_into_its_member() {
    let reg = registry(&["a::A"]);
    let plan = build(&workspace(), "", INSTALLED, &reg, &[]).unwrap();
    assert_eq!(
        plan[6..].to_vec(),
        vec![
            Step::MakeDir { path: "/p/wasm".to_string() },
            Step::Copy { source: built("A"), target: "/p/wasm/A.wasm".to_string() },
            Step::MakeDir { path: "/p/a/wasm".to_string() },
            Step::Copy { source: built("A"), target: "/p/a/wasm/A.wasm".to_string() },
            Step::WasmStrip { dir: "/p".to_string(), file: "/p/wasm/A.wasm".to_string() },
            Step::WasmStrip { dir: "/p/a".to_string(), file: "/p/a/wasm/A.wasm".to_string() },
        ]
    );
}

#[test]
fn a_contract_gets_a_mirror_only_in_a_member_below_the_root() {
    assert_eq!(mirror_of(&workspace(), &contract("a::A")), Some("/p/a".to_string()));
    assert_eq!(mirror_of(&workspace(), &contract("c::C")), None);
    assert_eq!(mirror_of(&project(), &contract("a::A")), None);
    let mut at_root = workspace();
    at_root.members[0].root = "/p".to_string();
    assert_eq!(mirror_of(&at_root, &contract("a::A")), None);
}

#[test]
fn a_build_action_plans_what_its_backend_plans() {
    let reg = registry(&["a::A", "b::B"]);
    let backend = Backend::named("casper");
    let p = project();
    let existing: Vec<String> = vec![];
    let action = BuildAction::new(&p, &backend, Some("B".to_string()));
    assert_eq!(action.contracts_names(), "B");
    assert_eq!(
        action.build(INSTALLED, &reg, &location(), &existing),
        build(&project(), "B", INSTALLED, &reg, &[])
    );
    assert_eq!(
        backend.build(&p, "B", INSTALLED, &reg, &location(), &existing),
        build(&project(), "B", INSTALLED, &reg, &[])
    );
    let action = BuildAction::new(&p, &backend, None);
    assert_eq!(action.contracts_names(), "");
    assert_eq!(
        action.build(INSTALLED, &reg, &location(), &existing),
        build(&project(), "", INSTALLED, &reg, &[])
    );
}

#[test]
fn the_parts_of_a_builders_plan() {
    let builder = Builder::new(Backend::named("casper"));
    let cs = vec![contract("a::A")];
    let none: Vec<String> = vec![];
    assert_eq!(builder.builder_path(), ".builder_casper/");
    assert_eq!(builder.test_env_path(), ".builder_casper/test_env");
    assert_eq!(builder.root_in("/p"), "/p/.builder_casper/");
    assert_eq!(builder.create_build_files("/p", &cs, &none), vec![stub("a::A", "A")]);
    assert_eq!(builder.build_wasm("/p", &cs), vec![codegen("A"), compile("A")]);
    assert_eq!(
        builder.copy_wasm_files(&project(), &cs),
        vec![
            Step::MakeDir { path: "/p/wasm".to_string() },
            Step::Copy { source: built("A"), target: "/p/wasm/A.wasm".to_string() },
            Step::WasmStrip { dir: "/p".to_string(), file: "/p/wasm/A.wasm".to_string() },
        ]
    );
    assert_eq!(Builder::main_rs(), "\nfn main() {}\n        ");
}

#[test]
fn the_target_must_be_among_the_installed_ones() {
    assert_eq!(check_target_requirements(INSTALLED), Ok(()));
    assert_eq!(check_target_requirements("wasm32-unknown-unknown"), Ok(()));
    assert_eq!(check_target_requirements("wasm32-wasi\n"), Err(Error::WasmTargetNotInstalled));
    assert_eq!(check_target_requirements(""), Err(Error::WasmTargetNotInstalled));
}

#[test]
fn extra_spaces_are_removed() {
    assert_eq!(remove_extra_spaces("  A   B C "), Ok("A B C".to_string()));
    assert_eq!(remove_extra_spaces("A"), Ok("A".to_string()));
    assert_eq!(remove_extra_spaces(""), Ok("".to_string()));
    assert_eq!(remove_extra_spaces("A\tB"), Err(Error::FailedToParseArgument("contracts_names".to_string())));
}

#[test]
fn a_filter_lists_names_between_spaces() {
    assert_eq!(parse_contracts_names("A B"), Ok(vec!["A".to_string(), "B".to_string()]));
    assert_eq!(parse_contracts_names("  A   B "), Ok(vec!["A".to_string(), "B".to_string()]));
    assert_eq!(parse_contracts_names(""), Ok(vec![]));
    assert_eq!(parse_contracts_names("   "), Ok(vec![]));
    assert_eq!(parse_contracts_names("A\nB"), Err(Error::FailedToParseArgument("contracts_names".to_string())));
}

#[test]
fn a_filter_selects_contracts_in_registry_order() {
    let reg = registry(&["a::A", "b::B", "c::C"]);
    assert_eq!(contracts(&reg, "C A"), Ok(vec![contract("a::A"), contract("c::C")]));
    assert_eq!(contracts(&reg, ""), Ok(reg.contracts.clone()));
    assert_eq!(contracts(&reg, "Z"), Ok(vec![]));
    assert_eq!(contracts(&reg, "A\tB"), Err(Error::FailedToParseArgument("contracts_names".to_string())));
    assert_eq!(
        select_contracts(&reg.contracts, &vec!["B".to_string()]),
        vec![contract("b::B")]
    );
}

#[test]
fn every_name_of_a_filter_must_be_in_the_registry() {
    let reg = registry(&["a::A", "b::B"]);
    assert_eq!(validate_contract_name_argument(&reg, "A B"), Ok(()));
    assert_eq!(validate_contract_name_argument(&reg, ""), Ok(()));
    assert_eq!(validate_contract_name_argument(&reg, "A X Y"), Err(Error::ContractNotFound("X".to_string())));
    assert_eq!(
        validate_contract_name_argument(&reg, "A\tX"),
        Err(Error::FailedToParseArgument("contracts_names".to_string()))
    );
}

#[test]
fn the_library_of_the_test_environment_is_built_in_the_builder() {
    let builder = Builder::new(Backend::named("casper"));
    let source = "/p/.builder_casper/target/release/deps/libodra_test_env.so".to_string();
    assert_eq!(
        builder.build_lib("/p"),
        vec![
            Step::Cargo {
                dir: DIR.to_string(),
                args: vec!["run".to_string(), "--bin".to_string(), "builder".to_string(), "--release".to_string()],
                env: vec![],
            },
            Step::Copy { source: source.clone(), target: "/p/target/release/libodra_test_env.so".to_string() },
            Step::Copy { source, target: "/p/target/debug/libodra_test_env.so".to_string() },
        ]
    );
}
