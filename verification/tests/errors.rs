use cargo_odra::errors::{Error, ErrorKind};

#[test]
fn every_failure_has_its_exit_code() {
    let s = || "x".to_string();
    let cases = vec![
        (Error::CommandFailed(s()), 1),
        (Error::InvalidInternalCommand(s()), 2),
        (Error::FailedToReadCargo(s()), 3),
        (Error::WasmTargetNotInstalled, 4),
        (Error::NotAnOdraProject, 5),
        (Error::WasmstripNotInstalled, 6),
        (Error::CurrentDirIsNotEmpty, 7),
        (Error::FileAlreadyExists(s()), 8),
        (Error::ContractAlreadyInOdraToml(s()), 9),
        (Error::RemoveDirNotPossible(s()), 10),
        (Error::ModuleNotFound(s()), 11),
        (Error::OdraTomlNotFound(s()), 12),
        (Error::NotImplemented(s()), 13),
        (Error::FailedToFetchTemplate(s()), 14),
        (Error::FailedToParseTemplate(s()), 15),
        (Error::CouldNotDetermineCurrentDirectory, 16),
        (Error::ContractNotFound(s()), 17),
        (Error::OdraNotADependency, 18),
        (Error::FailedToGenerateProjectFromTemplate(s()), 19),
        (Error::FailedToParseArgument(s()), 20),
        (Error::MalformedFqn(s()), 21),
        (Error::ModuleNotProvided, 22),
        (Error::LibRsNotFound, 23),
        (Error::ModuleAlreadyInLibRs(s()), 24),
        (Error::BackendNotFound(s()), 25),
    ];
    for (error, code) in cases {
        assert_eq!(error.code(), code);
        assert_eq!(error.kind().code(), code);
    }
}

#[test]
fn exit_codes_are_distinct_and_not_zero() {
    let kinds = [
        ErrorKind::CommandFailed,
        ErrorKind::InvalidInternalCommand,
        ErrorKind::FailedToReadCargo,
        ErrorKind::WasmTargetNotInstalled,
        ErrorKind::NotAnOdraProject,
        ErrorKind::WasmstripNotInstalled,
        ErrorKind::CurrentDirIsNotEmpty,
        ErrorKind::FileAlreadyExists,
        ErrorKind::ContractAlreadyInOdraToml,
        ErrorKind::RemoveDirNotPossible,
        ErrorKind::ModuleNotFound,
        ErrorKind::OdraTomlNotFound,
        ErrorKind::NotImplemented,
        ErrorKind::FailedToFetchTemplate,
        ErrorKind::FailedToParseTemplate,
        ErrorKind::CouldNotDetermineCurrentDirectory,
        ErrorKind::ContractNotFound,
        ErrorKind::OdraNotADependency,
        ErrorKind::FailedToGenerateProjectFromTemplate,
        ErrorKind::FailedToParseArgument,
        ErrorKind::MalformedFqn,
        ErrorKind::ModuleNotProvided,
        ErrorKind::LibRsNotFound,
        ErrorKind::ModuleAlreadyInLibRs,
        ErrorKind::BackendNotFound,
    ];
    for (i, a) in kinds.iter().enumerate() {
        assert_ne!(a.code(), 0);
        for (j, b) in kinds.iter().enumerate() {
            assert_eq!(a.code() == b.code(), i == j);
        }
    }
}

#[test]
fn messages_name_what_failed() {
    assert_eq!(Error::CommandFailed("cargo build".to_string()).message(), "Command cargo build failed.");
    assert_eq!(Error::InvalidInternalCommand("".to_string()).message(), "Invalid command .");
    assert_eq!(
        Error::FailedToReadCargo("no such file".to_string()).message(),
        "Failed to read Cargo.toml: no such file."
    );
    assert_eq!(
        Error::WasmTargetNotInstalled.message(),
        "wasm32-unknown-unknown target is not present, install it by executing:\nrustup target add wasm32-unknown-unknown"
    );
    assert_eq!(
        Error::NotAnOdraProject.message(),
        "This command can be executed only in folder with Odra project."
    );
    assert_eq!(
        Error::WasmstripNotInstalled.message(),
        "There was an error while running wasm-strip - is it installed?"
    );
    assert_eq!(Error::CurrentDirIsNotEmpty.message(), "Current directory is not empty.");
    assert_eq!(Error::FileAlreadyExists("src/a.rs".to_string()).message(), "File src/a.rs already exists.");
    assert_eq!(
        Error::ContractAlreadyInOdraToml("Token".to_string()).message(),
        "Contract Token already in Odra.toml"
    );
    assert_eq!(Error::RemoveDirNotPossible("wasm".to_string()).message(), "Removing wasm directory failed.");
    assert_eq!(Error::ModuleNotFound("m".to_string()).message(), "Module m not found.");
    assert_eq!(
        Error::OdraTomlNotFound("/p/Odra.toml".to_string()).message(),
        "Odra.toml not found at location /p/Odra.toml"
    );
    assert_eq!(Error::NotImplemented("x".to_string()).message(), "Not implemented: x");
    assert_eq!(Error::FailedToFetchTemplate("u".to_string()).message(), "Failed to fetch template: u");
    assert_eq!(Error::FailedToParseTemplate("u".to_string()).message(), "Failed to parse template: u");
    assert_eq!(
        Error::CouldNotDetermineCurrentDirectory.message(),
        "Could not determine the current directory, please make sure you have permissions to access it."
    );
    assert_eq!(Error::ContractNotFound("B".to_string()).message(), "Contract B not found in Odra.toml");
    assert_eq!(Error::OdraNotADependency.message(), "Odra is not a dependency of this project.");
    assert_eq!(
        Error::FailedToGenerateProjectFromTemplate("why".to_string()).message(),
        "Failed to generate project from template: why"
    );
    assert_eq!(
        Error::FailedToParseArgument("contracts_names".to_string()).message(),
        "Failed to parse the argument: contracts_names"
    );
    assert_eq!(Error::MalformedFqn("Z".to_string()).message(), "Malformed fully qualified name: Z");
    assert_eq!(Error::ModuleNotProvided.message(), "Module name is required in a workspace.");
    assert_eq!(Error::LibRsNotFound.message(), "src/lib.rs not found.");
    assert_eq!(Error::ModuleAlreadyInLibRs("t".to_string()).message(), "Module t already in src/lib.rs");
    assert_eq!(Error::BackendNotFound("b".to_string()).message(), "Backend b not found.");
}

#[test]
fn kind_and_detail_take_a_failure_apart() {
    let e = Error::ContractNotFound("Token".to_string());
    assert_eq!(e.kind(), ErrorKind::ContractNotFound);
    assert_eq!(e.detail(), "Token");
    let e = Error::NotAnOdraProject;
    assert_eq!(e.kind(), ErrorKind::NotAnOdraProject);
    assert_eq!(e.detail(), "");
}
