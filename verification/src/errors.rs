//! Everything that can go wrong, with its exit code and its message.

use vstd::prelude::*;
use vstd::string::*;

verus! {

/// The kind of a failure, without its detail.
#[derive(Clone, Copy, Debug, PartialEq, Eq, Structural)]
pub enum ErrorKind {
    CommandFailed,
    InvalidInternalCommand,
    FailedToReadCargo,
    WasmTargetNotInstalled,
    NotAnOdraProject,
    WasmstripNotInstalled,
    CurrentDirIsNotEmpty,
    FileAlreadyExists,
    ContractAlreadyInOdraToml,
    RemoveDirNotPossible,
    ModuleNotFound,
    OdraTomlNotFound,
    NotImplemented,
    FailedToFetchTemplate,
    FailedToParseTemplate,
    CouldNotDetermineCurrentDirectory,
    ContractNotFound,
    OdraNotADependency,
    FailedToGenerateProjectFromTemplate,
    FailedToParseArgument,
    MalformedFqn,
    ModuleNotProvided,
    LibRsNotFound,
    ModuleAlreadyInLibRs,
    BackendNotFound,
}

/// A failure. Where a variant carries text, it is the command, path, name or
/// address that the failure is about.
#[derive(Clone, Debug, PartialEq, Eq)]
pub enum Error {
    CommandFailed(String),
    InvalidInternalCommand(String),
    FailedToReadCargo(String),
    WasmTargetNotInstalled,
    NotAnOdraProject,
    WasmstripNotInstalled,
    CurrentDirIsNotEmpty,
    FileAlreadyExists(String),
    ContractAlreadyInOdraToml(String),
    RemoveDirNotPossible(String),
    ModuleNotFound(String),
    OdraTomlNotFound(String),
    NotImplemented(String),
    FailedToFetchTemplate(String),
    FailedToParseTemplate(String),
    CouldNotDetermineCurrentDirectory,
    ContractNotFound(String),
    OdraNotADependency,
    FailedToGenerateProjectFromTemplate(String),
    FailedToParseArgument(String),
    MalformedFqn(String),
    ModuleNotProvided,
    LibRsNotFound,
    ModuleAlreadyInLibRs(String),
    BackendNotFound(String),
}

/// The exit code of each kind of failure.
pub open spec fn kind_code(kind: ErrorKind) -> int {
    match kind {
        ErrorKind::CommandFailed => 1,
        ErrorKind::InvalidInternalCommand => 2,
        ErrorKind::FailedToReadCargo => 3,
        ErrorKind::WasmTargetNotInstalled => 4,
        ErrorKind::NotAnOdraProject => 5,
        ErrorKind::WasmstripNotInstalled => 6,
        ErrorKind::CurrentDirIsNotEmpty => 7,
        ErrorKind::FileAlreadyExists => 8,
        ErrorKind::ContractAlreadyInOdraToml => 9,
        ErrorKind::RemoveDirNotPossible => 10,
        ErrorKind::ModuleNotFound => 11,
        ErrorKind::OdraTomlNotFound => 12,
        ErrorKind::NotImplemented => 13,
        ErrorKind::FailedToFetchTemplate => 14,
        ErrorKind::FailedToParseTemplate => 15,
        ErrorKind::CouldNotDetermineCurrentDirectory => 16,
        ErrorKind::ContractNotFound => 17,
        ErrorKind::OdraNotADependency => 18,
        ErrorKind::FailedToGenerateProjectFromTemplate => 19,
        ErrorKind::FailedToParseArgument => 20,
        ErrorKind::MalformedFqn => 21,
        ErrorKind::ModuleNotProvided => 22,
        ErrorKind::LibRsNotFound => 23,
        ErrorKind::ModuleAlreadyInLibRs => 24,
        ErrorKind::BackendNotFound => 25,
    }
}

/// The message of a failure of kind `kind` about `detail`.
pub open spec fn message_text(kind: ErrorKind, detail: Seq<char>) -> Seq<char> {
    match kind {
        ErrorKind::CommandFailed => "Command "@ + detail + " failed."@,
        ErrorKind::InvalidInternalCommand => "Invalid command "@ + detail + "."@,
        ErrorKind::FailedToReadCargo => "Failed to read Cargo.toml: "@ + detail + "."@,
        ErrorKind::WasmTargetNotInstalled =>
            "wasm32-unknown-unknown target is not present, install it by executing:\nrustup target add wasm32-unknown-unknown"@,
        ErrorKind::NotAnOdraProject =>
            "This command can be executed only in folder with Odra project."@,
        ErrorKind::WasmstripNotInstalled =>
            "There was an error while running wasm-strip - is it installed?"@,
        ErrorKind::CurrentDirIsNotEmpty => "Current directory is not empty."@,
        ErrorKind::FileAlreadyExists => "File "@ + detail + " already exists."@,
        ErrorKind::ContractAlreadyInOdraToml => "Contract "@ + detail + " already in Odra.toml"@,
        ErrorKind::RemoveDirNotPossible => "Removing "@ + detail + " directory failed."@,
        ErrorKind::ModuleNotFound => "Module "@ + detail + " not found."@,
        ErrorKind::OdraTomlNotFound => "Odra.toml not found at location "@ + detail,
        ErrorKind::NotImplemented => "Not implemented: "@ + detail,
        ErrorKind::FailedToFetchTemplate => "Failed to fetch template: "@ + detail,
        ErrorKind::FailedToParseTemplate => "Failed to parse template: "@ + detail,
        ErrorKind::CouldNotDetermineCurrentDirectory =>
            "Could not determine the current directory, please make sure you have permissions to access it."@,
        ErrorKind::ContractNotFound => "Contract "@ + detail + " not found in Odra.toml"@,
        ErrorKind::OdraNotADependency => "Odra is not a dependency of this project."@,
        ErrorKind::FailedToGenerateProjectFromTemplate =>
            "Failed to generate project from template: "@ + detail,
        ErrorKind::FailedToParseArgument => "Failed to parse the argument: "@ + detail,
        ErrorKind::MalformedFqn => "Malformed fully qualified name: "@ + detail,
        ErrorKind::ModuleNotProvided => "Module name is required in a workspace."@,
        ErrorKind::LibRsNotFound => "src/lib.rs not found."@,
        ErrorKind::ModuleAlreadyInLibRs => "Module "@ + detail + " already in src/lib.rs"@,
        ErrorKind::BackendNotFound => "Backend "@ + detail + " not found."@,
    }
}

impl View for Error {
    type V = (ErrorKind, Seq<char>);

    /// The kind of the failure and the text it is about (empty where the
    /// variant carries none).
    open spec fn view(&self) -> (ErrorKind, Seq<char>) {
        match self {
            Error::CommandFailed(s) => (ErrorKind::CommandFailed, s@),
            Error::InvalidInternalCommand(s) => (ErrorKind::InvalidInternalCommand, s@),
            Error::FailedToReadCargo(s) => (ErrorKind::FailedToReadCargo, s@),
            Error::WasmTargetNotInstalled => (ErrorKind::WasmTargetNotInstalled, Seq::empty()),
            Error::NotAnOdraProject => (ErrorKind::NotAnOdraProject, Seq::empty()),
            Error::WasmstripNotInstalled => (ErrorKind::WasmstripNotInstalled, Seq::empty()),
            Error::CurrentDirIsNotEmpty => (ErrorKind::CurrentDirIsNotEmpty, Seq::empty()),
            Error::FileAlreadyExists(s) => (ErrorKind::FileAlreadyExists, s@),
            Error::ContractAlreadyInOdraToml(s) => (ErrorKind::ContractAlreadyInOdraToml, s@),
            Error::RemoveDirNotPossible(s) => (ErrorKind::RemoveDirNotPossible, s@),
            Error::ModuleNotFound(s) => (ErrorKind::ModuleNotFound, s@),
            Error::OdraTomlNotFound(s) => (ErrorKind::OdraTomlNotFound, s@),
            Error::NotImplemented(s) => (ErrorKind::NotImplemented, s@),
            Error::FailedToFetchTemplate(s) => (ErrorKind::FailedToFetchTemplate, s@),
            Error::FailedToParseTemplate(s) => (ErrorKind::FailedToParseTemplate, s@),
            Error::CouldNotDetermineCurrentDirectory => (
                ErrorKind::CouldNotDetermineCurrentDirectory,
                Seq::empty(),
            ),
            Error::ContractNotFound(s) => (ErrorKind::ContractNotFound, s@),
            Error::OdraNotADependency => (ErrorKind::OdraNotADependency, Seq::empty()),
            Error::FailedToGenerateProjectFromTemplate(s) => (
                ErrorKind::FailedToGenerateProjectFromTemplate,
                s@,
            ),
            Error::FailedToParseArgument(s) => (ErrorKind::FailedToParseArgument, s@),
            Error::MalformedFqn(s) => (ErrorKind::MalformedFqn, s@),
            Error::ModuleNotProvided => (ErrorKind::ModuleNotProvided, Seq::empty()),
            Error::LibRsNotFound => (ErrorKind::LibRsNotFound, Seq::empty()),
            Error::ModuleAlreadyInLibRs(s) => (ErrorKind::ModuleAlreadyInLibRs, s@),
            Error::BackendNotFound(s) => (ErrorKind::BackendNotFound, s@),
        }
    }
}

impl ErrorKind {
    /// The exit code of this kind of failure.
    pub fn code(&self) -> (r: i32)
        ensures
            r == kind_code(*self),
    {
        match self {
            ErrorKind::CommandFailed => 1,
            ErrorKind::InvalidInternalCommand => 2,
            ErrorKind::FailedToReadCargo => 3,
            ErrorKind::WasmTargetNotInstalled => 4,
            ErrorKind::NotAnOdraProject => 5,
            ErrorKind::WasmstripNotInstalled => 6,
            ErrorKind::CurrentDirIsNotEmpty => 7,
            ErrorKind::FileAlreadyExists => 8,
            ErrorKind::ContractAlreadyInOdraToml => 9,
            ErrorKind::RemoveDirNotPossible => 10,
            ErrorKind::ModuleNotFound => 11,
            ErrorKind::OdraTomlNotFound => 12,
            ErrorKind::NotImplemented => 13,
            ErrorKind::FailedToFetchTemplate => 14,
            ErrorKind::FailedToParseTemplate => 15,
            ErrorKind::CouldNotDetermineCurrentDirectory => 16,
            ErrorKind::ContractNotFound => 17,
            ErrorKind::OdraNotADependency => 18,
            ErrorKind::FailedToGenerateProjectFromTemplate => 19,
            ErrorKind::FailedToParseArgument => 20,
            ErrorKind::MalformedFqn => 21,
            ErrorKind::ModuleNotProvided => 22,
            ErrorKind::LibRsNotFound => 23,
            ErrorKind::ModuleAlreadyInLibRs => 24,
            ErrorKind::BackendNotFound => 25,
        }
    }
}

impl Error {
    /// The kind of this failure.
    pub fn kind(&self) -> (r: ErrorKind)
        ensures
            r == self@.0,
    {
        match self {
            Error::CommandFailed(_) => ErrorKind::CommandFailed,
            Error::InvalidInternalCommand(_) => ErrorKind::InvalidInternalCommand,
            Error::FailedToReadCargo(_) => ErrorKind::FailedToReadCargo,
            Error::WasmTargetNotInstalled => ErrorKind::WasmTargetNotInstalled,
            Error::NotAnOdraProject => ErrorKind::NotAnOdraProject,
            Error::WasmstripNotInstalled => ErrorKind::WasmstripNotInstalled,
            Error::CurrentDirIsNotEmpty => ErrorKind::CurrentDirIsNotEmpty,
            Error::FileAlreadyExists(_) => ErrorKind::FileAlreadyExists,
            Error::ContractAlreadyInOdraToml(_) => ErrorKind::ContractAlreadyInOdraToml,
            Error::RemoveDirNotPossible(_) => ErrorKind::RemoveDirNotPossible,
            Error::ModuleNotFound(_) => ErrorKind::ModuleNotFound,
            Error::OdraTomlNotFound(_) => ErrorKind::OdraTomlNotFound,
            Error::NotImplemented(_) => ErrorKind::NotImplemented,
            Error::FailedToFetchTemplate(_) => ErrorKind::FailedToFetchTemplate,
            Error::FailedToParseTemplate(_) => ErrorKind::FailedToParseTemplate,
            Error::CouldNotDetermineCurrentDirectory => ErrorKind::CouldNotDetermineCurrentDirectory,
            Error::ContractNotFound(_) => ErrorKind::ContractNotFound,
            Error::OdraNotADependency => ErrorKind::OdraNotADependency,
            Error::FailedToGenerateProjectFromTemplate(_) =>
                ErrorKind::FailedToGenerateProjectFromTemplate,
            Error::FailedToParseArgument(_) => ErrorKind::FailedToParseArgument,
            Error::MalformedFqn(_) => ErrorKind::MalformedFqn,
            Error::ModuleNotProvided => ErrorKind::ModuleNotProvided,
            Error::LibRsNotFound => ErrorKind::LibRsNotFound,
            Error::ModuleAlreadyInLibRs(_) => ErrorKind::ModuleAlreadyInLibRs,
            Error::BackendNotFound(_) => ErrorKind::BackendNotFound,
        }
    }

    /// The text this failure is about; empty where its variant carries none.
    pub fn detail(&self) -> (r: String)
        ensures
            r@ == self@.1,
    {
        match self {
            Error::CommandFailed(s) => s.clone(),
            Error::InvalidInternalCommand(s) => s.clone(),
            Error::FailedToReadCargo(s) => s.clone(),
            Error::FileAlreadyExists(s) => s.clone(),
            Error::ContractAlreadyInOdraToml(s) => s.clone(),
            Error::RemoveDirNotPossible(s) => s.clone(),
            Error::ModuleNotFound(s) => s.clone(),
            Error::OdraTomlNotFound(s) => s.clone(),
            Error::NotImplemented(s) => s.clone(),
            Error::FailedToFetchTemplate(s) => s.clone(),
            Error::FailedToParseTemplate(s) => s.clone(),
            Error::ContractNotFound(s) => s.clone(),
            Error::FailedToGenerateProjectFromTemplate(s) => s.clone(),
            Error::FailedToParseArgument(s) => s.clone(),
            Error::MalformedFqn(s) => s.clone(),
            Error::ModuleAlreadyInLibRs(s) => s.clone(),
            Error::BackendNotFound(s) => s.clone(),
            _ => String::new(),
        }
    }

    /// The exit code of the process that ends with this failure.
    pub fn code(&self) -> (r: i32)
        ensures
            r == kind_code(self@.0),
            r != 0,
    {
        self.kind().code()
    }

    /// The message shown to the user.
    pub fn message(&self) -> (r: String)
        ensures
            r@ == message_text(self@.0, self@.1),
    {
        let d = self.detail();
        let d = d.as_str();
        match self.kind() {
            ErrorKind::CommandFailed => crate::text::concat3("Command ", d, " failed."),
            ErrorKind::InvalidInternalCommand => crate::text::concat3("Invalid command ", d, "."),
            ErrorKind::FailedToReadCargo => crate::text::concat3(
                "Failed to read Cargo.toml: ",
                d,
                ".",
            ),
            ErrorKind::WasmTargetNotInstalled => String::from_str(
                "wasm32-unknown-unknown target is not present, install it by executing:\nrustup target add wasm32-unknown-unknown",
            ),
            ErrorKind::NotAnOdraProject => String::from_str(
                "This command can be executed only in folder with Odra project.",
            ),
            ErrorKind::WasmstripNotInstalled => String::from_str(
                "There was an error while running wasm-strip - is it installed?",
            ),
            ErrorKind::CurrentDirIsNotEmpty => String::from_str("Current directory is not empty."),
            ErrorKind::FileAlreadyExists => crate::text::concat3("File ", d, " already exists."),
            ErrorKind::ContractAlreadyInOdraToml => crate::text::concat3(
                "Contract ",
                d,
                " already in Odra.toml",
            ),
            ErrorKind::RemoveDirNotPossible => crate::text::concat3(
                "Removing ",
                d,
                " directory failed.",
            ),
            ErrorKind::ModuleNotFound => crate::text::concat3("Module ", d, " not found."),
            ErrorKind::OdraTomlNotFound => crate::text::concat(
                "Odra.toml not found at location ",
                d,
            ),
            ErrorKind::NotImplemented => crate::text::concat("Not implemented: ", d),
            ErrorKind::FailedToFetchTemplate => crate::text::concat(
                "Failed to fetch template: ",
                d,
            ),
            ErrorKind::FailedToParseTemplate => crate::text::concat(
                "Failed to parse template: ",
                d,
            ),
            ErrorKind::CouldNotDetermineCurrentDirectory => String::from_str(
                "Could not determine the current directory, please make sure you have permissions to access it.",
            ),
            ErrorKind::ContractNotFound => crate::text::concat3(
                "Contract ",
                d,
                " not found in Odra.toml",
            ),
            ErrorKind::OdraNotADependency => String::from_str(
                "Odra is not a dependency of this project.",
            ),
            ErrorKind::FailedToGenerateProjectFromTemplate => crate::text::concat(
                "Failed to generate project from template: ",
                d,
            ),
            ErrorKind::FailedToParseArgument => crate::text::concat(
                "Failed to parse the argument: ",
                d,
            ),
            ErrorKind::MalformedFqn => crate::text::concat("Malformed fully qualified name: ", d),
            ErrorKind::ModuleNotProvided => String::from_str(
                "Module name is required in a workspace.",
            ),
            ErrorKind::LibRsNotFound => String::from_str("src/lib.rs not found."),
            ErrorKind::ModuleAlreadyInLibRs => crate::text::concat3(
                "Module ",
                d,
                " already in src/lib.rs",
            ),
            ErrorKind::BackendNotFound => crate::text::concat3("Backend ", d, " not found."),
        }
    }
}

/// Two failures with the same exit code are of the same kind, and no
/// failure exits with zero.
pub proof fn lemma_codes_distinct(a: ErrorKind, b: ErrorKind)
    ensures
        kind_code(a) != 0,
        kind_code(a) == kind_code(b) ==> a == b,
{
}

} // verus!
