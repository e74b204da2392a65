//! The command line, as values: what the user asked for, once the
//! arguments are parsed.

use crate::command::verbosity_arg;
use vstd::prelude::*;
use vstd::string::*;

verus! {

/// The main command, `cargo`.
#[derive(Clone, Debug, PartialEq, Eq)]
pub enum Cargo {
    Odra(Odra),
}

/// `cargo odra`
#[derive(Clone, Debug, PartialEq, Eq)]
pub struct Odra {
    pub subcommand: OdraSubcommand,
    /// Be verbose.
    pub verbose: bool,
    /// Be quiet, show only errors.
    pub quiet: bool,
}

/// The subcommands of `cargo odra`.
#[derive(Clone, Debug, PartialEq, Eq)]
pub enum OdraSubcommand {
    /// Creates a new project.
    New(InitCommand),
    /// Initializes a new project in an existing, empty directory.
    Init(InitCommand),
    /// Builds the contracts of the project.
    Build(BuildCommand),
    /// Runs the tests, against a backend where one is named.
    Test(TestCommand),
    /// Generates the code of a new contract.
    Generate(GenerateCommand),
    /// Removes what builds have left behind.
    Clean(CleanCommand),
    /// Updates the project's dependencies.
    Update(UpdateCommand),
}

/// `cargo odra init` and `cargo odra new`
#[derive(Clone, Debug, PartialEq, Eq)]
pub struct InitCommand {
    /// Name of the new crate.
    pub name: String,
    /// Address of the repository that holds the template.
    pub repo_uri: String,
    /// Branch of that repository.
    pub git_branch: String,
    /// Where the framework comes from: a path, a version or a branch.
    pub source: Option<String>,
    /// Name of the template.
    pub template: String,
}

/// `cargo odra build`
#[derive(Clone, Debug, PartialEq, Eq)]
pub struct BuildCommand {
    /// Name of the backend to build for.
    pub backend: String,
    /// Names of the contracts to build, with spaces between them.
    pub contracts_names: Option<String>,
}

/// `cargo odra test`
#[derive(Clone, Debug, PartialEq, Eq)]
pub struct TestCommand {
    /// Name of the backend to test against.
    pub backend: Option<String>,
    /// Arguments passed on to the test command.
    pub args: Vec<String>,
    /// Do not build the contracts first.
    pub skip_build: bool,
}

/// `cargo odra generate`
#[derive(Clone, Debug, PartialEq, Eq)]
pub struct GenerateCommand {
    /// Name of the contract to create.
    pub contract_name: String,
    /// Name of the module that gets the contract.
    pub module: Option<String>,
}

/// `cargo odra clean`
#[derive(Clone, Debug, PartialEq, Eq)]
pub struct CleanCommand {}

/// `cargo odra update`
#[derive(Clone, Debug, PartialEq, Eq)]
pub struct UpdateCommand {
    /// Name of the backend whose builder is to be updated alone.
    pub backend: Option<String>,
}

/// `cargo odra backend add`
#[derive(Clone, Debug, PartialEq, Eq)]
pub struct AddBackendCommand {
    /// Name of the backend within the project; the package's where none is
    /// given.
    pub name: Option<String>,
    /// Name of the backend's package.
    pub package: String,
    /// Path of a checkout of the backend.
    pub path: Option<String>,
    /// Address of the backend's repository.
    pub repo_uri: Option<String>,
    /// Branch of that repository.
    pub branch: Option<String>,
}

/// `cargo odra backend remove`
#[derive(Clone, Debug, PartialEq, Eq)]
pub struct RemoveBackendCommand {
    /// Name of the backend within the project.
    pub name: String,
}

impl Odra {
    /// The flag that passes the chosen verbosity on to the toolchain.
    pub fn verbosity(&self) -> (r: Option<&'static str>)
        ensures
            self.verbose ==> r.deep_view() == Some("--verbose"@),
            !self.verbose && self.quiet ==> r.deep_view() == Some("--quiet"@),
            !self.verbose && !self.quiet ==> r is None,
    {
        verbosity_arg(self.verbose, self.quiet)
    }
}

} // verus!
