//! Adding a contract to a project from the sample contract.

use crate::cli::GenerateCommand;
use crate::command::{
    append_file, empty_plan, push_step, write_to_file, Step, StepView,
};
use crate::errors::{Error, ErrorKind};
use crate::paths::{case_of, to_case, TextCase};
use crate::project::Failure;
use crate::template::{Fetched, FetchedView};
use crate::text::{concat3, replace_all, replaced};
use vstd::prelude::*;
use vstd::string::*;

verus! {

/// The address of the sample contract.
pub const SAMPLE_CONTRACT_URL: &'static str =
    "https://raw.githubusercontent.com/odradev/odra-template/master/src/flipper.rs";

/// The text of the new contract's file: the sample contract with the new
/// contract's name for the sample's, as a type and as a word.
pub open spec fn contract_body(sample: Seq<char>, name: Seq<char>) -> Seq<char> {
    replaced(
        replaced(sample, "Flipper"@, case_of(name, TextCase::UpperCamel)),
        "flipper"@,
        case_of(name, TextCase::Lower),
    )
}

/// The lines that make the contract known in the library's root file.
pub open spec fn lib_lines(name: Seq<char>) -> Seq<char> {
    "\npub mod "@ + name + ";\npub use "@ + name + "::{"@ + case_of(name, TextCase::UpperCamel)
        + ", "@ + case_of(name, TextCase::UpperCamel) + "Ref};\n\n"@
}

/// The line that enters the contract in the registry.
pub open spec fn registry_lines(name: Seq<char>, project_name: Seq<char>) -> Seq<char> {
    "\n"@ + name + " = { path = \"src/"@ + name + ".rs\", name = \""@ + name + "\", fqn = \""@
        + project_name + "::"@ + case_of(name, TextCase::UpperCamel) + "\"}\n"@
}

/// What adding the contract `name` to the project `project_name` comes
/// to: its file, its lines in the library's root file and its line in the
/// registry. A sample that could not be fetched or read is a failure that
/// names its address.
pub open spec fn sample_outcome(
    name: Seq<char>,
    project_name: Seq<char>,
    fetched: FetchedView,
) -> Result<Seq<StepView>, Failure> {
    match fetched {
        FetchedView::Failed => Err((ErrorKind::FailedToFetchTemplate, SAMPLE_CONTRACT_URL@)),
        FetchedView::Undecodable => Err((ErrorKind::FailedToParseTemplate, SAMPLE_CONTRACT_URL@)),
        FetchedView::Body(sample) => Ok(
            seq![
                StepView::WriteFile {
                    path: "src/"@ + name + ".rs"@,
                    content: contract_body(sample, name),
                },
                StepView::AppendFile { path: "src/lib.rs"@, content: lib_lines(name) },
                StepView::AppendFile {
                    path: "Odra.toml"@,
                    content: registry_lines(name, project_name),
                },
            ],
        ),
    }
}

/// Adding a contract.
#[derive(Clone, Debug, PartialEq, Eq)]
pub struct Generate {
    pub generate: GenerateCommand,
}

impl Generate {
    /// Adding the contract that `generate` asks for.
    pub fn new(generate: GenerateCommand) -> (r: Generate)
        ensures
            r.generate == generate,
    {
        Generate { generate }
    }

    /// The plan that adds the contract to the project named
    /// `project_name`, in the current directory. `fetched` is what
    /// fetching the sample contract gave.
    pub fn generate_contract(&self, fetched: Fetched, project_name: &str) -> (r: Result<
        Vec<Step>,
        Error,
    >)
        ensures
            match r {
                Ok(plan) => sample_outcome(self.generate.contract_name@, project_name@, fetched@)
                    == Ok::<Seq<StepView>, Failure>(plan.deep_view()),
                Err(e) => sample_outcome(self.generate.contract_name@, project_name@, fetched@)
                    == Err::<Seq<StepView>, Failure>(e@),
            },
    {
        let sample = match fetched {
            Fetched::Body(b) => b,
            Fetched::Failed => {
                return Err(Error::FailedToFetchTemplate(String::from_str(SAMPLE_CONTRACT_URL)));
            },
            Fetched::Undecodable => {
                return Err(Error::FailedToParseTemplate(String::from_str(SAMPLE_CONTRACT_URL)));
            },
        };
        let name = self.generate.contract_name.as_str();
        let camel = to_case(name, TextCase::UpperCamel);
        let lower = to_case(name, TextCase::Lower);
        let first = replace_all(sample.as_str(), "Flipper", camel.as_str());
        let body = replace_all(first.as_str(), "flipper", lower.as_str());
        let path = concat3("src/", name, ".rs");
        let mut lines = String::from_str("\npub mod ");
        lines.append(name);
        lines.append(";\npub use ");
        lines.append(name);
        lines.append("::{");
        lines.append(camel.as_str());
        lines.append(", ");
        lines.append(camel.as_str());
        lines.append("Ref};\n\n");
        let mut entry = String::from_str("\n");
        entry.append(name);
        entry.append(" = { path = \"src/");
        entry.append(name);
        entry.append(".rs\", name = \"");
        entry.append(name);
        entry.append("\", fqn = \"");
        entry.append(project_name);
        entry.append("::");
        entry.append(camel.as_str());
        entry.append("\"}\n");
        let mut plan = empty_plan();
        push_step(&mut plan, write_to_file(path.as_str(), body.as_str()));
        push_step(&mut plan, append_file("src/lib.rs", lines.as_str()));
        push_step(&mut plan, append_file("Odra.toml", entry.as_str()));
        assert(plan.deep_view() =~= sample_outcome(
            self.generate.contract_name@,
            project_name@,
            FetchedView::Body(sample@),
        )->Ok_0);
        Ok(plan)
    }
}

} // verus!
