//! Generating a client for the project's contracts.

use crate::actions::init::template_of;
use crate::cargo_toml::copy_opt;
use crate::command::{empty_plan, push_step, replace_in_file, Step, StepView};
use crate::consts::ODRA_TEMPLATE_GH_REPO;
use crate::paths::{join, joined_path};
use crate::project::{OdraLocation, OdraLocationView, Project, ProjectView};
use crate::text::concat;
use vstd::prelude::*;
use vstd::string::*;

verus! {

/// The steps that make a client: generating it from the `client` template
/// of the framework, and putting the project's name into its manifest.
pub open spec fn client_steps(project: ProjectView, location: OdraLocationView) -> Seq<StepView> {
    let t = template_of(location, "client"@);
    seq![
        StepView::GenerateProject {
            source: t.0,
            subfolder: t.1,
            branch: t.2,
            name: "client"@,
            define: Seq::empty(),
            init: false,
        },
        StepView::ReplaceInFile {
            path: joined_path(project.project_root, "client/Cargo.toml"@),
            from: "#project_name"@,
            to: project.name,
        },
    ]
}

/// The steps that make a client for `project`, whose framework comes from
/// `odra_location`.
pub fn client_action(project: &Project, odra_location: &OdraLocation) -> (r: Vec<Step>)
    ensures
        r.deep_view() == client_steps(project@, odra_location@),
{
    let (source, branch) = match odra_location {
        OdraLocation::Local(path) => (path.clone(), None),
        OdraLocation::Remote(repo, branch) => (repo.clone(), copy_opt(branch)),
        OdraLocation::CratesIO(version) => (
            String::from_str(ODRA_TEMPLATE_GH_REPO),
            Some(concat("release/", version.as_str())),
        ),
    };
    let define: Vec<String> = Vec::new();
    assert(define.deep_view() =~= Seq::<Seq<char>>::empty());
    let manifest = join(project.project_root.as_str(), "client/Cargo.toml");
    let mut plan = empty_plan();
    push_step(
        &mut plan,
        Step::GenerateProject {
            source,
            subfolder: Some(concat("templates/", "client")),
            branch,
            name: String::from_str("client"),
            define,
            init: false,
        },
    );
    push_step(
        &mut plan,
        replace_in_file(manifest.as_str(), "#project_name", project.name.as_str()),
    );
    assert(plan.deep_view() =~= client_steps(project@, odra_location@));
    plan
}

} // verus!
