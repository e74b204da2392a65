//! Starting a project: where the framework comes from, how the new
//! manifest names it, and the steps that make the project.

use crate::cargo_toml::{
    dependency_toml, dependency_toml_text,
    copy_opt, empty_detail, Dependency, DependencyDetail, DependencyDetailView, DependencyView,
};
use crate::cli::InitCommand;
use crate::command::{
    empty_plan, push_step, push_text, rename_file, replace_in_file, Step, StepView,
};
use crate::consts::{
    CARGO_TOML_FILENAME, ODRA_GITHUB_API_DATA, ODRA_TEMPLATE_GH_REPO, VERSION_PATTERN,
};
use crate::errors::{Error, ErrorKind};
use crate::paths::{join, joined_path, snake_case_of, to_snake_case};
use crate::pattern::{regex_is_match, regex_match};
use crate::project::{Failure, OdraLocation, OdraLocationView};
use crate::template::{Fetched, FetchedView};
use crate::text::{concat, replace_all, replaced, trim_end, trimmed_end};
use vstd::prelude::*;
use vstd::string::*;

verus! {

/// Where the framework comes from, as a source given by the user says: a
/// source that exists on disk is a local checkout; else one that is a
/// version number is that published version; any other is a branch of the
/// framework's repository. `exists` says whether the source is a path that
/// exists, `is_version` whether it reads as a version number.
pub open spec fn classified(
    source: Seq<char>,
    exists: bool,
    is_version: Option<bool>,
) -> OdraLocationView {
    if exists {
        OdraLocationView::Local(source)
    } else if is_version == Some(true) {
        OdraLocationView::CratesIO(source)
    } else {
        OdraLocationView::Remote(ODRA_TEMPLATE_GH_REPO@, Some(source))
    }
}

/// The location that the latest release stands for, as far as the lookup
/// of that release got: its version as a published one; a lookup that
/// failed and one whose answer could not be read are failures of their
/// own, each naming the address that was asked.
pub open spec fn latest_location(latest: FetchedView) -> Result<OdraLocationView, Failure> {
    match latest {
        FetchedView::Body(version) => Ok(OdraLocationView::CratesIO(version)),
        FetchedView::Failed => Err((ErrorKind::FailedToFetchTemplate, ODRA_GITHUB_API_DATA@)),
        FetchedView::Undecodable => Err((ErrorKind::FailedToParseTemplate, ODRA_GITHUB_API_DATA@)),
    }
}

/// Where the framework comes from: as the source says where one is given,
/// else the latest release.
pub open spec fn resolved_location(
    source: Option<Seq<char>>,
    exists: bool,
    latest: FetchedView,
) -> Result<OdraLocationView, Failure> {
    match source {
        Some(s) => Ok(classified(s, exists, regex_match(VERSION_PATTERN@, s))),
        None => latest_location(latest),
    }
}

/// A source that is a path on disk is a local checkout, with that path
/// unchanged.
pub proof fn lemma_existing_path_is_local(source: Seq<char>, is_version: Option<bool>)
    ensures
        classified(source, true, is_version) == OdraLocationView::Local(source),
{
}

/// A source that is no path on disk and reads as a version number is that
/// published version, with the text unchanged.
pub proof fn lemma_version_is_published(source: Seq<char>)
    requires
        regex_match(VERSION_PATTERN@, source) == Some(true),
    ensures
        classified(source, false, regex_match(VERSION_PATTERN@, source))
            == OdraLocationView::CratesIO(source),
        resolved_location(Some(source), false, FetchedView::Failed) == Ok::<
            OdraLocationView,
            Failure,
        >(OdraLocationView::CratesIO(source)),
{
}

/// Any other source is a branch of the framework's repository.
pub proof fn lemma_other_is_branch(source: Seq<char>)
    requires
        regex_match(VERSION_PATTERN@, source) != Some(true),
    ensures
        classified(source, false, regex_match(VERSION_PATTERN@, source))
            == OdraLocationView::Remote(ODRA_TEMPLATE_GH_REPO@, Some(source)),
        resolved_location(Some(source), false, FetchedView::Failed) == Ok::<
            OdraLocationView,
            Failure,
        >(OdraLocationView::Remote(ODRA_TEMPLATE_GH_REPO@, Some(source))),
{
}

/// How the manifest of a new project names the crate `crate_name` of the
/// framework at `location`, without default features. A local framework
/// is named by the path of that crate in the checkout, seen from one
/// directory below unless the project is made in place; a branch by the
/// repository and the branch; a published version by the version. A
/// repository without a branch stands for the latest release, as far as
/// the lookup of that release got.
pub open spec fn project_dependency_of(
    location: OdraLocationView,
    crate_name: Seq<char>,
    init: bool,
    latest: FetchedView,
) -> Result<DependencyDetailView, Failure> {
    match location {
        OdraLocationView::Local(path) => Ok(
            DependencyDetailView {
                path: Some(
                    joined_path(
                        if init {
                            path
                        } else {
                            joined_path(".."@, path)
                        },
                        crate_name,
                    ),
                ),
                default_features: false,
                ..empty_detail()
            },
        ),
        OdraLocationView::Remote(repo, Some(branch)) => Ok(
            DependencyDetailView {
                git: Some(repo),
                branch: Some(branch),
                default_features: false,
                ..empty_detail()
            },
        ),
        OdraLocationView::Remote(repo, None) => match latest {
            FetchedView::Body(version) => Ok(
                DependencyDetailView {
                    version: Some(version),
                    default_features: false,
                    ..empty_detail()
                },
            ),
            FetchedView::Failed => Err((ErrorKind::FailedToFetchTemplate, ODRA_GITHUB_API_DATA@)),
            FetchedView::Undecodable => Err(
                (ErrorKind::FailedToParseTemplate, ODRA_GITHUB_API_DATA@),
            ),
        },
        OdraLocationView::CratesIO(version) => Ok(
            DependencyDetailView {
                version: Some(version),
                default_features: false,
                ..empty_detail()
            },
        ),
    }
}

/// The line that names a dependency in a manifest: the crate's name and,
/// in braces, the text `written` of the dependency, on one line.
pub open spec fn package_line_of(crate_name: Seq<char>, written: Seq<char>) -> Seq<char> {
    crate_name + " = { "@ + replaced(trimmed_end(written), seq!['\n'], ", "@) + " }"@
}

/// The template that the project is generated from: its source, the
/// directory of the template in it, and the branch.
pub open spec fn template_of(location: OdraLocationView, template: Seq<char>) -> (
    Seq<char>,
    Option<Seq<char>>,
    Option<Seq<char>>,
) {
    let subfolder = Some("templates/"@ + template);
    match location {
        OdraLocationView::Local(path) => (path, subfolder, None),
        OdraLocationView::Remote(repo, branch) => (repo, subfolder, branch),
        OdraLocationView::CratesIO(version) => (
            ODRA_TEMPLATE_GH_REPO@,
            subfolder,
            Some("release/"@ + version),
        ),
    }
}

/// The manifest that the template brings: in the current directory where
/// the project is made in place, else in the new project's directory.
pub open spec fn template_manifest(current_dir: Seq<char>, name: Seq<char>, init: bool) -> Seq<
    char,
> {
    if init {
        joined_path(current_dir, "_Cargo.toml"@)
    } else {
        joined_path(joined_path(current_dir, snake_case_of(name)), "_Cargo.toml"@)
    }
}

/// The steps that make a project: generating it from the template, naming
/// the framework's three crates in its manifest, and giving the manifest
/// its name. `lines` are the three lines that name the crates.
pub open spec fn generation_steps(
    name: Seq<char>,
    template: Seq<char>,
    current_dir: Seq<char>,
    init: bool,
    location: OdraLocationView,
    date: Seq<char>,
    lines: (Seq<char>, Seq<char>, Seq<char>),
) -> Seq<StepView> {
    let t = template_of(location, template);
    let manifest = template_manifest(current_dir, name, init);
    seq![
        StepView::GenerateProject {
            source: t.0,
            subfolder: t.1,
            branch: t.2,
            name: snake_case_of(name),
            define: seq!["date="@ + date],
            init,
        },
        StepView::ReplaceInFile { path: manifest, from: "#odra_dependency"@, to: lines.0 },
        StepView::ReplaceInFile { path: manifest, from: "#odra_test_dependency"@, to: lines.1 },
        StepView::ReplaceInFile { path: manifest, from: "#odra_build_dependency"@, to: lines.2 },
        StepView::Rename { path: manifest, name: CARGO_TOML_FILENAME@ },
    ]
}

/// Where the framework comes from, as `source` says, given whether it is a
/// path that exists and whether it reads as a version number.
pub fn classify_source(source: &str, exists: bool, is_version: Option<bool>) -> (r: OdraLocation)
    ensures
        r@ == classified(source@, exists, is_version),
{
    if exists {
        OdraLocation::Local(String::from_str(source))
    } else {
        match is_version {
            Some(true) => OdraLocation::CratesIO(String::from_str(source)),
            _ => OdraLocation::Remote(
                String::from_str(ODRA_TEMPLATE_GH_REPO),
                Some(String::from_str(source)),
            ),
        }
    }
}

/// The location that the latest release stands for.
pub fn location_of_latest(latest: Fetched) -> (r: Result<OdraLocation, Error>)
    ensures
        match r {
            Ok(l) => latest_location(latest@) == Ok::<OdraLocationView, Failure>(l@),
            Err(e) => latest_location(latest@) == Err::<OdraLocationView, Failure>(e@),
        },
{
    match latest {
        Fetched::Body(version) => Ok(OdraLocation::CratesIO(version)),
        Fetched::Failed => Err(
            Error::FailedToFetchTemplate(String::from_str(ODRA_GITHUB_API_DATA)),
        ),
        Fetched::Undecodable => Err(
            Error::FailedToParseTemplate(String::from_str(ODRA_GITHUB_API_DATA)),
        ),
    }
}

/// The line that names the crate `crate_name` in a manifest, given the
/// text `written` of its dependency.
pub fn package_line(crate_name: &str, written: &str) -> (r: String)
    ensures
        r@ == package_line_of(crate_name@, written@),
{
    let trimmed = trim_end(written);
    proof {
        reveal_strlit("\n");
        assert("\n"@ =~= seq!['\n']);
    }
    let inline = replace_all(trimmed.as_str(), "\n", ", ");
    let mut line = String::from_str(crate_name);
    line.append(" = { ");
    line.append(inline.as_str());
    line.append(" }");
    line
}

/// Starting a project.
#[derive(Clone, Debug, PartialEq, Eq)]
pub struct InitAction {}

impl InitAction {
    /// Checks that the directory in which a project is to be made in
    /// place holds nothing.
    pub fn assert_dir_is_empty(is_empty: bool) -> (r: Result<(), Error>)
        ensures
            is_empty ==> r is Ok,
            !is_empty ==> r is Err && r->Err_0@ == (
                ErrorKind::CurrentDirIsNotEmpty,
                Seq::<char>::empty(),
            ),
    {
        if is_empty {
            Ok(())
        } else {
            Err(Error::CurrentDirIsNotEmpty)
        }
    }

    /// Where the framework comes from. `exists` says whether `source` is
    /// a path that exists; `latest` is what the lookup of the latest
    /// release gave, which counts where no source is given.
    pub fn odra_location(source: Option<String>, exists: bool, latest: Fetched) -> (r: Result<
        OdraLocation,
        Error,
    >)
        ensures
            match r {
                Ok(l) => resolved_location(source.deep_view(), exists, latest@) == Ok::<
                    OdraLocationView,
                    Failure,
                >(l@),
                Err(e) => resolved_location(source.deep_view(), exists, latest@) == Err::<
                    OdraLocationView,
                    Failure,
                >(e@),
            },
    {
        match source {
            Some(s) => {
                let is_version = regex_is_match(VERSION_PATTERN, s.as_str());
                Ok(classify_source(s.as_str(), exists, is_version))
            },
            None => location_of_latest(latest),
        }
    }

    /// How the manifest of a new project names the crate `crate_name` of
    /// the framework at `odra_location`.
    pub fn odra_project_dependency(
        odra_location: &OdraLocation,
        crate_name: &str,
        init: bool,
        latest: Fetched,
    ) -> (r: Result<Dependency, Error>)
        ensures
            match r {
                Ok(d) => project_dependency_of(odra_location@, crate_name@, init, latest@) matches Ok(
                    v,
                ) && d@ == DependencyView::Detailed(v),
                Err(e) => project_dependency_of(odra_location@, crate_name@, init, latest@)
                    == Err::<DependencyDetailView, Failure>(e@),
            },
    {
        let mut d = DependencyDetail::empty();
        d.default_features = false;
        match odra_location {
            OdraLocation::Local(path) => {
                let base = if init {
                    path.clone()
                } else {
                    join("..", path.as_str())
                };
                d.path = Some(join(base.as_str(), crate_name));
            },
            OdraLocation::Remote(repo, branch) => match branch {
                Some(b) => {
                    d.git = Some(repo.clone());
                    d.branch = Some(b.clone());
                },
                None => match latest {
                    Fetched::Body(version) => {
                        d.version = Some(version);
                    },
                    Fetched::Failed => {
                        return Err(
                            Error::FailedToFetchTemplate(String::from_str(ODRA_GITHUB_API_DATA)),
                        );
                    },
                    Fetched::Undecodable => {
                        return Err(
                            Error::FailedToParseTemplate(String::from_str(ODRA_GITHUB_API_DATA)),
                        );
                    },
                },
            },
            OdraLocation::CratesIO(version) => {
                d.version = Some(version.clone());
            },
        }
        Ok(Dependency::Detailed(d))
    }

    /// The line that takes the place of a placeholder in the new manifest:
    /// it names `crate_name` as `dep` says. A dependency that cannot be
    /// written is a failure to generate the project.
    pub fn replace_package_placeholder(dep: &DependencyDetail, crate_name: &str) -> (r: Result<
        String,
        Error,
    >)
        ensures
            match dependency_toml_text(dep@) {
                Some(written) => r is Ok && r->Ok_0@ == package_line_of(crate_name@, written),
                None => r is Err && r->Err_0@ == (
                    ErrorKind::FailedToGenerateProjectFromTemplate,
                    crate_name@,
                ),
            },
    {
        match dependency_toml(dep) {
            Some(written) => Ok(package_line(crate_name, written.as_str())),
            None => Err(Error::FailedToGenerateProjectFromTemplate(String::from_str(crate_name))),
        }
    }

    /// The steps that make a project from what `init_command` asks for, in
    /// or under `current_dir`, for the framework at `odra_location`. `date`
    /// is the day, as the template wants it; `lines` the three lines that
    /// name the framework's crates in the manifest.
    pub fn generation_plan(
        init_command: &InitCommand,
        current_dir: &str,
        init: bool,
        odra_location: &OdraLocation,
        date: &str,
        lines: (String, String, String),
    ) -> (r: Vec<Step>)
        ensures
            r.deep_view() == generation_steps(
                init_command.name@,
                init_command.template@,
                current_dir@,
                init,
                odra_location@,
                date@,
                lines.deep_view(),
            ),
    {
        let subfolder = concat("templates/", init_command.template.as_str());
        let name = to_snake_case(init_command.name.as_str());
        let (source, branch) = match odra_location {
            OdraLocation::Local(path) => (path.clone(), None),
            OdraLocation::Remote(repo, branch) => (repo.clone(), copy_opt(branch)),
            OdraLocation::CratesIO(version) => (
                String::from_str(ODRA_TEMPLATE_GH_REPO),
                Some(concat("release/", version.as_str())),
            ),
        };
        let manifest = if init {
            join(current_dir, "_Cargo.toml")
        } else {
            let dir = join(current_dir, name.as_str());
            join(dir.as_str(), "_Cargo.toml")
        };
        let mut define: Vec<String> = Vec::new();
        assert(define.deep_view() =~= Seq::<Seq<char>>::empty());
        push_text(&mut define, concat("date=", date).as_str());
        assert(define.deep_view() =~= seq!["date="@ + date@]);
        let mut plan = empty_plan();
        push_step(
            &mut plan,
            Step::GenerateProject {
                source,
                subfolder: Some(subfolder),
                branch,
                name,
                define,
                init,
            },
        );
        push_step(
            &mut plan,
            replace_in_file(manifest.as_str(), "#odra_dependency", lines.0.as_str()),
        );
        push_step(
            &mut plan,
            replace_in_file(manifest.as_str(), "#odra_test_dependency", lines.1.as_str()),
        );
        push_step(
            &mut plan,
            replace_in_file(manifest.as_str(), "#odra_build_dependency", lines.2.as_str()),
        );
        push_step(&mut plan, rename_file(manifest.as_str(), CARGO_TOML_FILENAME));
        assert(plan.deep_view() =~= generation_steps(
            init_command.name@,
            init_command.template@,
            current_dir@,
            init,
            odra_location@,
            date@,
            lines.deep_view(),
        ));
        plan
    }

    /// The line that names `crate_name` in the manifest of a project made
    /// for the framework at `odra_location`.
    fn line_for(odra_location: &OdraLocation, crate_name: &str, init: bool, latest: &Fetched) -> (r:
        Result<String, Error>)
        ensures
            match project_dependency_of(odra_location@, crate_name@, init, latest@) {
                Err(e) => r is Err && r->Err_0@ == e,
                Ok(dep) => match dependency_toml_text(dep) {
                    Some(written) => r is Ok && r->Ok_0@ == package_line_of(crate_name@, written),
                    None => r is Err && r->Err_0@ == (
                        ErrorKind::FailedToGenerateProjectFromTemplate,
                        crate_name@,
                    ),
                },
            },
    {
        let copy = match latest {
            Fetched::Body(b) => Fetched::Body(b.clone()),
            Fetched::Failed => Fetched::Failed,
            Fetched::Undecodable => Fetched::Undecodable,
        };
        match Self::odra_project_dependency(odra_location, crate_name, init, copy)? {
            Dependency::Detailed(d) => Self::replace_package_placeholder(&d, crate_name),
            Dependency::Simple(v) => Ok(String::from_str(crate_name)),
        }
    }

    /// The steps that make a project, or the failure that stops it before
    /// its first step. `is_empty` says whether the current directory
    /// holds nothing, which a project made in place needs; `exists`
    /// whether the source that `init_command` names is a path that exists;
    /// `latest` is what the lookup of the latest release gave; `date` the
    /// day, as the template wants it.
    pub fn generate_project(
        init_command: &InitCommand,
        current_dir: &str,
        init: bool,
        is_empty: bool,
        exists: bool,
        latest: Fetched,
        date: &str,
    ) -> (r: Result<Vec<Step>, Error>)
        ensures
            init && !is_empty ==> r is Err && r->Err_0@ == (
                ErrorKind::CurrentDirIsNotEmpty,
                Seq::<char>::empty(),
            ),
            !(init && !is_empty) ==> match resolved_location(
                init_command.source.deep_view(),
                exists,
                latest@,
            ) {
                Err(e) => r is Err && r->Err_0@ == e,
                Ok(location) => match line_of(location, "odra"@, init, latest@) {
                    Err(e) => r is Err && r->Err_0@ == e,
                    Ok(first) => match line_of(location, "odra-test"@, init, latest@) {
                        Err(e) => r is Err && r->Err_0@ == e,
                        Ok(second) => match line_of(location, "odra-build"@, init, latest@) {
                            Err(e) => r is Err && r->Err_0@ == e,
                            Ok(third) => r is Ok && r->Ok_0.deep_view() == generation_steps(
                                init_command.name@,
                                init_command.template@,
                                current_dir@,
                                init,
                                location,
                                date@,
                                (first, second, third),
                            ),
                        },
                    },
                },
            },
    {
        if init {
            Self::assert_dir_is_empty(is_empty)?;
        }
        let for_location = match &latest {
            Fetched::Body(b) => Fetched::Body(b.clone()),
            Fetched::Failed => Fetched::Failed,
            Fetched::Undecodable => Fetched::Undecodable,
        };
        let location = Self::odra_location(copy_opt(&init_command.source), exists, for_location)?;
        let first = Self::line_for(&location, "odra", init, &latest)?;
        let second = Self::line_for(&location, "odra-test", init, &latest)?;
        let third = Self::line_for(&location, "odra-build", init, &latest)?;
        Ok(
            Self::generation_plan(
                init_command,
                current_dir,
                init,
                &location,
                date,
                (first, second, third),
            ),
        )
    }
}

/// The line that names `crate_name` in the manifest of a project made for
/// the framework at `location`, or the failure to make it.
pub open spec fn line_of(
    location: OdraLocationView,
    crate_name: Seq<char>,
    init: bool,
    latest: FetchedView,
) -> Result<Seq<char>, Failure> {
    match project_dependency_of(location, crate_name, init, latest) {
        Err(e) => Err(e),
        Ok(dep) => match dependency_toml_text(dep) {
            Some(written) => Ok(package_line_of(crate_name, written)),
            None => Err((ErrorKind::FailedToGenerateProjectFromTemplate, crate_name)),
        },
    }
}

} // verus!
