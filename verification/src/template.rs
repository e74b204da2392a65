//! Templates: where each comes from, what a fetch that went wrong means,
//! and how its placeholders are filled in.

use crate::consts::{MODULE_REGISTER, MODULE_TEMPLATE, ODRA_TEMPLATE_GH_BRANCH};
use crate::errors::{Error, ErrorKind};
use crate::paths::{join, joined_path};
use crate::project::{Failure, OdraLocation, OdraLocationView};
use crate::text::{chars_of, concat, occurs_at, occurs_at_in};
use vstd::prelude::*;
use vstd::string::*;

verus! {

/// Named values for the placeholders of a template: each pair is a
/// placeholder and the text that takes its place.
pub type Params = Seq<(Seq<char>, Seq<char>)>;

/// The place in `params` of the first placeholder that is not empty and
/// stands at the start of `t`; -1 where none does.
pub open spec fn param_at_start(t: Seq<char>, params: Params) -> int
    decreases params.len(),
{
    if params.len() == 0 {
        -1
    } else if params[0].0.len() > 0 && occurs_at(t, params[0].0, 0) {
        0
    } else {
        let rest = param_at_start(t, params.subrange(1, params.len() as int));
        if rest < 0 {
            -1
        } else {
            rest + 1
        }
    }
}

/// The template `t` with its placeholders filled in. The template is read
/// once from the left: where a placeholder stands, its value is put and
/// reading goes on behind the placeholder, so that no value is ever read
/// as template text; where several stand, the first of `params` counts.
pub open spec fn rendered(t: Seq<char>, params: Params) -> Seq<char>
    decreases t.len(),
{
    if t.len() == 0 {
        Seq::<char>::empty()
    } else {
        let k = param_at_start(t, params);
        if 0 <= k < params.len() && 0 < params[k].0.len() <= t.len() {
            params[k].1 + rendered(t.subrange(params[k].0.len() as int, t.len() as int), params)
        } else {
            seq![t[0]] + rendered(t.subrange(1, t.len() as int), params)
        }
    }
}

/// The address of the template `template_name` at `branch` of the
/// repository whose raw files are under `base`.
pub open spec fn template_url(base: Seq<char>, template_name: Seq<char>, branch: Seq<char>) -> Seq<
    char,
> {
    base + "/"@ + branch + "/templates/"@ + template_name + ".rs.template"@
}

/// Where a template comes from.
#[derive(Clone, Debug, PartialEq, Eq)]
pub enum TemplateSource {
    /// A file on disk.
    File(String),
    /// An address to get.
    Url(String),
}

/// What a `TemplateSource` holds.
pub enum TemplateSourceView {
    File(Seq<char>),
    Url(Seq<char>),
}

impl View for TemplateSource {
    type V = TemplateSourceView;

    open spec fn view(&self) -> TemplateSourceView {
        match self {
            TemplateSource::File(p) => TemplateSourceView::File(p@),
            TemplateSource::Url(u) => TemplateSourceView::Url(u@),
        }
    }
}

/// What came of the one attempt to fetch a template.
#[derive(Clone, Debug, PartialEq, Eq)]
pub enum Fetched {
    /// The template's text.
    Body(String),
    /// The file could not be read, or the request did not end in success.
    Failed,
    /// What came back is no text.
    Undecodable,
}

/// What a `Fetched` holds.
pub enum FetchedView {
    Body(Seq<char>),
    Failed,
    Undecodable,
}

impl View for Fetched {
    type V = FetchedView;

    open spec fn view(&self) -> FetchedView {
        match self {
            Fetched::Body(b) => FetchedView::Body(b@),
            Fetched::Failed => FetchedView::Failed,
            Fetched::Undecodable => FetchedView::Undecodable,
        }
    }
}

/// Where the template `template_name` comes from, given where the
/// framework comes from: from the checkout's `templates` directory for a
/// local framework; else from the repository's raw files under `base`, at
/// the branch of a remote framework (the latest release where it names
/// none) or at the release branch of a published version.
pub open spec fn source_of(
    base: Seq<char>,
    location: OdraLocationView,
    template_name: Seq<char>,
) -> TemplateSourceView {
    match location {
        OdraLocationView::Local(path) => TemplateSourceView::File(
            joined_path(joined_path(path, "templates"@), template_name + ".rs.template"@),
        ),
        OdraLocationView::Remote(_, branch) => TemplateSourceView::Url(
            template_url(
                base,
                template_name,
                match branch {
                    Some(b) => b,
                    None => ODRA_TEMPLATE_GH_BRANCH@,
                },
            ),
        ),
        OdraLocationView::CratesIO(version) => TemplateSourceView::Url(
            template_url(base, template_name, "release/"@ + version),
        ),
    }
}

/// What a fetch of `template_name` from `source` amounts to: the text that
/// came, or a failure. A file that could not be had is a failed fetch that
/// names the template; an address that could not be had is a failed fetch
/// that names the address, and one that gave no text a failed parse that
/// names it.
pub open spec fn fetch_result(
    source: TemplateSourceView,
    template_name: Seq<char>,
    fetched: FetchedView,
) -> Result<Seq<char>, Failure> {
    match fetched {
        FetchedView::Body(b) => Ok(b),
        FetchedView::Failed => match source {
            TemplateSourceView::File(_) => Err((ErrorKind::FailedToFetchTemplate, template_name)),
            TemplateSourceView::Url(u) => Err((ErrorKind::FailedToFetchTemplate, u)),
        },
        FetchedView::Undecodable => match source {
            TemplateSourceView::File(_) => Err((ErrorKind::FailedToFetchTemplate, template_name)),
            TemplateSourceView::Url(u) => Err((ErrorKind::FailedToParseTemplate, u)),
        },
    }
}

/// `r`, with each side taken by its view.
pub open spec fn result_view(r: Result<String, Error>) -> Result<Seq<char>, Failure> {
    match r {
        Ok(s) => Ok(s@),
        Err(e) => Err(e@),
    }
}

/// What was fetched, with its placeholders filled in from `params` where
/// it is a template's text; a failure stays the failure.
pub open spec fn map_fetch(
    fetched: Result<Seq<char>, Failure>,
    params: Params,
) -> Result<Seq<char>, Failure> {
    match fetched {
        Ok(t) => Ok(rendered(t, params)),
        Err(e) => Err(e),
    }
}

/// What the place of the first placeholder at the start of `t` is: a
/// placeholder that is not empty and stands there, with none before it in
/// `params` that does.
pub proof fn lemma_param_at_start(t: Seq<char>, params: Params)
    ensures
        -1 <= param_at_start(t, params) < params.len(),
        param_at_start(t, params) >= 0 ==> {
            let k = param_at_start(t, params);
            params[k].0.len() > 0 && occurs_at(t, params[k].0, 0)
        },
        forall|j: int|
            0 <= j < params.len() && (param_at_start(t, params) < 0 || j < param_at_start(
                t,
                params,
            )) ==> !((#[trigger] params[j]).0.len() > 0 && occurs_at(t, params[j].0, 0)),
    decreases params.len(),
{
    if params.len() > 0 && !(params[0].0.len() > 0 && occurs_at(t, params[0].0, 0)) {
        let rest = params.subrange(1, params.len() as int);
        lemma_param_at_start(t, rest);
        assert forall|j: int|
            0 <= j < params.len() && (param_at_start(t, params) < 0 || j < param_at_start(
                t,
                params,
            )) implies !((#[trigger] params[j]).0.len() > 0 && occurs_at(t, params[j].0, 0)) by {
            if j > 0 {
                assert(params[j] == rest[j - 1]);
            }
        }
    }
}

/// A template that holds no placeholder of `params` is rendered as it is.
pub proof fn lemma_render_without_placeholders(t: Seq<char>, params: Params)
    requires
        forall|k: int, i: int|
            0 <= k < params.len() && (#[trigger] params[k]).0.len() > 0 ==> !#[trigger] occurs_at(
                t,
                params[k].0,
                i,
            ),
    ensures
        rendered(t, params) == t,
    decreases t.len(),
{
    if t.len() > 0 {
        lemma_param_at_start(t, params);
        let rest = t.subrange(1, t.len() as int);
        assert forall|k: int, i: int|
            0 <= k < params.len() && (#[trigger] params[k]).0.len() > 0 implies !#[trigger] occurs_at(
                rest,
                params[k].0,
                i,
            ) by {
            if occurs_at(rest, params[k].0, i) {
                assert(rest.subrange(i, i + params[k].0.len()) =~= t.subrange(
                    i + 1,
                    i + 1 + params[k].0.len(),
                ));
                assert(occurs_at(t, params[k].0, i + 1));
            }
        }
        lemma_render_without_placeholders(rest, params);
        assert(seq![t[0]] + rest =~= t);
    }
}

/// The place in `params` of the first placeholder that stands at offset
/// `i` of `t`.
fn param_at(t: &Vec<char>, i: usize, keys: &Vec<Vec<char>>, Ghost(params): Ghost<Params>) -> (r:
    Option<usize>)
    requires
        i <= t@.len(),
        keys.len() == params.len(),
        forall|k: int| 0 <= k < keys.len() ==> (#[trigger] keys[k])@ == params[k].0,
    ensures
        match r {
            Some(k) => k as int == param_at_start(t@.subrange(i as int, t@.len() as int), params)
                && k < params.len(),
            None => param_at_start(t@.subrange(i as int, t@.len() as int), params) < 0,
        },
{
    let ghost rest = t@.subrange(i as int, t@.len() as int);
    let mut k: usize = 0;
    while k < keys.len()
        invariant
            i <= t@.len(),
            rest == t@.subrange(i as int, t@.len() as int),
            keys.len() == params.len(),
            forall|j: int| 0 <= j < keys.len() ==> (#[trigger] keys[j])@ == params[j].0,
            k <= keys.len(),
            forall|j: int|
                0 <= j < k ==> !((#[trigger] params[j]).0.len() > 0 && occurs_at(
                    rest,
                    params[j].0,
                    0,
                )),
        decreases keys.len() - k,
    {
        proof {
            let key = params[k as int].0;
            assert(keys[k as int]@ == key);
            if i + key.len() <= t@.len() {
                assert(rest.subrange(0, key.len() as int) =~= t@.subrange(
                    i as int,
                    i + key.len(),
                ));
            }
        }
        if keys[k].len() > 0 && occurs_at_in(t, &keys[k], i) {
            proof {
                lemma_param_at_start(rest, params);
            }
            return Some(k);
        }
        k = k + 1;
    }
    proof {
        lemma_param_at_start(rest, params);
    }
    None
}

/// The template `template` with its placeholders filled in from `params`,
/// pairs of a placeholder and its value.
pub fn render(template: &str, params: &Vec<(String, String)>) -> (r: String)
    ensures
        r@ == rendered(template@, params.deep_view()),
{
    let ghost ps = params.deep_view();
    let t = chars_of(template);
    let n = t.len();
    let mut keys: Vec<Vec<char>> = Vec::new();
    let mut k: usize = 0;
    while k < params.len()
        invariant
            ps == params.deep_view(),
            k <= params.len(),
            keys.len() == k,
            forall|j: int| 0 <= j < k ==> (#[trigger] keys[j])@ == ps[j].0,
        decreases params.len() - k,
    {
        assert(ps[k as int].0 == params[k as int].0@);
        keys.push(chars_of(params[k].0.as_str()));
        k = k + 1;
    }
    let mut out = String::new();
    let mut start: usize = 0;
    let mut i: usize = 0;
    assert(template@.subrange(0, n as int) =~= template@);
    assert(out@ + template@.subrange(0, 0) + rendered(template@, ps) =~= rendered(template@, ps));
    while i < n
        invariant
            ps == params.deep_view(),
            t@ == template@,
            n == t@.len(),
            start <= i <= n,
            keys.len() == ps.len(),
            forall|j: int| 0 <= j < keys.len() ==> (#[trigger] keys[j])@ == ps[j].0,
            out@ + template@.subrange(start as int, i as int) + rendered(
                template@.subrange(i as int, n as int),
                ps,
            ) == rendered(template@, ps),
        decreases n - i,
    {
        let ghost rest = template@.subrange(i as int, n as int);
        let ghost kept = template@.subrange(start as int, i as int);
        match param_at(&t, i, &keys, Ghost(ps)) {
            Some(k) => {
                let m = keys[k].len();
                let ghost after = rendered(template@.subrange(i + m, n as int), ps);
                proof {
                    lemma_param_at_start(rest, ps);
                    assert(keys[k as int]@ == ps[k as int].0);
                    assert(ps[k as int].1 == params[k as int].1@);
                    assert(rest.subrange(m as int, rest.len() as int) =~= template@.subrange(
                        i + m,
                        n as int,
                    ));
                    assert(out@ + kept + (ps[k as int].1 + after) =~= (out@ + kept
                        + ps[k as int].1) + template@.subrange(i + m, i + m) + after);
                }
                out.append(template.substring_char(start, i));
                out.append(params[k].1.as_str());
                i = i + m;
                start = i;
            },
            None => {
                let ghost after = rendered(template@.subrange(i + 1, n as int), ps);
                proof {
                    assert(rest.subrange(1, rest.len() as int) =~= template@.subrange(
                        i + 1,
                        n as int,
                    ));
                    assert(out@ + kept + (seq![rest[0]] + after) =~= out@ + template@.subrange(
                        start as int,
                        i + 1,
                    ) + after);
                }
                i = i + 1;
            },
        }
    }
    proof {
        assert(template@.subrange(i as int, n as int) =~= Seq::<char>::empty());
        assert(out@ + template@.subrange(start as int, n as int) + Seq::<char>::empty() =~= out@
            + template@.subrange(start as int, n as int));
    }
    out.append(template.substring_char(start, n));
    out
}

/// One pair of a placeholder and its value.
pub fn param(placeholder: &str, value: &str) -> (r: (String, String))
    ensures
        r.deep_view() == (placeholder@, value@),
{
    (String::from_str(placeholder), String::from_str(value))
}

/// Knows where the templates of a project come from.
#[derive(Clone, Debug, PartialEq, Eq)]
pub struct TemplateGenerator {
    pub raw_repository_path: String,
    pub odra_location: OdraLocation,
}

impl TemplateGenerator {
    /// A generator for templates of the framework at `odra_location`, with
    /// `repository_path` as the base address of the repository's raw files.
    pub fn new(repository_path: String, odra_location: OdraLocation) -> (r: Self)
        ensures
            r.raw_repository_path == repository_path,
            r.odra_location == odra_location,
    {
        Self { raw_repository_path: repository_path, odra_location }
    }

    /// The address of the template `template_name` at `branch`.
    pub fn template_path(&self, template_name: &str, branch: &str) -> (r: String)
        ensures
            r@ == template_url(self.raw_repository_path@, template_name@, branch@),
    {
        let mut r = self.raw_repository_path.clone();
        r.append("/");
        r.append(branch);
        r.append("/templates/");
        r.append(template_name);
        r.append(".rs.template");
        r
    }

    /// Where the template `template_name` is to be fetched from.
    pub fn template_source(&self, template_name: &str) -> (r: TemplateSource)
        ensures
            r@ == source_of(self.raw_repository_path@, self.odra_location@, template_name@),
    {
        match &self.odra_location {
            OdraLocation::Local(path) => {
                let dir = join(path.as_str(), "templates");
                let file = concat(template_name, ".rs.template");
                TemplateSource::File(join(dir.as_str(), file.as_str()))
            },
            OdraLocation::Remote(_, branch) => {
                match branch {
                    Some(b) => TemplateSource::Url(self.template_path(template_name, b.as_str())),
                    None => TemplateSource::Url(
                        self.template_path(template_name, ODRA_TEMPLATE_GH_BRANCH),
                    ),
                }
            },
            OdraLocation::CratesIO(version) => {
                let branch = concat("release/", version.as_str());
                TemplateSource::Url(self.template_path(template_name, branch.as_str()))
            },
        }
    }

    /// The text of the template `template_name`, or the failure that the
    /// one attempt to fetch it from its source amounts to.
    pub fn fetch_template(&self, template_name: &str, fetched: Fetched) -> (r: Result<
        String,
        Error,
    >)
        ensures
            result_view(r) == fetch_result(
                source_of(self.raw_repository_path@, self.odra_location@, template_name@),
                template_name@,
                fetched@,
            ),
    {
        match fetched {
            Fetched::Body(b) => Ok(b),
            Fetched::Failed => match self.template_source(template_name) {
                TemplateSource::File(_) => Err(
                    Error::FailedToFetchTemplate(String::from_str(template_name)),
                ),
                TemplateSource::Url(u) => Err(Error::FailedToFetchTemplate(u)),
            },
            Fetched::Undecodable => match self.template_source(template_name) {
                TemplateSource::File(_) => Err(
                    Error::FailedToFetchTemplate(String::from_str(template_name)),
                ),
                TemplateSource::Url(u) => Err(Error::FailedToParseTemplate(u)),
            },
        }
    }

    /// The text of a new module's file: the module template, fetched as
    /// `fetched` says, with `module_name` for its placeholder.
    pub fn module_template(&self, module_name: &str, fetched: Fetched) -> (r: Result<
        String,
        Error,
    >)
        ensures
            result_view(r) == map_fetch(
                fetch_result(
                    source_of(self.raw_repository_path@, self.odra_location@, MODULE_TEMPLATE@),
                    MODULE_TEMPLATE@,
                    fetched@,
                ),
                seq![("#module_name"@, module_name@)],
            ),
    {
        let body = self.fetch_template(MODULE_TEMPLATE, fetched)?;
        let mut params: Vec<(String, String)> = Vec::new();
        params.push(param("#module_name", module_name));
        assert(params.deep_view() =~= seq![("#module_name"@, module_name@)]);
        Ok(render(body.as_str(), &params))
    }

    /// The code that registers a new module in the library's root file:
    /// the registration snippet, fetched as `fetched` says, with
    /// `contract_name` and `module_name` for its placeholders.
    pub fn register_module_snippet(
        &self,
        contract_name: &str,
        module_name: &str,
        fetched: Fetched,
    ) -> (r: Result<String, Error>)
        ensures
            result_view(r) == map_fetch(
                fetch_result(
                    source_of(self.raw_repository_path@, self.odra_location@, MODULE_REGISTER@),
                    MODULE_REGISTER@,
                    fetched@,
                ),
                seq![("#contract_name"@, contract_name@), ("#module_name"@, module_name@)],
            ),
    {
        let body = self.fetch_template(MODULE_REGISTER, fetched)?;
        let mut params: Vec<(String, String)> = Vec::new();
        params.push(param("#contract_name", contract_name));
        params.push(param("#module_name", module_name));
        assert(params.deep_view() =~= seq![
            ("#contract_name"@, contract_name@),
            ("#module_name"@, module_name@),
        ]);
        Ok(render(body.as_str(), &params))
    }
}

} // verus!
