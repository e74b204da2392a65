use cargo_odra::errors::Error;
use cargo_odra::project::OdraLocation;
use cargo_odra::template::{param, render, Fetched, TemplateGenerator, TemplateSource};

const RAW: &str = "https://raw.githubusercontent.com/odradev/odra";

fn params(pairs: &[(&str, &str)]) -> Vec<(String, String)> {
    pairs.iter().map(|(k, v)| (k.to_string(), v.to_string())).collect()
}

fn generator(location: OdraLocation) -> TemplateGenerator {
    TemplateGenerator::new(RAW.to_string(), location)
}

fn published() -> TemplateGenerator {
    generator(OdraLocation::CratesIO("0.8.0".to_string()))
}

fn local() -> TemplateGenerator {
    generator(OdraLocation::Local("/home/me/odra".to_string()))
}

#[test]
fn render_fills_in_every_placeholder() {
    assert_eq!(
        render("pub struct #module_name; impl #module_name {}", &params(&[("#module_name", "Token")])),
        "pub struct Token; impl Token {}"
    );
    assert_eq!(
        render("mod #contract_name; use #contract_name::#module_name;", &params(&[("#contract_name", "token"), ("#module_name", "Token")])),
        "mod token; use token::Token;"
    );
}

#[test]
fn render_leaves_other_text_alone() {
    assert_eq!(render("no placeholders # here", &params(&[("#name", "x")])), "no placeholders # here");
    assert_eq!(render("", &params(&[("#name", "x")])), "");
    assert_eq!(render("#name", &params(&[])), "#name");
}

#[test]
fn render_never_reads_a_value_as_template() {
    assert_eq!(render("#a #b", &params(&[("#a", "#b"), ("#b", "#a")])), "#b #a");
    assert_eq!(render("#a", &params(&[("#a", "#a#a")])), "#a#a");
}

#[test]
fn render_takes_the_first_placeholder_that_fits() {
    assert_eq!(render("#name_x", &params(&[("#name", "A"), ("#name_x", "B")])), "A_x");
    assert_eq!(render("#name_x", &params(&[("#name_x", "B"), ("#name", "A")])), "B");
}

#[test]
fn render_skips_empty_placeholders() {
    assert_eq!(render("abc", &params(&[("", "x"), ("b", "y")])), "ayc");
}

#[test]
fn param_pairs_a_placeholder_with_its_value() {
    assert_eq!(param("#a", "b"), ("#a".to_string(), "b".to_string()));
}

#[test]
fn the_address_of_a_template() {
    assert_eq!(
        published().template_path("module", "release/0.8.0"),
        "https://raw.githubusercontent.com/odradev/odra/release/0.8.0/templates/module.rs.template"
    );
}

#[test]
fn a_published_framework_has_its_templates_at_its_release() {
    assert_eq!(
        published().template_source("module_register"),
        TemplateSource::Url(
            "https://raw.githubusercontent.com/odradev/odra/release/0.8.0/templates/module_register.rs.template".to_string()
        )
    );
}

#[test]
fn a_remote_framework_has_its_templates_at_its_branch() {
    let g = generator(OdraLocation::Remote("repo".to_string(), Some("develop".to_string())));
    assert_eq!(
        g.template_source("module"),
        TemplateSource::Url(
            "https://raw.githubusercontent.com/odradev/odra/develop/templates/module.rs.template".to_string()
        )
    );
    let g = generator(OdraLocation::Remote("repo".to_string(), None));
    assert_eq!(
        g.template_source("module"),
        TemplateSource::Url(
            "https://raw.githubusercontent.com/odradev/odra/releases/latest/templates/module.rs.template".to_string()
        )
    );
}

#[test]
fn a_local_framework_has_its_templates_on_disk() {
    assert_eq!(
        local().template_source("module"),
        TemplateSource::File("/home/me/odra/templates/module.rs.template".to_string())
    );
}

#[test]
fn a_fetched_template_is_its_text() {
    assert_eq!(published().fetch_template("module", Fetched::Body("text".to_string())), Ok("text".to_string()));
    assert_eq!(local().fetch_template("module", Fetched::Body("".to_string())), Ok("".to_string()));
}

#[test]
fn a_missing_file_is_a_failed_fetch_that_names_the_template() {
    assert_eq!(
        local().fetch_template("module", Fetched::Failed),
        Err(Error::FailedToFetchTemplate("module".to_string()))
    );
    assert_eq!(
        local().fetch_template("module", Fetched::Undecodable),
        Err(Error::FailedToFetchTemplate("module".to_string()))
    );
}

#[test]
fn a_failed_request_names_the_address() {
    assert_eq!(
        published().fetch_template("module", Fetched::Failed),
        Err(Error::FailedToFetchTemplate(
            "https://raw.githubusercontent.com/odradev/odra/release/0.8.0/templates/module.rs.template".to_string()
        ))
    );
}

#[test]
fn an_answer_that_is_no_text_is_a_failed_parse() {
    assert_eq!(
        published().fetch_template("module", Fetched::Undecodable),
        Err(Error::FailedToParseTemplate(
            "https://raw.githubusercontent.com/odradev/odra/release/0.8.0/templates/module.rs.template".to_string()
        ))
    );
}

#[test]
fn the_module_template_gets_the_modules_name() {
    assert_eq!(
        published().module_template("Token", Fetched::Body("pub struct #module_name;".to_string())),
        Ok("pub struct Token;".to_string())
    );
    assert_eq!(
        local().module_template("Token", Fetched::Failed),
        Err(Error::FailedToFetchTemplate("module".to_string()))
    );
}

#[test]
fn the_registration_snippet_gets_both_names() {
    assert_eq!(
        published().register_module_snippet(
            "token",
            "Token",
            Fetched::Body("pub mod #contract_name;\npub use #contract_name::#module_name;\n".to_string())
        ),
        Ok("pub mod token;\npub use token::Token;\n".to_string())
    );
    assert_eq!(
        local().register_module_snippet("token", "Token", Fetched::Undecodable),
        Err(Error::FailedToFetchTemplate("module_register".to_string()))
    );
}
