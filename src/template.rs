use crate::context::RowContext;
use vstd::prelude::*;

verus! {

/// Whether the template engine accepts a template text.
pub uninterp spec fn compiles(t: Seq<char>) -> bool;

/// What the template engine renders from a template text, with the variables
/// of one row bound under the name `var`; `None` where it fails.
pub uninterp spec fn rendering(t: Seq<char>, var: Seq<char>, row: Map<Seq<char>, Seq<char>>) -> Option<Seq<char>>;

/// Whether a template is accepted depends on its text alone: checking the same
/// text twice gives the same answer.
pub proof fn lemma_validation_deterministic(t: Seq<char>, u: Seq<char>)
    requires
        t == u,
    ensures
        compiles(t) == compiles(u),
{
}

#[verifier::external_type_specification]
#[verifier::external_body]
pub struct ExTemplateError(minijinja::Error);

/// Relies on minijinja's `Environment::template_from_str`: parsing accepts or
/// rejects a template by its text alone.
#[verifier::external_body]
pub(crate) fn parse_template(t: &str) -> (r: Result<(), minijinja::Error>)
    ensures
        r is Ok <==> compiles(t@),
{
    let env = minijinja::Environment::new();
    env.template_from_str(t).map(|_| ())
}

/// Relies on minijinja's `Template::render`, on an environment that treats an
/// undefined variable as an error: the output depends on the template text and
/// the bound variables alone, and a text that does not parse is not rendered.
#[verifier::external_body]
pub(crate) fn render_template(t: &str, var: &str, row: &RowContext) -> (r: Result<String, minijinja::Error>)
    ensures
        match r {
            Ok(s) => rendering(t@, var@, row@) == Some(s@),
            Err(_) => rendering(t@, var@, row@) is None,
        },
        !compiles(t@) ==> r is Err,
{
    let mut env = minijinja::Environment::new();
    env.set_undefined_behavior(minijinja::UndefinedBehavior::Strict);
    let template = env.template_from_str(t)?;
    let fields: std::collections::HashMap<String, serde_json::Value> = row.entries().iter()
        .map(|(k, v)| (k.clone(), serde_json::Value::String(v.clone()))).collect();
    template.render(std::collections::HashMap::from([(var, fields)]))
}

/// Relies on the `Display` impl of `minijinja::Error` for a readable message.
#[verifier::external_body]
pub(crate) fn template_error_message(e: &minijinja::Error) -> String {
    e.to_string()
}

} // verus!
