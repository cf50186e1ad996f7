//! One-off template rendering, delegated to the `tera` crate.

use vstd::prelude::*;

verus! {

#[verifier::external_type_specification]
#[verifier::external_body]
pub struct ExTeraError(tera::Error);

/// The library's own rendering error. The engine's error value carries a
/// message that is never surfaced to a client, so nothing of it is kept.
#[derive(Clone, Copy, Debug, PartialEq, Eq, Structural)]
pub struct RenderError;

/// The outcome the template engine produces for the farewell template and a
/// given value of its `name` placeholder: the rendered text, or failure.
pub uninterp spec fn one_off_rendering(template: Seq<char>, name: Seq<char>) -> Result<
    Seq<char>,
    (),
>;

/// Relies on tera::Tera::one_off: parsing the template and rendering it
/// against the context in one shot, with HTML auto-escaping on. The farewell
/// template only substitutes its `name` placeholder, so for it both whether
/// rendering succeeds and the rendered text depend on the template and the
/// bound value alone; the `requires` pins the template to that one document.
#[verifier::external_body]
pub(crate) fn render_with_name(template: &str, name: &str) -> (r: Result<String, tera::Error>)
    requires
        template@ == crate::pages::BYE_TEMPLATE@,
    ensures
        (r is Ok <==> one_off_rendering(template@, name@) is Ok),
        (r matches Ok(rendered) ==> one_off_rendering(template@, name@) == Ok::<Seq<char>, ()>(
            rendered@,
        )),
{
    let mut context = tera::Context::new();
    context.insert("name", name);
    tera::Tera::one_off(template, &context, true)
}

} // verus!
