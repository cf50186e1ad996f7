//! The route handlers: pure functions from a request's path parameter (and
//! the shared state, where a route uses it) to a response.

use vstd::prelude::*;
use crate::pages::{BYE_TEMPLATE, HOMEPAGE_HTML};
use crate::render::{one_off_rendering, render_with_name, RenderError};
use crate::response::{ContentType, Response};
use crate::state::AppState;

verus! {

/// The body of the plain greeting: `Hey {name}!`.
pub open spec fn plain_greeting_text(name: Seq<char>) -> Seq<char> {
    "Hey "@ + name + "!"@
}

/// The body of the state-carrying greeting: `Hey {name}! From {app_name}`.
pub open spec fn stateful_greeting_text(name: Seq<char>, app_name: Seq<char>) -> Seq<char> {
    "Hey "@ + name + "! From "@ + app_name
}

/// The fixed-text route: always 200 with the same plain-text body, whatever
/// came before.
pub fn hey() -> (r: Response)
    ensures
        r.status == 200,
        r.content_type == Some(ContentType::PlainText),
        r.body@ == "Hey there!"@,
{
    Response::ok_text(String::from_str("Hey there!"))
}

/// The greeting route without shared state: 200 with `Hey {name}!`, the
/// parameter interpolated verbatim.
pub fn hey_name_plain(name: &str) -> (r: Response)
    ensures
        r.status == 200,
        r.content_type == Some(ContentType::PlainText),
        r.body@ == plain_greeting_text(name@),
{
    let mut body = String::from_str("Hey ");
    body.append(name);
    body.append("!");
    Response::ok_text(body)
}

/// The greeting route with shared state: 200 with
/// `Hey {name}! From {app_name}`, both values interpolated verbatim.
pub fn hey_name(name: &str, state: &AppState) -> (r: Response)
    ensures
        r.status == 200,
        r.content_type == Some(ContentType::PlainText),
        r.body@ == stateful_greeting_text(name@, state.app_name@),
{
    let mut body = String::from_str("Hey ");
    body.append(name);
    body.append("! From ");
    body.append(state.app_name.as_str());
    Response::ok_text(body)
}

/// The root route: 200 with the fixed homepage document, byte-identical on
/// every invocation.
pub fn homepage() -> (r: Response)
    ensures
        r.status == 200,
        r.content_type == Some(ContentType::Html),
        r.body@ == HOMEPAGE_HTML@,
{
    Response::ok_html(String::from_str(HOMEPAGE_HTML))
}

/// Turns a rendering outcome into the farewell route's response: the rendered
/// page on success, a bare 500 on failure, and nothing else.
pub fn bye_page(outcome: Result<String, RenderError>) -> (r: Response)
    ensures
        (outcome matches Ok(rendered) ==> r.status == 200
            && r.content_type == Some(ContentType::Html) && r.body@ == rendered@),
        (outcome is Err ==> r.status == 500 && r.content_type is None
            && r.body@ == Seq::<char>::empty()),
{
    match outcome {
        Ok(rendered) => Response::ok_html(rendered),
        Err(_) => Response::internal_server_error(),
    }
}

/// The farewell route: renders the fixed template with the `name` parameter
/// bound. Exactly when rendering succeeds the response is 200 with the
/// rendered HTML; exactly when the engine refuses, it is 500 with an empty
/// body. No other status is possible.
pub fn html_bye(name: &str) -> (r: Response)
    ensures
        (one_off_rendering(BYE_TEMPLATE@, name@) matches Ok(rendered) ==> r.status == 200
            && r.content_type == Some(ContentType::Html) && r.body@ == rendered),
        (one_off_rendering(BYE_TEMPLATE@, name@) is Err ==> r.status == 500
            && r.content_type is None && r.body@ == Seq::<char>::empty()),
{
    let outcome = match render_with_name(BYE_TEMPLATE, name) {
        Ok(rendered) => Ok(rendered),
        Err(_) => Err(RenderError),
    };
    bye_page(outcome)
}

/// A greeting body identifies the name it was built from: two requests whose
/// names differ can never receive the same plain greeting, so no response can
/// stand for another request's parameter.
pub proof fn lemma_plain_greeting_identifies_name(a: Seq<char>, b: Seq<char>)
    ensures
        plain_greeting_text(a) == plain_greeting_text(b) ==> a == b,
{
    if plain_greeting_text(a) == plain_greeting_text(b) {
        assert(plain_greeting_text(a).len() == "Hey "@.len() + a.len() + "!"@.len());
        assert(plain_greeting_text(b).len() == "Hey "@.len() + b.len() + "!"@.len());
        assert(a.len() == b.len());
        assert forall|i: int| 0 <= i < a.len() implies a[i] == b[i] by {
            assert(plain_greeting_text(a)["Hey "@.len() + i] == a[i]);
            assert(plain_greeting_text(b)["Hey "@.len() + i] == b[i]);
        }
        assert(a =~= b);
    }
}

/// The same for the state-carrying greeting: with the app name held fixed,
/// equal bodies mean equal names.
pub proof fn lemma_stateful_greeting_identifies_name(a: Seq<char>, b: Seq<char>, app_name: Seq<char>)
    ensures
        stateful_greeting_text(a, app_name) == stateful_greeting_text(b, app_name) ==> a == b,
{
    if stateful_greeting_text(a, app_name) == stateful_greeting_text(b, app_name) {
        assert(stateful_greeting_text(a, app_name).len()
            == "Hey "@.len() + a.len() + "! From "@.len() + app_name.len());
        assert(stateful_greeting_text(b, app_name).len()
            == "Hey "@.len() + b.len() + "! From "@.len() + app_name.len());
        assert(a.len() == b.len());
        assert forall|i: int| 0 <= i < a.len() implies a[i] == b[i] by {
            assert(stateful_greeting_text(a, app_name)["Hey "@.len() + i] == a[i]);
            assert(stateful_greeting_text(b, app_name)["Hey "@.len() + i] == b[i]);
        }
        assert(a =~= b);
    }
}

} // verus!
