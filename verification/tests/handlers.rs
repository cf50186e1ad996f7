use orb::handlers::{bye_page, hey, hey_name, hey_name_plain, homepage, html_bye};
use orb::pages::HOMEPAGE_HTML;
use orb::render::RenderError;
use orb::response::ContentType;
use orb::state::AppState;

#[test]
fn test_hey() {
    let resp = hey();
    assert_eq!(resp.status, 200);
    assert_eq!(resp.body, "Hey there!");
}

#[test]
fn test_hey_name() {
    let state = AppState::new(String::from("orb test"));
    let resp = hey_name("Dave", &state);
    assert_eq!(resp.status, 200);
    assert_eq!(resp.body, "Hey Dave! From orb test");
}

#[test]
fn test_homepage() {
    let resp = homepage();
    assert_eq!(resp.status, 200);
    assert_eq!(resp.body, HOMEPAGE_HTML);
    assert_eq!(resp.content_type, Some(ContentType::Html));
}

#[test]
fn test_hey_name_plain() {
    let resp = hey_name_plain("Dave");
    assert_eq!(resp.status, 200);
    assert_eq!(resp.content_type, Some(ContentType::PlainText));
    assert_eq!(resp.body, "Hey Dave!");
}

#[test]
fn test_hey_is_stateless() {
    let first = hey();
    let _ = hey_name_plain("someone else");
    let second = hey();
    assert_eq!(first.status, second.status);
    assert_eq!(first.body, second.body);
    assert_eq!(second.body, "Hey there!");
}

#[test]
fn test_hey_name_empty_name() {
    let resp = hey_name_plain("");
    assert_eq!(resp.status, 200);
    assert_eq!(resp.body, "Hey !");
}

#[test]
fn test_bye_renders_name() {
    let resp = html_bye("Dave");
    assert_eq!(resp.status, 200);
    assert_eq!(resp.content_type, Some(ContentType::Html));
    assert!(resp.body.contains("Bye Dave!"));
}

#[test]
fn test_bye_escapes_markup_in_name() {
    let resp = html_bye("<b>Dave</b>");
    assert_eq!(resp.status, 200);
    assert!(!resp.body.contains("<b>Dave</b>"));
    assert!(resp.body.contains("&lt;"));
}

#[test]
fn test_bye_page_success() {
    let resp = bye_page(Ok(String::from("<p>farewell</p>")));
    assert_eq!(resp.status, 200);
    assert_eq!(resp.content_type, Some(ContentType::Html));
    assert_eq!(resp.body, "<p>farewell</p>");
}

#[test]
fn test_bye_page_failure() {
    let resp = bye_page(Err(RenderError));
    assert_eq!(resp.status, 500);
    assert_eq!(resp.content_type, None);
    assert_eq!(resp.body, "");
}

#[test]
fn test_app_state_keeps_name() {
    let state = AppState::new(String::from("orb"));
    assert_eq!(state.app_name, "orb");
}
