use visualpanic_rs::DialogRequest;
use visualpanic_rs::HandlerError;
use visualpanic_rs::PanicDetails;
use visualpanic_rs::PanicLocation;
use visualpanic_rs::VisualPanic;
use visualpanic_rs::VisualPanicLevel;
use visualpanic_rs::handle_panic;

fn sample_details() -> PanicDetails {
    PanicDetails {
        payload: Some(String::from("boom")),
        location: Some(PanicLocation {
            file: String::from("app.src"),
            line: 10,
            column: 4,
        }),
        message: Some(String::from("index out of range")),
    }
}

const SAMPLE_BODY: &str = "An error occurred.\n(app.src:10:4)\n\nPayload: boom\n\nMessage: index out of range\n\nThe program will terminate.\n";

fn unwrap_ok(r: Result<DialogRequest, HandlerError>) -> DialogRequest {
    match r {
        Ok(q) => q,
        Err(e) => panic!("handler failed: {:?}", e),
    }
}

#[test]
fn default_resolves_to_fallbacks() {
    let config = VisualPanic::default();
    let q = unwrap_ok(handle_panic(&config, &sample_details()));
    assert_eq!(q.title, "visualpanic_rs");
    assert!(q.level == VisualPanicLevel::Error);
    assert!(q.icon.is_none());
}

#[test]
fn title_alone_overrides() {
    let config = VisualPanic::new(None, Some("Custom Title"), None);
    let q = unwrap_ok(handle_panic(&config, &sample_details()));
    assert_eq!(q.title, "Custom Title");
    assert!(q.level == VisualPanicLevel::Error);
    assert!(q.icon.is_none());
}

#[test]
fn level_alone_overrides() {
    let config = VisualPanic::new(None, None, Some(VisualPanicLevel::Info));
    let q = unwrap_ok(handle_panic(&config, &sample_details()));
    assert_eq!(q.title, "visualpanic_rs");
    assert!(q.level == VisualPanicLevel::Info);
    assert!(q.icon.is_none());
}

#[test]
fn icon_alone_overrides() {
    let config = VisualPanic::new(Some("path/to/icon.png"), None, None);
    let q = unwrap_ok(handle_panic(&config, &sample_details()));
    assert_eq!(q.title, "visualpanic_rs");
    assert!(q.level == VisualPanicLevel::Error);
    assert_eq!(q.icon.as_deref(), Some("path/to/icon.png"));
}

#[test]
fn all_fields_override() {
    let config = VisualPanic::new(
        Some("icon.png"),
        Some("Title"),
        Some(VisualPanicLevel::Warning),
    );
    let q = unwrap_ok(handle_panic(&config, &sample_details()));
    assert_eq!(q.title, "Title");
    assert!(q.level == VisualPanicLevel::Warning);
    assert_eq!(q.icon.as_deref(), Some("icon.png"));
}

#[test]
fn body_contains_parts_once_in_order() {
    let config = VisualPanic::default();
    let q = unwrap_ok(handle_panic(&config, &sample_details()));
    let text = q.text.as_str();
    let at_loc = text.find("app.src:10:4").expect("location missing");
    let at_payload = text.find("boom").expect("payload missing");
    let at_message = text.find("index out of range").expect("message missing");
    assert!(at_loc < at_payload && at_payload < at_message);
    assert_eq!(text.matches("app.src:10:4").count(), 1);
    assert_eq!(text.matches("boom").count(), 1);
    assert_eq!(text.matches("index out of range").count(), 1);
}

#[test]
fn handler_is_idempotent() {
    let config = VisualPanic::new(None, Some("T"), Some(VisualPanicLevel::Warning));
    let first = unwrap_ok(handle_panic(&config, &sample_details()));
    let second = unwrap_ok(handle_panic(&config, &sample_details()));
    assert_eq!(first.text, second.text);
    assert_eq!(first.title, second.title);
    assert!(first.level == second.level);
    assert_eq!(first.icon, second.icon);
}

#[test]
fn scenario_default_config() {
    let config = VisualPanic::default();
    let q = unwrap_ok(handle_panic(&config, &sample_details()));
    assert_eq!(q.title, "visualpanic_rs");
    assert!(q.level == VisualPanicLevel::Error);
    assert!(q.text.contains("boom"));
    assert!(q.text.contains("index out of range"));
    assert!(q.text.contains("app.src:10:4"));
    assert_eq!(q.text, SAMPLE_BODY);
}

#[test]
fn scenario_custom_title_and_level() {
    let config = VisualPanic::new(None, Some("Custom Title"), Some(VisualPanicLevel::Warning));
    let q = unwrap_ok(handle_panic(&config, &sample_details()));
    assert_eq!(q.title, "Custom Title");
    assert!(q.level == VisualPanicLevel::Warning);
    assert_eq!(q.text, SAMPLE_BODY);
}

#[test]
fn scenario_payload_not_text() {
    let config = VisualPanic::default();
    let mut details = sample_details();
    details.payload = None;
    let r = handle_panic(&config, &details);
    assert_eq!(r.err(), Some(HandlerError::PayloadNotText));
}

#[test]
fn missing_location_is_fatal() {
    let config = VisualPanic::default();
    let mut details = sample_details();
    details.location = None;
    let r = handle_panic(&config, &details);
    assert_eq!(r.err(), Some(HandlerError::MissingLocation));
}

#[test]
fn missing_message_is_fatal() {
    let config = VisualPanic::default();
    let mut details = sample_details();
    details.message = None;
    let r = handle_panic(&config, &details);
    assert_eq!(r.err(), Some(HandlerError::MissingMessage));
}

#[test]
fn payload_is_checked_before_location() {
    let config = VisualPanic::default();
    let details = PanicDetails { payload: None, location: None, message: None };
    let r = handle_panic(&config, &details);
    assert_eq!(r.err(), Some(HandlerError::PayloadNotText));
}

#[test]
fn empty_strings_are_accepted() {
    let config = VisualPanic::new(Some(""), Some(""), None);
    let details = PanicDetails {
        payload: Some(String::new()),
        location: Some(PanicLocation { file: String::new(), line: 0, column: 0 }),
        message: Some(String::new()),
    };
    let q = unwrap_ok(handle_panic(&config, &details));
    assert_eq!(q.title, "");
    assert_eq!(q.icon.as_deref(), Some(""));
    assert_eq!(
        q.text,
        "An error occurred.\n(:0:0)\n\nPayload: \n\nMessage: \n\nThe program will terminate.\n"
    );
}
