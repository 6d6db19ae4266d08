use rusty_driver::error::{Error, ErrorStatus};
use rusty_driver::interpret::{interpret, legacy_status, w3c_status};
use rusty_driver::json::Json;

const JSON: &str = "application/json; charset=utf-8";

fn ct() -> Option<String> {
    Some(JSON.to_string())
}

fn failure(r: Result<Json, Error>) -> (ErrorStatus, String) {
    match r {
        Err(Error::WebDriver(es, m)) => (es, m),
        other => panic!("expected a WebDriver failure, got {:?}", other),
    }
}

const LEGACY_TABLE: [(u64, ErrorStatus); 22] = [
    (6, ErrorStatus::SessionNotCreated),
    (33, ErrorStatus::SessionNotCreated),
    (7, ErrorStatus::NoSuchElement),
    (8, ErrorStatus::NoSuchFrame),
    (9, ErrorStatus::UnknownCommand),
    (10, ErrorStatus::StaleElementReference),
    (11, ErrorStatus::ElementNotInteractable),
    (12, ErrorStatus::InvalidElementState),
    (13, ErrorStatus::UnknownError),
    (15, ErrorStatus::ElementNotSelectable),
    (17, ErrorStatus::JavascriptError),
    (19, ErrorStatus::InvalidSelector),
    (32, ErrorStatus::InvalidSelector),
    (21, ErrorStatus::Timeout),
    (23, ErrorStatus::NoSuchWindow),
    (24, ErrorStatus::InvalidCookieDomain),
    (25, ErrorStatus::UnableToSetCookie),
    (26, ErrorStatus::UnexpectedAlertOpen),
    (27, ErrorStatus::NoSuchAlert),
    (28, ErrorStatus::ScriptTimeout),
    (29, ErrorStatus::InvalidCoordinates),
    (34, ErrorStatus::MoveTargetOutOfBounds),
];

#[test]
fn legacy_codes_map_to_their_status() {
    for (code, es) in LEGACY_TABLE.iter() {
        assert_eq!(legacy_status(*code), Some(*es));
        let body = format!("{{\"status\":{},\"value\":{{\"message\":\"boom\"}}}}", code);
        let (got, msg) = failure(interpret(true, false, 200, ct(), body.as_bytes()));
        assert_eq!(got, *es, "code {}", code);
        assert_eq!(msg, "boom");
    }
}

#[test]
fn legacy_codes_outside_the_table_are_malformed() {
    for code in [1u64, 2, 5, 14, 16, 18, 20, 22, 30, 31, 35, 100] {
        assert_eq!(legacy_status(code), None);
        let body = format!("{{\"status\":{},\"value\":{{\"message\":\"boom\"}}}}", code);
        let r = interpret(true, false, 200, ct(), body.as_bytes());
        assert!(matches!(r, Err(Error::MalformedResponse(Some(Json::Object(_))))), "code {}", code);
    }
}

const W3C_TABLE: [(u16, &str, ErrorStatus); 30] = [
    (400, "element click intercepted", ErrorStatus::ElementClickIntercepted),
    (400, "element not selectable", ErrorStatus::ElementNotSelectable),
    (400, "element not interactable", ErrorStatus::ElementNotInteractable),
    (400, "insecure certificate", ErrorStatus::InsecureCertificate),
    (400, "invalid argument", ErrorStatus::InvalidArgument),
    (400, "invalid cookie domain", ErrorStatus::InvalidCookieDomain),
    (400, "invalid coordinates", ErrorStatus::InvalidCoordinates),
    (400, "invalid element state", ErrorStatus::InvalidElementState),
    (400, "invalid selector", ErrorStatus::InvalidSelector),
    (400, "no such alert", ErrorStatus::NoSuchAlert),
    (400, "no such frame", ErrorStatus::NoSuchFrame),
    (400, "no such window", ErrorStatus::NoSuchWindow),
    (400, "stale element reference", ErrorStatus::StaleElementReference),
    (404, "unknown command", ErrorStatus::UnknownCommand),
    (404, "no such cookie", ErrorStatus::NoSuchCookie),
    (404, "invalid session id", ErrorStatus::InvalidSessionId),
    (404, "no such element", ErrorStatus::NoSuchElement),
    (404, "no such frame", ErrorStatus::NoSuchFrame),
    (404, "no such window", ErrorStatus::NoSuchWindow),
    (500, "javascript error", ErrorStatus::JavascriptError),
    (500, "move target out of bounds", ErrorStatus::MoveTargetOutOfBounds),
    (500, "session not created", ErrorStatus::SessionNotCreated),
    (500, "unable to set cookie", ErrorStatus::UnableToSetCookie),
    (500, "unable to capture screen", ErrorStatus::UnableToCaptureScreen),
    (500, "unexpected alert open", ErrorStatus::UnexpectedAlertOpen),
    (500, "unknown error", ErrorStatus::UnknownError),
    (500, "unsupported operation", ErrorStatus::UnsupportedOperation),
    (408, "timeout", ErrorStatus::Timeout),
    (408, "script timeout", ErrorStatus::ScriptTimeout),
    (405, "unknown method", ErrorStatus::UnknownMethod),
];

#[test]
fn w3c_pairs_map_to_their_status() {
    for (status, err, es) in W3C_TABLE.iter() {
        assert_eq!(w3c_status(*status, err), Some(*es));
        let body = format!("{{\"value\":{{\"error\":\"{}\",\"message\":\"m\"}}}}", err);
        let (got, msg) = failure(interpret(false, false, *status, ct(), body.as_bytes()));
        assert_eq!(got, *es, "{} {}", status, err);
        assert_eq!(msg, "m");
    }
}

#[test]
fn w3c_unlisted_pair_keeps_the_error_string() {
    let body = br#"{"value":{"error":"no such element","message":"m"}}"#;
    match interpret(false, false, 400, ct(), body) {
        Err(Error::UnexpectedStatus { status, error }) => {
            assert_eq!(status, 400);
            assert_eq!(error, "no such element");
        }
        other => panic!("{:?}", other),
    }
    let body = br#"{"value":{"error":"timeout","message":"m"}}"#;
    match interpret(false, false, 418, ct(), body) {
        Err(Error::UnexpectedStatus { status, error }) => {
            assert_eq!(status, 418);
            assert_eq!(error, "timeout");
        }
        other => panic!("{:?}", other),
    }
}

#[test]
fn w3c_failure_needs_error_and_message() {
    let r = interpret(false, false, 404, ct(), br#"{"value":{"message":"m"}}"#);
    assert!(matches!(r, Err(Error::MalformedResponse(Some(Json::Object(_))))));
    let r = interpret(false, false, 404, ct(), br#"{"value":{"error":"no such element"}}"#);
    assert!(matches!(r, Err(Error::MalformedResponse(Some(Json::Object(_))))));
}

#[test]
fn w3c_success_returns_the_value_member() {
    let r = interpret(false, false, 200, ct(), br#"{"value":"https://example.org/"}"#);
    match r {
        Ok(Json::Str(s)) => assert_eq!(s, "https://example.org/"),
        other => panic!("{:?}", other),
    }
    let r = interpret(false, false, 200, ct(), br#"{"value":null}"#);
    assert!(matches!(r, Ok(Json::Null)));
    let r = interpret(false, false, 200, ct(), br#"{"other":1}"#);
    assert!(matches!(r, Err(Error::MalformedResponse(Some(Json::Object(_))))));
}

#[test]
fn legacy_success_and_failure_bodies() {
    let r = interpret(true, false, 200, ct(), br#"{"status":0,"value":"ok"}"#);
    match r {
        Ok(Json::Str(s)) => assert_eq!(s, "ok"),
        other => panic!("{:?}", other),
    }
    let body = br#"{"status":7,"message":"no such element"}"#;
    let (es, msg) = failure(interpret(true, true, 200, ct(), body));
    assert_eq!(es, ErrorStatus::NoSuchElement);
    assert_eq!(msg, "no such element");
    let body = br#"{"status":7,"value":{"message":"no such element"}}"#;
    let (es, msg) = failure(interpret(true, false, 500, ct(), body));
    assert_eq!(es, ErrorStatus::NoSuchElement);
    assert_eq!(msg, "no such element");
}

#[test]
fn legacy_new_session_answer_is_returned_whole() {
    let r = interpret(true, true, 200, ct(), br#"{"sessionId":"xyz","status":0,"value":{}}"#);
    match r {
        Ok(Json::Object(f)) => {
            assert_eq!(f.len(), 3);
            assert!(f.iter().any(|(k, v)| k == "sessionId" && matches!(v, Json::Str(s) if s == "xyz")));
        }
        other => panic!("{:?}", other),
    }
}

#[test]
fn legacy_status_must_be_an_unsigned_integer() {
    let r = interpret(true, false, 200, ct(), br#"{"value":"ok"}"#);
    assert!(matches!(r, Err(Error::MalformedResponse(Some(Json::Object(_))))));
    let r = interpret(true, false, 200, ct(), br#"{"status":-1,"value":"ok"}"#);
    assert!(matches!(r, Err(Error::MalformedResponse(Some(Json::Object(_))))));
}

#[test]
fn legacy_failure_needs_a_message() {
    let r = interpret(true, false, 200, ct(), br#"{"status":7,"value":{"text":"x"}}"#);
    assert!(matches!(r, Err(Error::MalformedResponse(Some(Json::Object(_))))));
}

#[test]
fn screen_member_is_dropped_from_failures() {
    let body = br#"{"value":{"error":"nope","message":"m","screen":"AAAA"}}"#;
    let r = interpret(false, false, 500, ct(), body);
    assert!(matches!(r, Err(Error::UnexpectedStatus { .. })));
    let body = br#"{"value":{"message":"m","screen":"AAAA"}}"#;
    match interpret(false, false, 500, ct(), body) {
        Err(Error::MalformedResponse(Some(Json::Object(f)))) => {
            assert_eq!(f.len(), 1);
            assert_eq!(f[0].0, "message");
        }
        other => panic!("{:?}", other),
    }
}

#[test]
fn content_type_is_checked_before_anything_else() {
    for status in [200u16, 404, 500] {
        let r = interpret(false, false, status, None, br#"{"value":1}"#);
        assert!(matches!(r, Err(Error::UnexpectedContentType(None))));
        let r = interpret(true, true, status, Some("text/html".to_string()), br#"{"value":1}"#);
        match r {
            Err(Error::UnexpectedContentType(Some(c))) => assert_eq!(c, "text/html"),
            other => panic!("{:?}", other),
        }
    }
    let r = interpret(false, false, 200, Some("application/jsonx".to_string()), br#"{"value":1}"#);
    assert!(r.is_ok());
}

#[test]
fn bodies_that_are_not_json_objects_are_malformed() {
    let r = interpret(false, false, 200, ct(), b"");
    assert!(matches!(r, Err(Error::MalformedResponse(None))));
    let r = interpret(false, false, 200, ct(), b"<html>");
    assert!(matches!(r, Err(Error::MalformedResponse(None))));
    let r = interpret(false, false, 200, ct(), b"[1,2]");
    assert!(matches!(r, Err(Error::MalformedResponse(Some(Json::Array(_))))));
}
