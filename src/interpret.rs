use vstd::prelude::*;
use crate::error::{Error, ErrorStatus};
use crate::json::{
    Json, JsonNumber, lookup, without_key, json_of, decode_json, find_field, get_str, take_field,
    remove_key, string_field, lemma_lookup_without,
};
use crate::text::{has_prefix, starts_with, str_eq};

verus! {

/// The failure category of a legacy numeric status code.
pub open spec fn legacy_error_status(code: u64) -> Option<ErrorStatus> {
    if code == 6 || code == 33 {
        Some(ErrorStatus::SessionNotCreated)
    } else if code == 7 {
        Some(ErrorStatus::NoSuchElement)
    } else if code == 8 {
        Some(ErrorStatus::NoSuchFrame)
    } else if code == 9 {
        Some(ErrorStatus::UnknownCommand)
    } else if code == 10 {
        Some(ErrorStatus::StaleElementReference)
    } else if code == 11 {
        Some(ErrorStatus::ElementNotInteractable)
    } else if code == 12 {
        Some(ErrorStatus::InvalidElementState)
    } else if code == 13 {
        Some(ErrorStatus::UnknownError)
    } else if code == 15 {
        Some(ErrorStatus::ElementNotSelectable)
    } else if code == 17 {
        Some(ErrorStatus::JavascriptError)
    } else if code == 19 || code == 32 {
        Some(ErrorStatus::InvalidSelector)
    } else if code == 21 {
        Some(ErrorStatus::Timeout)
    } else if code == 23 {
        Some(ErrorStatus::NoSuchWindow)
    } else if code == 24 {
        Some(ErrorStatus::InvalidCookieDomain)
    } else if code == 25 {
        Some(ErrorStatus::UnableToSetCookie)
    } else if code == 26 {
        Some(ErrorStatus::UnexpectedAlertOpen)
    } else if code == 27 {
        Some(ErrorStatus::NoSuchAlert)
    } else if code == 28 {
        Some(ErrorStatus::ScriptTimeout)
    } else if code == 29 {
        Some(ErrorStatus::InvalidCoordinates)
    } else if code == 34 {
        Some(ErrorStatus::MoveTargetOutOfBounds)
    } else {
        None
    }
}

/// The failure category of a W3C error string under HTTP 400.
pub open spec fn bad_request_status(e: Seq<char>) -> Option<ErrorStatus> {
    if e == "element click intercepted"@ {
        Some(ErrorStatus::ElementClickIntercepted)
    } else if e == "element not selectable"@ {
        Some(ErrorStatus::ElementNotSelectable)
    } else if e == "element not interactable"@ {
        Some(ErrorStatus::ElementNotInteractable)
    } else if e == "insecure certificate"@ {
        Some(ErrorStatus::InsecureCertificate)
    } else if e == "invalid argument"@ {
        Some(ErrorStatus::InvalidArgument)
    } else if e == "invalid cookie domain"@ {
        Some(ErrorStatus::InvalidCookieDomain)
    } else if e == "invalid coordinates"@ {
        Some(ErrorStatus::InvalidCoordinates)
    } else if e == "invalid element state"@ {
        Some(ErrorStatus::InvalidElementState)
    } else if e == "invalid selector"@ {
        Some(ErrorStatus::InvalidSelector)
    } else if e == "no such alert"@ {
        Some(ErrorStatus::NoSuchAlert)
    } else if e == "no such frame"@ {
        Some(ErrorStatus::NoSuchFrame)
    } else if e == "no such window"@ {
        Some(ErrorStatus::NoSuchWindow)
    } else if e == "stale element reference"@ {
        Some(ErrorStatus::StaleElementReference)
    } else {
        None
    }
}

/// The failure category of a W3C error string under HTTP 404.
pub open spec fn not_found_status(e: Seq<char>) -> Option<ErrorStatus> {
    if e == "unknown command"@ {
        Some(ErrorStatus::UnknownCommand)
    } else if e == "no such cookie"@ {
        Some(ErrorStatus::NoSuchCookie)
    } else if e == "invalid session id"@ {
        Some(ErrorStatus::InvalidSessionId)
    } else if e == "no such element"@ {
        Some(ErrorStatus::NoSuchElement)
    } else if e == "no such frame"@ {
        Some(ErrorStatus::NoSuchFrame)
    } else if e == "no such window"@ {
        Some(ErrorStatus::NoSuchWindow)
    } else {
        None
    }
}

/// The failure category of a W3C error string under HTTP 500.
pub open spec fn server_error_status(e: Seq<char>) -> Option<ErrorStatus> {
    if e == "javascript error"@ {
        Some(ErrorStatus::JavascriptError)
    } else if e == "move target out of bounds"@ {
        Some(ErrorStatus::MoveTargetOutOfBounds)
    } else if e == "session not created"@ {
        Some(ErrorStatus::SessionNotCreated)
    } else if e == "unable to set cookie"@ {
        Some(ErrorStatus::UnableToSetCookie)
    } else if e == "unable to capture screen"@ {
        Some(ErrorStatus::UnableToCaptureScreen)
    } else if e == "unexpected alert open"@ {
        Some(ErrorStatus::UnexpectedAlertOpen)
    } else if e == "unknown error"@ {
        Some(ErrorStatus::UnknownError)
    } else if e == "unsupported operation"@ {
        Some(ErrorStatus::UnsupportedOperation)
    } else {
        None
    }
}

/// The failure category of a W3C (HTTP status, error string) pair.
pub open spec fn w3c_error_status(status: u16, e: Seq<char>) -> Option<ErrorStatus> {
    if status == 400 {
        bad_request_status(e)
    } else if status == 404 {
        not_found_status(e)
    } else if status == 500 {
        server_error_status(e)
    } else if status == 408 {
        if e == "timeout"@ {
            Some(ErrorStatus::Timeout)
        } else if e == "script timeout"@ {
            Some(ErrorStatus::ScriptTimeout)
        } else {
            None
        }
    } else if status == 405 {
        if e == "unknown method"@ {
            Some(ErrorStatus::UnknownMethod)
        } else {
            None
        }
    } else {
        None
    }
}

/// `e` reports `fields` as a malformed object.
pub open spec fn is_malformed_object(e: Error, fields: Seq<(String, Json)>) -> bool {
    e matches Error::MalformedResponse(Some(Json::Object(g))) && g@ == fields
}

/// `e` is the error that the failed response payload `payload` stands for,
/// under a legacy status `code` or an HTTP `status`.
pub open spec fn failure_of(legacy: bool, status: u16, code: u64, payload: Json, e: Error) -> bool {
    match payload {
        Json::Object(all) => {
            let fields = without_key(all@, "screen"@);
            if legacy {
                match lookup(fields, "message"@) {
                    Some(Json::Str(m)) => match legacy_error_status(code) {
                        Some(es) => e == Error::WebDriver(es, m),
                        None => is_malformed_object(e, fields),
                    },
                    _ => is_malformed_object(e, fields),
                }
            } else {
                match lookup(fields, "error"@) {
                    Some(Json::Str(err)) => match w3c_error_status(status, err@) {
                        Some(es) => match lookup(fields, "message"@) {
                            Some(Json::Str(m)) => e == Error::WebDriver(es, m),
                            _ => is_malformed_object(e, fields),
                        },
                        None => e == (Error::UnexpectedStatus { status, error: err }),
                    },
                    _ => is_malformed_object(e, fields),
                }
            }
        },
        other => e == Error::MalformedResponse(Some(other)),
    }
}

/// `r` is the outcome for `payload`: the payload itself on success, else
/// the error it stands for.
pub open spec fn payload_outcome(
    legacy: bool,
    status: u16,
    code: u64,
    success: bool,
    payload: Json,
    r: Result<Json, Error>,
) -> bool {
    if success {
        r == Ok::<Json, Error>(payload)
    } else {
        r matches Err(e) && failure_of(legacy, status, code, payload, e)
    }
}

/// `r` is the outcome for a response whose body is the JSON object `fields`.
pub open spec fn object_outcome(
    legacy: bool,
    new_session: bool,
    status: u16,
    fields: Seq<(String, Json)>,
    whole: Json,
    r: Result<Json, Error>,
) -> bool {
    if legacy {
        match lookup(fields, "status"@) {
            Some(Json::Number(JsonNumber::Unsigned(code))) => if new_session {
                payload_outcome(true, status, code, code == 0, whole, r)
            } else {
                match lookup(fields, "value"@) {
                    Some(v) => payload_outcome(true, status, code, code == 0, v, r),
                    None => r matches Err(e) && is_malformed_object(e, fields),
                }
            },
            _ => r matches Err(e) && is_malformed_object(e, fields),
        }
    } else {
        match lookup(fields, "value"@) {
            Some(v) => payload_outcome(false, status, 0, 200 <= status < 300, v, r),
            None => r matches Err(e) && is_malformed_object(e, fields),
        }
    }
}

/// `r` is how a response with HTTP `status`, Content-Type `content_type`
/// and parsed body `body` (`None`: not JSON) is read, for a session in the
/// legacy dialect or not, answering a session creation or not.
pub open spec fn response_outcome(
    legacy: bool,
    new_session: bool,
    status: u16,
    content_type: Option<String>,
    body: Option<Json>,
    r: Result<Json, Error>,
) -> bool {
    match content_type {
        None => r == Err::<Json, Error>(Error::UnexpectedContentType(None)),
        Some(c) => if !has_prefix(c@, "application/json"@) {
            r == Err::<Json, Error>(Error::UnexpectedContentType(Some(c)))
        } else {
            match body {
                None => r == Err::<Json, Error>(Error::MalformedResponse(None)),
                Some(Json::Object(fields)) => object_outcome(
                    legacy,
                    new_session,
                    status,
                    fields@,
                    Json::Object(fields),
                    r,
                ),
                Some(other) => r == Err::<Json, Error>(Error::MalformedResponse(Some(other))),
            }
        },
    }
}

/// Maps a legacy numeric status code to its failure category.
pub fn legacy_status(code: u64) -> (r: Option<ErrorStatus>)
    ensures
        r == legacy_error_status(code),
{
    match code {
        6 | 33 => Some(ErrorStatus::SessionNotCreated),
        7 => Some(ErrorStatus::NoSuchElement),
        8 => Some(ErrorStatus::NoSuchFrame),
        9 => Some(ErrorStatus::UnknownCommand),
        10 => Some(ErrorStatus::StaleElementReference),
        11 => Some(ErrorStatus::ElementNotInteractable),
        12 => Some(ErrorStatus::InvalidElementState),
        13 => Some(ErrorStatus::UnknownError),
        15 => Some(ErrorStatus::ElementNotSelectable),
        17 => Some(ErrorStatus::JavascriptError),
        19 | 32 => Some(ErrorStatus::InvalidSelector),
        21 => Some(ErrorStatus::Timeout),
        23 => Some(ErrorStatus::NoSuchWindow),
        24 => Some(ErrorStatus::InvalidCookieDomain),
        25 => Some(ErrorStatus::UnableToSetCookie),
        26 => Some(ErrorStatus::UnexpectedAlertOpen),
        27 => Some(ErrorStatus::NoSuchAlert),
        28 => Some(ErrorStatus::ScriptTimeout),
        29 => Some(ErrorStatus::InvalidCoordinates),
        34 => Some(ErrorStatus::MoveTargetOutOfBounds),
        _ => None,
    }
}

fn bad_request(e: &str) -> (r: Option<ErrorStatus>)
    ensures
        r == bad_request_status(e@),
{
    if str_eq(e, "element click intercepted") {
        Some(ErrorStatus::ElementClickIntercepted)
    } else if str_eq(e, "element not selectable") {
        Some(ErrorStatus::ElementNotSelectable)
    } else if str_eq(e, "element not interactable") {
        Some(ErrorStatus::ElementNotInteractable)
    } else if str_eq(e, "insecure certificate") {
        Some(ErrorStatus::InsecureCertificate)
    } else if str_eq(e, "invalid argument") {
        Some(ErrorStatus::InvalidArgument)
    } else if str_eq(e, "invalid cookie domain") {
        Some(ErrorStatus::InvalidCookieDomain)
    } else if str_eq(e, "invalid coordinates") {
        Some(ErrorStatus::InvalidCoordinates)
    } else if str_eq(e, "invalid element state") {
        Some(ErrorStatus::InvalidElementState)
    } else if str_eq(e, "invalid selector") {
        Some(ErrorStatus::InvalidSelector)
    } else if str_eq(e, "no such alert") {
        Some(ErrorStatus::NoSuchAlert)
    } else if str_eq(e, "no such frame") {
        Some(ErrorStatus::NoSuchFrame)
    } else if str_eq(e, "no such window") {
        Some(ErrorStatus::NoSuchWindow)
    } else if str_eq(e, "stale element reference") {
        Some(ErrorStatus::StaleElementReference)
    } else {
        None
    }
}

fn not_found(e: &str) -> (r: Option<ErrorStatus>)
    ensures
        r == not_found_status(e@),
{
    if str_eq(e, "unknown command") {
        Some(ErrorStatus::UnknownCommand)
    } else if str_eq(e, "no such cookie") {
        Some(ErrorStatus::NoSuchCookie)
    } else if str_eq(e, "invalid session id") {
        Some(ErrorStatus::InvalidSessionId)
    } else if str_eq(e, "no such element") {
        Some(ErrorStatus::NoSuchElement)
    } else if str_eq(e, "no such frame") {
        Some(ErrorStatus::NoSuchFrame)
    } else if str_eq(e, "no such window") {
        Some(ErrorStatus::NoSuchWindow)
    } else {
        None
    }
}

fn server_error(e: &str) -> (r: Option<ErrorStatus>)
    ensures
        r == server_error_status(e@),
{
    if str_eq(e, "javascript error") {
        Some(ErrorStatus::JavascriptError)
    } else if str_eq(e, "move target out of bounds") {
        Some(ErrorStatus::MoveTargetOutOfBounds)
    } else if str_eq(e, "session not created") {
        Some(ErrorStatus::SessionNotCreated)
    } else if str_eq(e, "unable to set cookie") {
        Some(ErrorStatus::UnableToSetCookie)
    } else if str_eq(e, "unable to capture screen") {
        Some(ErrorStatus::UnableToCaptureScreen)
    } else if str_eq(e, "unexpected alert open") {
        Some(ErrorStatus::UnexpectedAlertOpen)
    } else if str_eq(e, "unknown error") {
        Some(ErrorStatus::UnknownError)
    } else if str_eq(e, "unsupported operation") {
        Some(ErrorStatus::UnsupportedOperation)
    } else {
        None
    }
}

/// Maps a W3C (HTTP status, error string) pair to its failure category.
pub fn w3c_status(status: u16, e: &str) -> (r: Option<ErrorStatus>)
    ensures
        r == w3c_error_status(status, e@),
{
    if status == 400 {
        bad_request(e)
    } else if status == 404 {
        not_found(e)
    } else if status == 500 {
        server_error(e)
    } else if status == 408 {
        if str_eq(e, "timeout") {
            Some(ErrorStatus::Timeout)
        } else if str_eq(e, "script timeout") {
            Some(ErrorStatus::ScriptTimeout)
        } else {
            None
        }
    } else if status == 405 {
        if str_eq(e, "unknown method") {
            Some(ErrorStatus::UnknownMethod)
        } else {
            None
        }
    } else {
        None
    }
}

/// The error that the payload of a failed response stands for.
pub fn classify_failure(legacy: bool, status: u16, code: u64, payload: Json) -> (r: Error)
    ensures
        failure_of(legacy, status, code, payload, r),
{
    match payload {
        Json::Object(all) => {
            let fields = remove_key(all, "screen");
            let kept = Json::Object(fields);
            if legacy {
                let message = match get_str(&kept, "message") {
                    Some(m) => m.clone(),
                    None => return Error::MalformedResponse(Some(kept)),
                };
                match legacy_status(code) {
                    Some(es) => Error::WebDriver(es, message),
                    None => Error::MalformedResponse(Some(kept)),
                }
            } else {
                let es = match get_str(&kept, "error") {
                    Some(err) => match w3c_status(status, err.as_str()) {
                        Some(es) => es,
                        None => return Error::UnexpectedStatus { status, error: err.clone() },
                    },
                    None => return Error::MalformedResponse(Some(kept)),
                };
                match get_str(&kept, "message") {
                    Some(m) => Error::WebDriver(es, m.clone()),
                    None => Error::MalformedResponse(Some(kept)),
                }
            }
        },
        other => Error::MalformedResponse(Some(other)),
    }
}

} // verus!

verus! {

/// Reads a response whose body is the JSON object `fields`.
fn read_object(legacy: bool, new_session: bool, status: u16, fields: Vec<(String, Json)>) -> (r:
    Result<Json, Error>)
    ensures
        object_outcome(legacy, new_session, status, fields@, Json::Object(fields), r),
{
    let mut fields = fields;
    if legacy {
        let code = match find_field(&fields, "status") {
            Some(i) => match &fields[i].1 {
                Json::Number(JsonNumber::Unsigned(c)) => *c,
                _ => return Err(Error::MalformedResponse(Some(Json::Object(fields)))),
            },
            None => return Err(Error::MalformedResponse(Some(Json::Object(fields)))),
        };
        if new_session {
            if code == 0 {
                Ok(Json::Object(fields))
            } else {
                Err(classify_failure(true, status, code, Json::Object(fields)))
            }
        } else {
            match take_field(&mut fields, "value") {
                Some(v) => if code == 0 {
                    Ok(v)
                } else {
                    Err(classify_failure(true, status, code, v))
                },
                None => Err(Error::MalformedResponse(Some(Json::Object(fields)))),
            }
        }
    } else {
        match take_field(&mut fields, "value") {
            Some(v) => if 200 <= status && status < 300 {
                Ok(v)
            } else {
                Err(classify_failure(false, status, 0, v))
            },
            None => Err(Error::MalformedResponse(Some(Json::Object(fields)))),
        }
    }
}

/// Reads a response given its already parsed body (`None`: the body is not
/// JSON): its payload on success, else the error it stands for.
pub fn interpret_parsed(
    legacy: bool,
    new_session: bool,
    status: u16,
    content_type: Option<String>,
    body: Option<Json>,
) -> (r: Result<Json, Error>)
    ensures
        response_outcome(legacy, new_session, status, content_type, body, r),
{
    match content_type {
        None => Err(Error::UnexpectedContentType(None)),
        Some(c) => {
            if !starts_with(c.as_str(), "application/json") {
                return Err(Error::UnexpectedContentType(Some(c)));
            }
            match body {
                None => Err(Error::MalformedResponse(None)),
                Some(Json::Object(fields)) => read_object(legacy, new_session, status, fields),
                Some(other) => Err(Error::MalformedResponse(Some(other))),
            }
        },
    }
}

/// Reads a raw response: HTTP `status`, its Content-Type header, and the
/// body bytes, which serde_json parses.
pub fn interpret(
    legacy: bool,
    new_session: bool,
    status: u16,
    content_type: Option<String>,
    body: &[u8],
) -> (r: Result<Json, Error>)
    ensures
        response_outcome(legacy, new_session, status, content_type, json_of(body@), r),
{
    let parsed = decode_json(body);
    interpret_parsed(legacy, new_session, status, content_type, parsed)
}

} // verus!

verus! {

proof fn lemma_screen_is_not(key: Seq<char>)
    requires
        key == "message"@ || key == "error"@,
    ensures
        "screen"@ != key,
{
    reveal_strlit("screen");
    reveal_strlit("message");
    reveal_strlit("error");
    assert("screen"@.len() != key.len());
}

/// A failed legacy response whose payload carries a string `message` fails
/// with the category that the legacy table gives its numeric status, and
/// with that message; a status outside the table makes it malformed.
pub proof fn lemma_legacy_failure(
    new_session: bool,
    status: u16,
    content_type: String,
    body: Vec<(String, Json)>,
    code: u64,
    payload: Json,
    r: Result<Json, Error>,
)
    requires
        has_prefix(content_type@, "application/json"@),
        lookup(body@, "status"@) == Some(Json::Number(JsonNumber::Unsigned(code))),
        code != 0,
        new_session ==> payload == Json::Object(body),
        !new_session ==> lookup(body@, "value"@) == Some(payload),
        string_field(payload, "message"@) is Some,
        response_outcome(true, new_session, status, Some(content_type), Some(Json::Object(body)), r),
    ensures
        match legacy_error_status(code) {
            Some(es) => r == Err::<Json, Error>(
                Error::WebDriver(es, string_field(payload, "message"@)->0),
            ),
            None => r matches Err(Error::MalformedResponse(Some(_))),
        },
{
    if let Json::Object(all) = payload {
        lemma_screen_is_not("message"@);
        lemma_lookup_without(all@, "screen"@, "message"@);
    }
}

/// A failed W3C response whose payload carries string `error` and
/// `message` members fails with the category that the W3C table gives the
/// (HTTP status, error) pair, and with that message; a pair outside the
/// table fails as an unexpected status that keeps the error string.
pub proof fn lemma_w3c_failure(
    new_session: bool,
    status: u16,
    content_type: String,
    body: Vec<(String, Json)>,
    payload: Json,
    error: String,
    r: Result<Json, Error>,
)
    requires
        has_prefix(content_type@, "application/json"@),
        !(200 <= status < 300),
        lookup(body@, "value"@) == Some(payload),
        string_field(payload, "error"@) == Some(error),
        string_field(payload, "message"@) is Some,
        response_outcome(false, new_session, status, Some(content_type), Some(Json::Object(body)), r),
    ensures
        match w3c_error_status(status, error@) {
            Some(es) => r == Err::<Json, Error>(
                Error::WebDriver(es, string_field(payload, "message"@)->0),
            ),
            None => r == Err::<Json, Error>(Error::UnexpectedStatus { status, error }),
        },
{
    if let Json::Object(all) = payload {
        lemma_screen_is_not("message"@);
        lemma_screen_is_not("error"@);
        lemma_lookup_without(all@, "screen"@, "message"@);
        lemma_lookup_without(all@, "screen"@, "error"@);
    }
}

/// A response without a JSON Content-Type is rejected for that alone,
/// whatever its HTTP status and body.
pub proof fn lemma_content_type_first(
    legacy: bool,
    new_session: bool,
    status: u16,
    content_type: Option<String>,
    body: Option<Json>,
    r: Result<Json, Error>,
)
    requires
        content_type matches Some(c) ==> !has_prefix(c@, "application/json"@),
        response_outcome(legacy, new_session, status, content_type, body, r),
    ensures
        r == Err::<Json, Error>(Error::UnexpectedContentType(content_type)),
{
}

} // verus!
