use vstd::prelude::*;
use crate::json::Json;

verus! {

/// The WebDriver failure categories that both dialects map into.
#[derive(Clone, Copy, Debug, PartialEq, Eq, Structural)]
pub enum ErrorStatus {
    ElementClickIntercepted,
    ElementNotInteractable,
    ElementNotSelectable,
    InsecureCertificate,
    InvalidArgument,
    InvalidCookieDomain,
    InvalidCoordinates,
    InvalidElementState,
    InvalidSelector,
    InvalidSessionId,
    JavascriptError,
    MoveTargetOutOfBounds,
    NoSuchAlert,
    NoSuchCookie,
    NoSuchElement,
    NoSuchFrame,
    NoSuchWindow,
    ScriptTimeout,
    SessionNotCreated,
    StaleElementReference,
    Timeout,
    UnableToCaptureScreen,
    UnableToSetCookie,
    UnexpectedAlertOpen,
    UnknownCommand,
    UnknownError,
    UnknownMethod,
    UnsupportedOperation,
}

/// Every way in which issuing a command can fail.
#[derive(Debug)]
pub enum Error {
    /// The HTTP exchange itself failed; the text describes how.
    Transport(String),
    /// The response had no Content-Type, or one that is not JSON.
    UnexpectedContentType(Option<String>),
    /// The response did not have the shape the protocol asks for: the body
    /// is not JSON (`None`), or the offending JSON value.
    MalformedResponse(Option<Json>),
    /// A W3C error whose HTTP status and error string form no known pair.
    UnexpectedStatus { status: u16, error: String },
    /// A failure that the remote end reported, with its message.
    WebDriver(ErrorStatus, String),
    /// A command other than session creation was issued without a session.
    NoSession,
    /// The server URL could not be combined with the command's path.
    BadUrl,
}

} // verus!
