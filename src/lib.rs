//! A WebDriver client core: the command router, the response interpreter,
//! session negotiation between the W3C and the legacy JSON Wire dialects,
//! and the retry decision used to wait for asynchronous page state.
//!
//! Everything here is pure: the caller performs the HTTP exchange and hands
//! the raw status, content type and body back to the library.

pub mod text;
pub mod json;
pub mod error;
pub mod interpret;
pub mod command;
pub mod session;
pub mod poll;
pub mod page;

pub use command::{Command, Locator, Method, Request, WebElement};
pub use error::{Error, ErrorStatus};
pub use json::{Json, JsonNumber};
pub use session::{Negotiation, Session, Step};
