use vstd::prelude::*;
use crate::error::Error;
use crate::json::{Json, json_text_of, encode_json};
use crate::session::Session;

verus! {

/// The key that carries an element id in the given dialect.
pub open spec fn element_key(legacy: bool) -> Seq<char> {
    if legacy {
        "ELEMENT"@
    } else {
        "element-6066-11e4-a52e-4f735466cecf"@
    }
}

/// Returns the key that carries an element id in the given dialect.
pub fn element_key_for(legacy: bool) -> (r: &'static str)
    ensures
        r@ == element_key(legacy),
{
    if legacy {
        "ELEMENT"
    } else {
        "element-6066-11e4-a52e-4f735466cecf"
    }
}

/// An opaque element handle that the remote end assigned.
#[derive(Clone, Debug, PartialEq, Eq, Hash)]
pub struct WebElement {
    pub id: String,
}

/// A way to select elements, with its selector text.
#[derive(Clone, Eq, PartialEq, Ord, PartialOrd, Debug, Hash)]
pub enum Locator {
    Css(String),
    LinkText(String),
    XPath(String),
}

impl Locator {
    /// The wire name of the selection strategy.
    pub open spec fn strategy(self) -> Seq<char> {
        match self {
            Locator::Css(_) => "css selector"@,
            Locator::LinkText(_) => "link text"@,
            Locator::XPath(_) => "xpath"@,
        }
    }

    /// The selector text.
    pub open spec fn selector(self) -> String {
        match self {
            Locator::Css(s) => s,
            Locator::LinkText(s) => s,
            Locator::XPath(s) => s,
        }
    }
}

/// The HTTP method of a request.
#[derive(Clone, Copy, Debug, PartialEq, Eq, Structural)]
pub enum Method {
    Get,
    Post,
    Delete,
}

/// The WebDriver operations this client issues.
#[derive(Debug)]
pub enum Command {
    /// Opens a session; `legacy` picks the shape of the request, and
    /// `capabilities` are the members of the capabilities object.
    CreateSession { legacy: bool, capabilities: Vec<(String, Json)> },
    DeleteSession,
    Navigate(String),
    GetCurrentUrl,
    GoBack,
    Refresh,
    GetPageSource,
    FindElement(Locator),
    FindElements(Locator),
    FindElementElement(WebElement, Locator),
    FindElementElements(WebElement, Locator),
    GetElementAttribute(WebElement, String),
    GetElementProperty(WebElement, String),
    GetElementText(WebElement),
    ElementClick(WebElement),
    ElementSendKeys(WebElement, String),
    ExecuteScript(String, Vec<Json>),
    SwitchToFrame(WebElement),
    SwitchToParentFrame,
    SwitchToWindow(String),
    GetCookies,
}

/// An HTTP request ready for the transport. A request with a body carries
/// `Content-Type: application/json; charset=utf-8` and the body's length.
#[derive(Debug)]
pub struct Request {
    pub method: Method,
    pub url: String,
    pub body: Option<String>,
    pub user_agent: Option<String>,
}

/// The HTTP method of each command.
pub open spec fn command_method(cmd: Command) -> Method {
    match cmd {
        Command::DeleteSession => Method::Delete,
        Command::GetCurrentUrl | Command::GetPageSource | Command::GetCookies
        | Command::GetElementAttribute(..) | Command::GetElementProperty(..)
        | Command::GetElementText(..) => Method::Get,
        _ => Method::Post,
    }
}

/// The absolute path of each command, for session `sid` in the given
/// dialect.
pub open spec fn command_path(cmd: Command, sid: Seq<char>, legacy: bool) -> Seq<char> {
    let s = "/session/"@ + sid;
    match cmd {
        Command::CreateSession { .. } => "/session"@,
        Command::DeleteSession => s,
        Command::Navigate(_) | Command::GetCurrentUrl => s + "/url"@,
        Command::GoBack => s + "/back"@,
        Command::Refresh => s + "/refresh"@,
        Command::GetPageSource => s + "/source"@,
        Command::FindElement(_) => s + "/element"@,
        Command::FindElements(_) => s + "/elements"@,
        Command::FindElementElement(p, _) => s + "/element/"@ + p.id@ + "/element"@,
        Command::FindElementElements(p, _) => s + "/element/"@ + p.id@ + "/elements"@,
        Command::GetElementAttribute(e, n) => s + "/element/"@ + e.id@ + "/attribute/"@ + n@,
        Command::GetElementProperty(e, n) => s + "/element/"@ + e.id@ + "/property/"@ + n@,
        Command::GetElementText(e) => s + "/element/"@ + e.id@ + "/text"@,
        Command::ElementClick(e) => s + "/element/"@ + e.id@ + "/click"@,
        Command::ElementSendKeys(e, _) => s + "/element/"@ + e.id@ + "/value"@,
        Command::ExecuteScript(..) => if legacy {
            s + "/execute"@
        } else {
            s + "/execute/sync"@
        },
        Command::SwitchToFrame(_) => s + "/frame"@,
        Command::SwitchToParentFrame => s + "/frame/parent"@,
        Command::SwitchToWindow(_) => s + "/window"@,
        Command::GetCookies => s + "/cookie"@,
    }
}

/// `j` is a JSON string with the characters `s`.
pub open spec fn is_str(j: Json, s: Seq<char>) -> bool {
    j matches Json::Str(x) && x@ == s
}

/// `j` is an object with the single member `k`: its value.
pub open spec fn sole_member(j: Json, k: Seq<char>) -> Option<Json> {
    match j {
        Json::Object(f) => if f@.len() == 1 && f@[0].0@ == k {
            Some(f@[0].1)
        } else {
            None
        },
        _ => None,
    }
}

/// `j` is an object with exactly the members `k1` and `k2`, in this order:
/// their values.
pub open spec fn two_members(j: Json, k1: Seq<char>, k2: Seq<char>) -> Option<(Json, Json)> {
    match j {
        Json::Object(f) => if f@.len() == 2 && f@[0].0@ == k1 && f@[1].0@ == k2 {
            Some((f@[0].1, f@[1].1))
        } else {
            None
        },
        _ => None,
    }
}

/// `j` is an empty JSON array.
pub open spec fn is_empty_array(j: Json) -> bool {
    j matches Json::Array(v) && v@.len() == 0
}

/// `j` is an empty JSON object.
pub open spec fn is_empty_object(j: Json) -> bool {
    j matches Json::Object(v) && v@.len() == 0
}

/// `j` is the `{using, value}` object of locator `l`.
pub open spec fn locator_body(l: Locator, j: Json) -> bool {
    two_members(j, "using"@, "value"@) matches Some((u, v)) && is_str(u, l.strategy()) && is_str(
        v,
        l.selector()@,
    )
}

/// The commands that send the fixed body `{}`.
pub open spec fn sends_empty_object(cmd: Command) -> bool {
    cmd is ElementClick || cmd is GoBack || cmd is Refresh || cmd is SwitchToParentFrame
}

/// The commands whose body is built from their data.
pub open spec fn sends_data(cmd: Command) -> bool {
    cmd is CreateSession || cmd is Navigate || cmd is FindElement || cmd is FindElements
        || cmd is FindElementElement || cmd is FindElementElements || cmd is ExecuteScript
        || cmd is ElementSendKeys || cmd is SwitchToFrame || cmd is SwitchToWindow
}

/// `j` is the JSON body of `cmd` in the given dialect.
pub open spec fn data_body(cmd: Command, legacy: bool, j: Json) -> bool {
    match cmd {
        Command::CreateSession { legacy: false, capabilities } => sole_member(j, "capabilities"@) matches Some(c)
            && two_members(c, "alwaysMatch"@, "firstMatch"@) matches Some((a, f)) && a == Json::Object(
            capabilities,
        ) && is_empty_array(f),
        Command::CreateSession { legacy: true, capabilities } => two_members(
            j,
            "desiredCapabilities"@,
            "requiredCapabilities"@,
        ) matches Some((d, r)) && is_empty_object(d) && r == Json::Object(capabilities),
        Command::Navigate(u) => sole_member(j, "url"@) matches Some(v) && is_str(v, u@),
        Command::FindElement(l) => locator_body(l, j),
        Command::FindElements(l) => locator_body(l, j),
        Command::FindElementElement(_, l) => locator_body(l, j),
        Command::FindElementElements(_, l) => locator_body(l, j),
        Command::ExecuteScript(script, args) => two_members(j, "script"@, "args"@) matches Some(
            (s, a),
        ) && is_str(s, script@) && a == Json::Array(args),
        Command::ElementSendKeys(_, t) => sole_member(j, "text"@) matches Some(v) && is_str(v, t@),
        Command::SwitchToFrame(e) => sole_member(j, "id"@) matches Some(inner) && sole_member(
            inner,
            element_key(legacy),
        ) matches Some(v) && is_str(v, e.id@),
        Command::SwitchToWindow(h) => sole_member(j, "handle"@) matches Some(v) && is_str(v, h@),
        _ => false,
    }
}

/// `body` is what `cmd` sends in the given dialect.
pub open spec fn body_matches(cmd: Command, legacy: bool, body: Option<String>) -> bool {
    if sends_empty_object(cmd) {
        body matches Some(t) && t@ == "{}"@
    } else if sends_data(cmd) {
        body matches Some(t) && exists|j: Json| #[trigger]
            data_body(cmd, legacy, j) && t@ == json_text_of(j)
    } else {
        body is None
    }
}

/// The absolute URL that url resolves `path` to against `base`; `None`
/// when `base` is no URL.
pub uninterp spec fn joined_url(base: Seq<char>, path: Seq<char>) -> Option<Seq<char>>;

/// Relies on `url::Url::parse` of the base and `url::Url::join` of an
/// absolute path: the outcome depends on the two strings alone.
#[verifier::external_body]
pub(crate) fn resolve_url(base: &str, path: &str) -> (r: Option<String>)
    ensures
        match r {
            Some(u) => joined_url(base@, path@) == Some(u@),
            None => joined_url(base@, path@) is None,
        },
{
    url::Url::parse(base).and_then(|u| u.join(path)).ok().map(String::from)
}

} // verus!

verus! {

/// Appends `/element/{id}{tail}` to `p`.
fn push_element_path(p: &mut String, id: &str, tail: &str)
    ensures
        final(p)@ == old(p)@ + "/element/"@ + id@ + tail@,
{
    p.append("/element/");
    p.append(id);
    p.append(tail);
}

/// The absolute path of `cmd` for session `sid`.
pub fn path_for(cmd: &Command, sid: &str, legacy: bool) -> (r: String)
    ensures
        r@ == command_path(*cmd, sid@, legacy),
{
    if let Command::CreateSession { .. } = cmd {
        return String::from_str("/session");
    }
    let mut p = String::from_str("/session/");
    p.append(sid);
    match cmd {
        Command::CreateSession { .. } | Command::DeleteSession => {},
        Command::Navigate(_) | Command::GetCurrentUrl => p.append("/url"),
        Command::GoBack => p.append("/back"),
        Command::Refresh => p.append("/refresh"),
        Command::GetPageSource => p.append("/source"),
        Command::FindElement(_) => p.append("/element"),
        Command::FindElements(_) => p.append("/elements"),
        Command::FindElementElement(e, _) => push_element_path(&mut p, e.id.as_str(), "/element"),
        Command::FindElementElements(e, _) => push_element_path(
            &mut p,
            e.id.as_str(),
            "/elements",
        ),
        Command::GetElementAttribute(e, n) => {
            push_element_path(&mut p, e.id.as_str(), "/attribute/");
            p.append(n.as_str());
        },
        Command::GetElementProperty(e, n) => {
            push_element_path(&mut p, e.id.as_str(), "/property/");
            p.append(n.as_str());
        },
        Command::GetElementText(e) => push_element_path(&mut p, e.id.as_str(), "/text"),
        Command::ElementClick(e) => push_element_path(&mut p, e.id.as_str(), "/click"),
        Command::ElementSendKeys(e, _) => push_element_path(&mut p, e.id.as_str(), "/value"),
        Command::ExecuteScript(..) => if legacy {
            p.append("/execute")
        } else {
            p.append("/execute/sync")
        },
        Command::SwitchToFrame(_) => p.append("/frame"),
        Command::SwitchToParentFrame => p.append("/frame/parent"),
        Command::SwitchToWindow(_) => p.append("/window"),
        Command::GetCookies => p.append("/cookie"),
    }
    p
}

/// The HTTP method of `cmd`.
pub fn method_for(cmd: &Command) -> (r: Method)
    ensures
        r == command_method(*cmd),
{
    match cmd {
        Command::DeleteSession => Method::Delete,
        Command::GetCurrentUrl | Command::GetPageSource | Command::GetCookies
        | Command::GetElementAttribute(..) | Command::GetElementProperty(..)
        | Command::GetElementText(..) => Method::Get,
        _ => Method::Post,
    }
}

/// An object with the single member `k`.
fn single_member(k: &str, v: Json) -> (r: Json)
    ensures
        sole_member(r, k@) == Some(v),
{
    let mut f: Vec<(String, Json)> = Vec::new();
    f.push((String::from_str(k), v));
    Json::Object(f)
}

/// An object with the members `k1` and `k2`, in this order.
fn member_pair(k1: &str, v1: Json, k2: &str, v2: Json) -> (r: Json)
    ensures
        two_members(r, k1@, k2@) == Some((v1, v2)),
{
    let mut f: Vec<(String, Json)> = Vec::new();
    f.push((String::from_str(k1), v1));
    f.push((String::from_str(k2), v2));
    Json::Object(f)
}

/// A JSON string with the characters of `s`.
fn json_str(s: &str) -> (r: Json)
    ensures
        is_str(r, s@),
{
    Json::Str(String::from_str(s))
}

/// The `{using, value}` object of a locator.
pub fn locator_json(l: Locator) -> (r: Json)
    ensures
        locator_body(l, r),
{
    match l {
        Locator::Css(s) => member_pair("using", json_str("css selector"), "value", Json::Str(s)),
        Locator::LinkText(s) => member_pair("using", json_str("link text"), "value", Json::Str(s)),
        Locator::XPath(s) => member_pair("using", json_str("xpath"), "value", Json::Str(s)),
    }
}

/// The JSON body of a command that sends one built from its data.
fn data_json(cmd: Command, legacy: bool) -> (r: Json)
    requires
        sends_data(cmd),
    ensures
        data_body(cmd, legacy, r),
{
    match cmd {
        Command::CreateSession { legacy: legacy_shape, capabilities } => if legacy_shape {
            member_pair(
                "desiredCapabilities",
                Json::Object(Vec::new()),
                "requiredCapabilities",
                Json::Object(capabilities),
            )
        } else {
            let c = member_pair(
                "alwaysMatch",
                Json::Object(capabilities),
                "firstMatch",
                Json::Array(Vec::new()),
            );
            single_member("capabilities", c)
        },
        Command::Navigate(u) => single_member("url", Json::Str(u)),
        Command::FindElement(l) => locator_json(l),
        Command::FindElements(l) => locator_json(l),
        Command::FindElementElement(_, l) => locator_json(l),
        Command::FindElementElements(_, l) => locator_json(l),
        Command::ExecuteScript(script, args) => member_pair(
            "script",
            Json::Str(script),
            "args",
            Json::Array(args),
        ),
        Command::ElementSendKeys(_, t) => single_member("text", Json::Str(t)),
        Command::SwitchToFrame(e) => {
            let inner = single_member(element_key_for(legacy), Json::Str(e.id));
            single_member("id", inner)
        },
        Command::SwitchToWindow(h) => single_member("handle", Json::Str(h)),
        _ => Json::Null,
    }
}

/// The body text that `cmd` sends, if any.
pub fn body_for(cmd: Command, legacy: bool) -> (r: Option<String>)
    ensures
        body_matches(cmd, legacy, r),
{
    if sends_empty(&cmd) {
        Some(String::from_str("{}"))
    } else if sends_built(&cmd) {
        let ghost c = cmd;
        let j = data_json(cmd, legacy);
        let t = encode_json(&j);
        assert(data_body(c, legacy, j) && t@ == json_text_of(j));
        Some(t)
    } else {
        None
    }
}

fn sends_empty(cmd: &Command) -> (r: bool)
    ensures
        r == sends_empty_object(*cmd),
{
    match cmd {
        Command::ElementClick(_) | Command::GoBack | Command::Refresh
        | Command::SwitchToParentFrame => true,
        _ => false,
    }
}

fn sends_built(cmd: &Command) -> (r: bool)
    ensures
        r == sends_data(*cmd),
{
    match cmd {
        Command::CreateSession { .. } | Command::Navigate(_) | Command::FindElement(_)
        | Command::FindElements(_) | Command::FindElementElement(..)
        | Command::FindElementElements(..) | Command::ExecuteScript(..)
        | Command::ElementSendKeys(..) | Command::SwitchToFrame(_)
        | Command::SwitchToWindow(_) => true,
        _ => false,
    }
}

/// `r` is the request for `cmd` on `session`.
pub open spec fn request_for(cmd: Command, session: &Session, r: Result<Request, Error>) -> bool {
    if !(cmd is CreateSession) && session.id() is None {
        r matches Err(Error::NoSession)
    } else {
        let sid = match session.id() {
            Some(s) => s,
            None => Seq::empty(),
        };
        match joined_url(session.base(), command_path(cmd, sid, session.speaks_legacy())) {
            None => r matches Err(Error::BadUrl),
            Some(u) => r matches Ok(req) && req.url@ == u && req.method == command_method(cmd)
                && body_matches(cmd, session.speaks_legacy(), req.body) && req.user_agent
                == session.agent(),
        }
    }
}

/// Turns a command into the HTTP request that carries it on `session`.
pub fn encode(cmd: Command, session: &Session) -> (r: Result<Request, Error>)
    ensures
        request_for(cmd, session, r),
{
    let legacy = session.is_legacy();
    let path = match session.session_id() {
        Some(sid) => path_for(&cmd, sid.as_str(), legacy),
        None => {
            if let Command::CreateSession { .. } = cmd {
                path_for(&cmd, "", legacy)
            } else {
                return Err(Error::NoSession);
            }
        },
    };
    proof {
        reveal_strlit("");
    }
    let url = match resolve_url(session.server_url().as_str(), path.as_str()) {
        Some(u) => u,
        None => return Err(Error::BadUrl),
    };
    let method = method_for(&cmd);
    let body = body_for(cmd, legacy);
    Ok(Request { method, url, body, user_agent: session.user_agent() })
}

} // verus!
