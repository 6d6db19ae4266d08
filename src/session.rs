use vstd::prelude::*;
use crate::command::{Command, Method, Request, is_str, joined_url, request_for, encode};
use crate::error::Error;
use crate::interpret::{interpret, response_outcome};
use crate::json::{Json, lookup, json_of, get_str, string_field};
use crate::text::{has_infix, has_prefix, contains, starts_with};

verus! {

/// One remote browser session: the server it lives on, the id that the
/// server gave it, the dialect it speaks, and the User-Agent it sends.
pub struct Session {
    server_url: String,
    session_id: Option<String>,
    legacy: bool,
    user_agent: Option<String>,
}

impl Session {
    /// The server's base URL.
    pub closed spec fn base(&self) -> Seq<char> {
        self.server_url@
    }

    /// The session id, once the server gave one.
    pub closed spec fn id(&self) -> Option<Seq<char>> {
        match self.session_id {
            Some(s) => Some(s@),
            None => None,
        }
    }

    /// Whether the session speaks the legacy JSON Wire dialect.
    pub closed spec fn speaks_legacy(&self) -> bool {
        self.legacy
    }

    /// The User-Agent sent with every request, if any.
    pub closed spec fn agent(&self) -> Option<String> {
        self.user_agent
    }

    /// A session that has not been negotiated yet.
    pub fn unestablished(server_url: String, user_agent: Option<String>) -> (r: Session)
        ensures
            r.base() == server_url@,
            r.id() is None,
            !r.speaks_legacy(),
            r.agent() == user_agent,
    {
        Session { server_url, session_id: None, legacy: false, user_agent }
    }

    pub fn server_url(&self) -> (r: &String)
        ensures
            r@ == self.base(),
    {
        &self.server_url
    }

    pub fn session_id(&self) -> (r: Option<&String>)
        ensures
            match r {
                Some(s) => self.id() == Some(s@),
                None => self.id() is None,
            },
    {
        match &self.session_id {
            Some(s) => Some(s),
            None => None,
        }
    }

    pub fn is_legacy(&self) -> (r: bool)
        ensures
            r == self.speaks_legacy(),
    {
        self.legacy
    }

    pub fn user_agent(&self) -> (r: Option<String>)
        ensures
            r == self.agent(),
    {
        match &self.user_agent {
            Some(s) => Some(s.clone()),
            None => None,
        }
    }
}


/// `close` leaves `session` without an id; `r` is the delete request for
/// the id it had, if any and if its URL could be formed.
pub open spec fn close_request(session: &Session, r: Option<Request>) -> bool {
    match session.id() {
        None => r is None,
        Some(id) => match joined_url(session.base(), "/session/"@ + id) {
            Some(u) => r matches Some(req) && req.method == Method::Delete && req.url@ == u
                && req.body is None && req.user_agent == session.agent(),
            None => r is None,
        },
    }
}

impl Session {
    /// Tears the session down: forgets its id and returns the request that
    /// deletes it on the server, to be sent without waiting for the answer.
    /// A session without an id yields nothing, so a second call is a no-op.
    pub fn close(&mut self) -> (r: Option<Request>)
        ensures
            close_request(old(self), r),
            final(self).id() is None,
            final(self).base() == old(self).base(),
            final(self).speaks_legacy() == old(self).speaks_legacy(),
            final(self).agent() == old(self).agent(),
    {
        if self.session_id.is_none() {
            return None;
        }
        let r = encode(Command::DeleteSession, self);
        self.session_id = None;
        match r {
            Ok(req) => Some(req),
            Err(_) => None,
        }
    }
}

/// The capabilities asked for at session creation: the browser waits for
/// pages to load.
pub open spec fn default_capabilities(c: Vec<(String, Json)>) -> bool {
    c@.len() == 1 && c@[0].0@ == "pageLoadStrategy"@ && is_str(c@[0].1, "normal"@)
}

fn page_load_capabilities() -> (r: Vec<(String, Json)>)
    ensures
        default_capabilities(r),
{
    let mut c: Vec<(String, Json)> = Vec::new();
    c.push((String::from_str("pageLoadStrategy"), Json::Str(String::from_str("normal"))));
    c
}

/// The session id that a successful session creation answered with.
pub open spec fn created_session_id(payload: Json) -> Option<String> {
    string_field(payload, "sessionId"@)
}

/// The rejection of a W3C session request by a server of the legacy
/// dialect: a string that begins with "Missing Command Parameter", or an
/// object whose `message` names the missing legacy capabilities.
pub open spec fn rejects_w3c_request(j: Json) -> bool {
    match j {
        Json::Str(s) => has_prefix(s@, "Missing Command Parameter"@),
        Json::Object(f) => match lookup(f@, "message"@) {
            Some(Json::Str(m)) => has_infix(m@, "cannot find dict 'desiredCapabilities'"@)
                || has_infix(m@, "Missing or invalid capabilities"@),
            _ => false,
        },
        _ => false,
    }
}

/// Whether a malformed answer to a W3C session request comes from a server
/// of the legacy dialect.
pub fn is_legacy_rejection(j: &Json) -> (r: bool)
    ensures
        r == rejects_w3c_request(*j),
{
    match j {
        Json::Str(s) => starts_with(s.as_str(), "Missing Command Parameter"),
        Json::Object(_) => match get_str(j, "message") {
            Some(m) => contains(m.as_str(), "cannot find dict 'desiredCapabilities'") || contains(
                m.as_str(),
                "Missing or invalid capabilities",
            ),
            None => false,
        },
        _ => false,
    }
}

/// A session being negotiated: the dialect of the attempt under way is the
/// session's own.
pub struct Negotiation {
    session: Session,
}

/// What a negotiation does next.
pub enum Step {
    /// Send this request, and hand the answer to the negotiation.
    Retry(Negotiation, Result<Request, Error>),
    /// The session is established.
    Established(Session),
    /// Negotiation failed; no session exists.
    Failed(Error),
}

impl Negotiation {
    /// The session under negotiation.
    pub closed spec fn pending(&self) -> Session {
        self.session
    }

    /// Whether the attempt under way uses the legacy dialect.
    pub closed spec fn attempts_legacy(&self) -> bool {
        self.session.legacy
    }

    /// The session under negotiation.
    pub fn session(&self) -> (r: &Session)
        ensures
            *r == self.pending(),
    {
        &self.session
    }

    /// Starts negotiating a session with the server at `server_url`: the
    /// first attempt is a W3C session request.
    pub fn start(server_url: String, user_agent: Option<String>) -> (r: (
        Negotiation,
        Result<Request, Error>,
    ))
        ensures
            !r.0.attempts_legacy(),
            r.0.pending().base() == server_url@,
            r.0.pending().id() is None,
            r.0.pending().agent() == user_agent,
            !r.0.pending().speaks_legacy(),
            exists|c: Vec<(String, Json)>| #[trigger]
                default_capabilities(c) && request_for(
                    (Command::CreateSession { legacy: false, capabilities: c }),
                    &r.0.pending(),
                    r.1,
                ),
    {
        let session = Session::unestablished(server_url, user_agent);
        let c = page_load_capabilities();
        let ghost gc = c;
        let req = encode(Command::CreateSession { legacy: false, capabilities: c }, &session);
        assert(default_capabilities(gc));
        (Negotiation { session }, req)
    }
}

/// `r` is the next step of negotiation `n` once its attempt came out as
/// `outcome`.
pub open spec fn next_step(n: Negotiation, outcome: Result<Json, Error>, r: Step) -> bool {
    let s = n.pending();
    match outcome {
        Ok(payload) => match created_session_id(payload) {
            Some(id) => r matches Step::Established(e) && e.id() == Some(id@) && e.speaks_legacy()
                == s.speaks_legacy() && e.base() == s.base() && e.agent() == s.agent(),
            None => r matches Step::Failed(Error::MalformedResponse(Some(p))) && p == payload,
        },
        Err(err) => if !n.attempts_legacy() && (err matches Error::MalformedResponse(Some(j))
            && rejects_w3c_request(j)) {
            r matches Step::Retry(m, q) && m.attempts_legacy() && m.pending().speaks_legacy()
                && m.pending().id() is None && m.pending().base() == s.base()
                && m.pending().agent() == s.agent() && exists|c: Vec<(String, Json)>| #[trigger]
                default_capabilities(c) && request_for(
                (Command::CreateSession { legacy: true, capabilities: c }),
                &m.pending(),
                q,
            )
        } else {
            r == Step::Failed(err)
        },
    }
}

impl Negotiation {
    /// Advances the negotiation with the outcome of its attempt.
    pub fn advance(self, outcome: Result<Json, Error>) -> (r: Step)
        ensures
            next_step(self, outcome, r),
    {
        let mut session = self.session;
        match outcome {
            Ok(payload) => {
                let id = match get_str(&payload, "sessionId") {
                    Some(id) => id.clone(),
                    None => return Step::Failed(Error::MalformedResponse(Some(payload))),
                };
                session.session_id = Some(id);
                Step::Established(session)
            },
            Err(err) => {
                let legacy_server = match &err {
                    Error::MalformedResponse(Some(j)) => !session.legacy && is_legacy_rejection(j),
                    _ => false,
                };
                if legacy_server {
                    session.legacy = true;
                    session.session_id = None;
                    let c = page_load_capabilities();
                    let ghost gc = c;
                    let req = encode(
                        Command::CreateSession { legacy: true, capabilities: c },
                        &session,
                    );
                    assert(default_capabilities(gc));
                    Step::Retry(Negotiation { session }, req)
                } else {
                    Step::Failed(err)
                }
            },
        }
    }

    /// Advances the negotiation with the raw answer to its attempt.
    pub fn on_response(self, status: u16, content_type: Option<String>, body: &[u8]) -> (r: Step)
        ensures
            exists|o: Result<Json, Error>|
                response_outcome(self.attempts_legacy(), true, status, content_type, json_of(body@), o)
                    && #[trigger] next_step(self, o, r),
    {
        let ghost n = self;
        let o = interpret(self.session.legacy, true, status, content_type, body);
        let r = self.advance(o);
        assert(next_step(n, o, r));
        r
    }
}

} // verus!
