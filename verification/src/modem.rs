//! The device as seen by its client: the session that it hands out and the
//! requests that are sent to it.

use crate::error::ScrapeError;
use vstd::prelude::*;
use vstd::string::*;

verus! {

/// The credentials that the device asks for with every call but the one that
/// hands them out.
#[derive(Clone, Debug, PartialEq, Eq)]
pub struct Session {
    pub session_cookie: String,
    pub verification_token: String,
}

pub struct SessionView {
    pub session_cookie: Seq<char>,
    pub verification_token: Seq<char>,
}

impl View for Session {
    type V = SessionView;

    open spec fn view(&self) -> SessionView {
        SessionView {
            session_cookie: self.session_cookie@,
            verification_token: self.verification_token@,
        }
    }
}

#[derive(Clone, Copy, Debug, PartialEq, Eq, Structural)]
pub enum Method {
    Get,
    Post,
}

/// One header of a request.
#[derive(Clone, Debug, PartialEq, Eq)]
pub struct Header {
    pub name: String,
    pub value: String,
}

/// A request to the device, ready to be sent.
#[derive(Clone, Debug, PartialEq, Eq)]
pub struct Request {
    pub method: Method,
    pub url: String,
    pub headers: Vec<Header>,
    pub body: Option<String>,
}

pub struct RequestView {
    pub method: Method,
    pub url: Seq<char>,
    pub headers: Seq<(Seq<char>, Seq<char>)>,
    pub body: Option<Seq<char>>,
}

/// The names and values of a list of headers, in order.
pub open spec fn header_views(headers: Seq<Header>) -> Seq<(Seq<char>, Seq<char>)> {
    headers.map_values(|h: Header| (h.name@, h.value@))
}

impl View for Request {
    type V = RequestView;

    open spec fn view(&self) -> RequestView {
        RequestView {
            method: self.method,
            url: self.url@,
            headers: header_views(self.headers@),
            body: match self.body {
                Some(body) => Some(body@),
                None => None,
            },
        }
    }
}

/// The address under which the device serves its interface.
pub open spec fn base_url() -> Seq<char> {
    "http://192.168.8.1"@
}

/// The headers that carry a session: the cookie, then the verification
/// token. Without a session there are none.
pub open spec fn session_headers(session: Option<SessionView>) -> Seq<(Seq<char>, Seq<char>)> {
    match session {
        Some(s) => seq![
            ("Cookie"@, s.session_cookie),
            ("__RequestVerificationToken"@, s.verification_token),
        ],
        None => Seq::empty(),
    }
}

/// The request for `path` on the device under a session, if there is one.
pub open spec fn request(
    method: Method,
    path: Seq<char>,
    session: Option<SessionView>,
    body: Option<Seq<char>>,
) -> RequestView {
    RequestView { method, url: base_url() + path, headers: session_headers(session), body }
}

/// A client of the device. It holds the session of the last successful
/// session call, if any.
#[derive(Clone, Debug, PartialEq, Eq)]
pub struct Modem {
    session: Option<Session>,
}

impl View for Modem {
    type V = Option<SessionView>;

    closed spec fn view(&self) -> Option<SessionView> {
        match self.session {
            Some(session) => Some(session@),
            None => None,
        }
    }
}

impl Modem {
    /// A client without a session.
    pub fn new() -> (r: Result<Modem, ScrapeError>)
        ensures
            r is Ok,
            r->Ok_0@ is None,
    {
        Ok(Modem { session: None })
    }

    /// The session that the client holds.
    pub fn session(&self) -> (r: Option<&Session>)
        ensures
            match r {
                Some(session) => self@ == Some(session@),
                None => self@ is None,
            },
    {
        self.session.as_ref()
    }

    /// Takes `session` as the one that later requests carry.
    pub fn open_session(&mut self, session: Session)
        ensures
            final(self)@ == Some(session@),
    {
        self.session = Some(session);
    }

    fn headers(&self) -> (r: Vec<Header>)
        ensures
            header_views(r@) == session_headers(self@),
    {
        let mut out: Vec<Header> = Vec::new();
        if let Some(session) = &self.session {
            out.push(
                Header { name: String::from_str("Cookie"), value: session.session_cookie.clone() },
            );
            out.push(
                Header {
                    name: String::from_str("__RequestVerificationToken"),
                    value: session.verification_token.clone(),
                },
            );
        }
        assert(header_views(out@) =~= session_headers(self@));
        out
    }

    /// The request that reads `path`: it carries the session's cookie and
    /// verification token if the client holds a session, and no header
    /// otherwise.
    pub fn get(&self, path: &str) -> (r: Request)
        ensures
            r@ == request(Method::Get, path@, self@, None),
    {
        Request {
            method: Method::Get,
            url: String::from_str("http://192.168.8.1").concat(path),
            headers: self.headers(),
            body: None,
        }
    }

    /// The request that posts `body` to `path`, with the same headers as a
    /// reading request. The body is the serialised form of what is sent,
    /// wrapped in its `request` element.
    pub fn post(&self, path: &str, body: String) -> (r: Request)
        ensures
            r@ == request(Method::Post, path@, self@, Some(body@)),
    {
        Request {
            method: Method::Post,
            url: String::from_str("http://192.168.8.1").concat(path),
            headers: self.headers(),
            body: Some(body),
        }
    }
}

} // verus!
