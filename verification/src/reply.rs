//! What the device's replies mean: the session document and the statistics
//! document inside its envelope.

use crate::decimal::{parse_i32, parse_u64, spec_parse_i32, spec_parse_u64};
use crate::document::{
    document, element_views, read_document, Document, DocumentView, Element, ElementView,
};
use crate::envelope::ModemResponse;
use crate::error::{ScrapeError, ScrapeErrorView};
use crate::metrics::TrafficStatistics;
use crate::modem::{Session, SessionView};
use crate::xml::{token_stream, tokenize};
use vstd::prelude::*;
use vstd::string::*;

verus! {

/// Whether `i` is the one place among `children` where an element is named
/// `name`.
pub open spec fn named_only_at(children: Seq<ElementView>, name: Seq<char>, i: int) -> bool {
    &&& 0 <= i < children.len()
    &&& forall|j: int| 0 <= j < children.len() ==> ((#[trigger] children[j]).name == name <==> j == i)
}

/// The text of the child named `name`. There is none where no child or more
/// than one has that name, or where the child holds an element.
pub open spec fn field(children: Seq<ElementView>, name: Seq<char>) -> Option<Seq<char>> {
    if exists|i: int| named_only_at(children, name, i) {
        children[choose|i: int| named_only_at(children, name, i)].text
    } else {
        None
    }
}

/// The counter in the child named `name`.
pub open spec fn counter(children: Seq<ElementView>, name: Seq<char>) -> Option<u64> {
    match field(children, name) {
        Some(text) => spec_parse_u64(text),
        None => None,
    }
}

/// The session that a document holds: the texts of `SesInfo` and `TokInfo`.
pub open spec fn session_of(found: DocumentView) -> Option<SessionView> {
    match (field(found.children, "SesInfo"@), field(found.children, "TokInfo"@)) {
        (Some(session_cookie), Some(verification_token)) => Some(
            SessionView { session_cookie, verification_token },
        ),
        _ => None,
    }
}

/// The counters that a list of elements holds, each under its own name.
pub open spec fn statistics_of(children: Seq<ElementView>) -> Option<TrafficStatistics> {
    match (
        counter(children, "CurrentUpload"@),
        counter(children, "CurrentDownload"@),
        counter(children, "CurrentConnectTime"@),
        counter(children, "TotalUpload"@),
        counter(children, "TotalDownload"@),
        counter(children, "TotalConnectTime"@),
    ) {
        (
            Some(current_upload),
            Some(current_download),
            Some(current_connect_time),
            Some(total_upload),
            Some(total_download),
            Some(total_connect_time),
        ) => Some(
            TrafficStatistics {
                current_upload,
                current_download,
                current_connect_time,
                total_upload,
                total_download,
                total_connect_time,
            },
        ),
        _ => None,
    }
}

pub enum Envelope {
    Response(TrafficStatistics),
    Error { code: i32, message: Seq<char> },
}

/// The view of a reply that wraps statistics.
pub open spec fn envelope_view(reply: ModemResponse<TrafficStatistics>) -> Envelope {
    match reply {
        ModemResponse::Response(stats) => Envelope::Response(stats),
        ModemResponse::Error { code, message } => Envelope::Error { code, message: message@ },
    }
}

/// The enveloped statistics that a document holds. A root named `response`
/// wraps the counters, a root named `error` the device's code and message.
pub open spec fn envelope_of(found: DocumentView) -> Option<Envelope> {
    if found.root == "response"@ {
        match statistics_of(found.children) {
            Some(stats) => Some(Envelope::Response(stats)),
            None => None,
        }
    } else if found.root == "error"@ {
        match (field(found.children, "code"@), field(found.children, "message"@)) {
            (Some(code), Some(message)) => match spec_parse_i32(code) {
                Some(code) => Some(Envelope::Error { code, message }),
                None => None,
            },
            _ => None,
        }
    } else {
        None
    }
}

/// The document that a body holds: the one that its tokens hold, as far as
/// they can be read. What follows the root is of no account.
pub open spec fn body_document(body: Seq<u8>) -> Option<DocumentView> {
    document(token_stream(body))
}

/// The session that a body holds.
pub open spec fn body_session(body: Seq<u8>) -> Option<SessionView> {
    match body_document(body) {
        Some(found) => session_of(found),
        None => None,
    }
}

/// The enveloped statistics that a body holds.
pub open spec fn body_envelope(body: Seq<u8>) -> Option<Envelope> {
    match body_document(body) {
        Some(found) => envelope_of(found),
        None => None,
    }
}

/// The text of the child named `name`, if exactly one child has that name
/// and it holds text only.
pub fn field_text(children: &Vec<Element>, name: &str) -> (r: Option<String>)
    ensures
        match r {
            Some(text) => field(element_views(children@), name@) == Some(text@),
            None => field(element_views(children@), name@) is None,
        },
{
    let wanted = String::from_str(name);
    let ghost views = element_views(children@);
    let mut found: Option<usize> = None;
    let mut i: usize = 0;
    while i < children.len()
        invariant
            i <= children.len(),
            wanted@ == name@,
            views == element_views(children@),
            match found {
                Some(at) => at < i && views[at as int].name == name@ && forall|j: int|
                    0 <= j < i && j != at ==> (#[trigger] views[j]).name != name@,
                None => forall|j: int| 0 <= j < i ==> (#[trigger] views[j]).name != name@,
            },
        decreases children.len() - i,
    {
        assert(views[i as int].name == children@[i as int].name@);
        if children[i].name == wanted {
            match found {
                Some(at) => {
                    assert forall|k: int| !named_only_at(views, name@, k) by {
                        if named_only_at(views, name@, k) {
                            assert(views[at as int].name == name@);
                            assert(views[i as int].name == name@);
                        }
                    }
                    return None;
                },
                None => {
                    found = Some(i);
                },
            }
        }
        i += 1;
    }
    match found {
        Some(at) => {
            proof {
                assert(named_only_at(views, name@, at as int));
                let chosen = choose|k: int| named_only_at(views, name@, k);
                assert(views[at as int].name == name@);
                assert(chosen == at);
                assert(views[at as int].text == children@[at as int]@.text);
            }
            match &children[at].text {
                Some(text) => Some(text.clone()),
                None => None,
            }
        },
        None => {
            assert forall|k: int| !named_only_at(views, name@, k) by {
                if named_only_at(views, name@, k) {
                    assert(views[k].name == name@);
                }
            }
            None
        },
    }
}

fn counter_of(children: &Vec<Element>, name: &str) -> (r: Option<u64>)
    ensures
        r == counter(element_views(children@), name@),
{
    match field_text(children, name) {
        Some(text) => parse_u64(text.as_str()),
        None => None,
    }
}

/// The session that a document holds.
pub fn session_from(found: &Document) -> (r: Option<Session>)
    ensures
        match r {
            Some(session) => session_of(found@) == Some(session@),
            None => session_of(found@) is None,
        },
{
    let session_cookie = match field_text(&found.children, "SesInfo") {
        Some(text) => text,
        None => {
            return None;
        },
    };
    let verification_token = match field_text(&found.children, "TokInfo") {
        Some(text) => text,
        None => {
            return None;
        },
    };
    Some(Session { session_cookie, verification_token })
}

fn statistics_from(children: &Vec<Element>) -> (r: Option<TrafficStatistics>)
    ensures
        r == statistics_of(element_views(children@)),
{
    let current_upload = match counter_of(children, "CurrentUpload") {
        Some(n) => n,
        None => {
            return None;
        },
    };
    let current_download = match counter_of(children, "CurrentDownload") {
        Some(n) => n,
        None => {
            return None;
        },
    };
    let current_connect_time = match counter_of(children, "CurrentConnectTime") {
        Some(n) => n,
        None => {
            return None;
        },
    };
    let total_upload = match counter_of(children, "TotalUpload") {
        Some(n) => n,
        None => {
            return None;
        },
    };
    let total_download = match counter_of(children, "TotalDownload") {
        Some(n) => n,
        None => {
            return None;
        },
    };
    let total_connect_time = match counter_of(children, "TotalConnectTime") {
        Some(n) => n,
        None => {
            return None;
        },
    };
    Some(
        TrafficStatistics {
            current_upload,
            current_download,
            current_connect_time,
            total_upload,
            total_download,
            total_connect_time,
        },
    )
}

/// The enveloped statistics that a document holds.
pub fn envelope_from(found: &Document) -> (r: Option<ModemResponse<TrafficStatistics>>)
    ensures
        match r {
            Some(reply) => envelope_of(found@) == Some(envelope_view(reply)),
            None => envelope_of(found@) is None,
        },
{
    if found.root == String::from_str("response") {
        match statistics_from(&found.children) {
            Some(stats) => Some(ModemResponse::Response(stats)),
            None => None,
        }
    } else if found.root == String::from_str("error") {
        let code = match field_text(&found.children, "code") {
            Some(text) => text,
            None => {
                return None;
            },
        };
        let message = match field_text(&found.children, "message") {
            Some(text) => text,
            None => {
                return None;
            },
        };
        match parse_i32(code.as_str()) {
            Some(code) => Some(ModemResponse::Error { code, message }),
            None => None,
        }
    } else {
        None
    }
}

fn read_body(body: &[u8]) -> (r: Option<Document>)
    ensures
        match r {
            Some(found) => body_document(body@) == Some(found@),
            None => body_document(body@) is None,
        },
{
    let tokens = tokenize(body);
    read_document(&tokens)
}

/// Reads the session from the body of the session call's reply. A body that
/// holds none is a parse failure.
pub fn decode_session(body: &[u8]) -> (r: Result<Session, ScrapeError>)
    ensures
        match r {
            Ok(session) => body_session(body@) == Some(session@),
            Err(e) => body_session(body@) is None && e@ == ScrapeErrorView::Parse,
        },
{
    match read_body(body) {
        Some(found) => match session_from(&found) {
            Some(session) => Ok(session),
            None => Err(ScrapeError::Parse),
        },
        None => Err(ScrapeError::Parse),
    }
}

/// Reads the enveloped statistics from the body of the statistics call's
/// reply. A body that holds none is a parse failure.
pub fn decode_statistics(body: &[u8]) -> (r: Result<ModemResponse<TrafficStatistics>, ScrapeError>)
    ensures
        match r {
            Ok(reply) => body_envelope(body@) == Some(envelope_view(reply)),
            Err(e) => body_envelope(body@) is None && e@ == ScrapeErrorView::Parse,
        },
{
    match read_body(body) {
        Some(found) => match envelope_from(&found) {
            Some(reply) => Ok(reply),
            None => Err(ScrapeError::Parse),
        },
        None => Err(ScrapeError::Parse),
    }
}

} // verus!
