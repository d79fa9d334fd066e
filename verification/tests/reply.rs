use modem_exporter::document::{Document, Element};
use modem_exporter::envelope::ModemResponse;
use modem_exporter::error::ScrapeError;
use modem_exporter::metrics::TrafficStatistics;
use modem_exporter::modem::Session;
use modem_exporter::reply::{
    decode_session, decode_statistics, envelope_from, field_text, session_from,
};

const STATISTICS: &str = "<?xml version=\"1.0\" encoding=\"UTF-8\"?>\r\n<response>\r\n\
<CurrentConnectTime>10</CurrentConnectTime>\r\n\
<CurrentUpload>100</CurrentUpload>\r\n\
<CurrentDownload>200</CurrentDownload>\r\n\
<CurrentDownloadRate>7</CurrentDownloadRate>\r\n\
<CurrentUploadRate>8</CurrentUploadRate>\r\n\
<TotalUpload>500000</TotalUpload>\r\n\
<TotalDownload>900000</TotalDownload>\r\n\
<TotalConnectTime>3600</TotalConnectTime>\r\n\
<showtraffic>1</showtraffic>\r\n\
</response>\r\n";

fn element(name: &str, content: Option<&str>) -> Element {
    Element { name: name.to_string(), text: content.map(|t| t.to_string()) }
}

fn session(cookie: &str, token: &str) -> Session {
    Session { session_cookie: cookie.to_string(), verification_token: token.to_string() }
}

fn sample_statistics() -> TrafficStatistics {
    TrafficStatistics {
        current_upload: 100,
        current_download: 200,
        current_connect_time: 10,
        total_upload: 500000,
        total_download: 900000,
        total_connect_time: 3600,
    }
}

#[test]
fn field_text_finds_the_only_child_of_a_name() {
    let children = vec![element("a", Some("1")), element("b", Some("2")), element("c", None)];
    assert_eq!(field_text(&children, "a"), Some("1".to_string()));
    assert_eq!(field_text(&children, "b"), Some("2".to_string()));
    assert_eq!(field_text(&children, "c"), None);
    assert_eq!(field_text(&children, "d"), None);
    assert_eq!(field_text(&vec![], "a"), None);
}

#[test]
fn field_text_refuses_a_name_that_occurs_twice() {
    let children = vec![element("a", Some("1")), element("b", Some("2")), element("a", Some("1"))];
    assert_eq!(field_text(&children, "a"), None);
    assert_eq!(field_text(&children, "b"), Some("2".to_string()));
}

#[test]
fn field_text_tells_upper_from_lower_case() {
    let children = vec![element("SesInfo", Some("x"))];
    assert_eq!(field_text(&children, "sesinfo"), None);
    assert_eq!(field_text(&children, "SesInfo"), Some("x".to_string()));
}

#[test]
fn decode_session_reads_cookie_and_token() {
    let body = "<?xml version=\"1.0\" encoding=\"UTF-8\"?>\n<response>\n<SesInfo>SessionID=abc+/==</SesInfo>\n<TokInfo>t0k3n</TokInfo>\n</response>\n";
    assert_eq!(decode_session(body.as_bytes()), Ok(session("SessionID=abc+/==", "t0k3n")));
}

#[test]
fn decode_session_takes_any_order_and_any_root() {
    let body = "<reply><TokInfo>t</TokInfo><other>1</other><SesInfo>s</SesInfo></reply>";
    assert_eq!(decode_session(body.as_bytes()), Ok(session("s", "t")));
}

#[test]
fn decode_session_replaces_escapes() {
    let body = "<response><SesInfo>a&amp;b</SesInfo><TokInfo>&lt;t&gt;</TokInfo></response>";
    assert_eq!(decode_session(body.as_bytes()), Ok(session("a&b", "<t>")));
}

#[test]
fn decode_session_takes_empty_values() {
    let body = "<response><SesInfo/><TokInfo></TokInfo></response>";
    assert_eq!(decode_session(body.as_bytes()), Ok(session("", "")));
}

#[test]
fn decode_session_refuses_a_malformed_body() {
    for body in [
        "",
        "not a document",
        "<response>",
        "<response><SesInfo>s</SesInfo></response>",
        "<response><TokInfo>t</TokInfo></response>",
        "<response><SesInfo>s</SesInfo><TokInfo>t</TokInfo><SesInfo>s</SesInfo></response>",
        "<response><SesInfo><x/></SesInfo><TokInfo>t</TokInfo></response>",
        "<response><SesInfo>s</SesInfo><TokInfo>t</SesInfo></response>",
        "<response><SesInfo>s</SesInfo><TokInfo>t</TokInfo>",
        "<response><SesInfo>&bogus;</SesInfo><TokInfo>t</TokInfo></response>",
        "<error><code>100002</code><message></message></error>",
        "{\"SesInfo\":\"s\",\"TokInfo\":\"t\"}",
    ] {
        assert_eq!(decode_session(body.as_bytes()), Err(ScrapeError::Parse), "{}", body);
    }
    assert_eq!(decode_session(b"<response><SesInfo>\xff</SesInfo><TokInfo>t</TokInfo></response>"), Err(ScrapeError::Parse));
}

#[test]
fn session_from_reads_a_document_built_by_hand() {
    let found = Document {
        root: "response".to_string(),
        children: vec![element("SesInfo", Some("s")), element("TokInfo", Some("t"))],
    };
    assert_eq!(session_from(&found), Some(session("s", "t")));
    let lacking = Document { root: "response".to_string(), children: vec![element("SesInfo", Some("s"))] };
    assert_eq!(session_from(&lacking), None);
}

#[test]
fn decode_statistics_reads_the_six_counters() {
    assert_eq!(
        decode_statistics(STATISTICS.as_bytes()),
        Ok(ModemResponse::Response(sample_statistics()))
    );
}

#[test]
fn decode_statistics_reads_counters_with_white_space_around_them() {
    let spaced = STATISTICS.replace(">100<", "> 100 <").replace(">3600<", ">\n\t3600\r\n<");
    assert_eq!(
        decode_statistics(spaced.as_bytes()),
        Ok(ModemResponse::Response(sample_statistics()))
    );
    let failure = "<error> <code> 125 </code> <message> no rights </message> </error>";
    assert_eq!(
        decode_statistics(failure.as_bytes()),
        Ok(ModemResponse::Error { code: 125, message: "no rights".to_string() })
    );
}

#[test]
fn decode_does_not_look_past_the_root() {
    let mut body = STATISTICS.as_bytes().to_vec();
    body.extend_from_slice(b"<!-- never closed \xff");
    assert_eq!(decode_statistics(&body), Ok(ModemResponse::Response(sample_statistics())));
    let session_body = b"<response><SesInfo>s</SesInfo><TokInfo>t</TokInfo></response>&bogus;<x";
    assert_eq!(decode_session(session_body), Ok(session("s", "t")));
}

#[test]
fn decode_statistics_reads_the_largest_counter() {
    let body = "<response><CurrentUpload>18446744073709551615</CurrentUpload><CurrentDownload>0</CurrentDownload><CurrentConnectTime>0</CurrentConnectTime><TotalUpload>0</TotalUpload><TotalDownload>0</TotalDownload><TotalConnectTime>0</TotalConnectTime></response>";
    let expected = TrafficStatistics {
        current_upload: u64::MAX,
        current_download: 0,
        current_connect_time: 0,
        total_upload: 0,
        total_download: 0,
        total_connect_time: 0,
    };
    assert_eq!(decode_statistics(body.as_bytes()), Ok(ModemResponse::Response(expected)));
}

#[test]
fn decode_statistics_reads_the_failure_of_the_device() {
    let body = "<?xml version=\"1.0\" encoding=\"UTF-8\"?>\r\n<error>\r\n<code>125</code>\r\n<message>no rights</message>\r\n</error>\r\n";
    assert_eq!(
        decode_statistics(body.as_bytes()),
        Ok(ModemResponse::Error { code: 125, message: "no rights".to_string() })
    );
    let empty = "<error><code>-7</code><message></message></error>";
    assert_eq!(
        decode_statistics(empty.as_bytes()),
        Ok(ModemResponse::Error { code: -7, message: String::new() })
    );
}

#[test]
fn decode_statistics_refuses_a_malformed_body() {
    let lacking = STATISTICS.replace("<TotalUpload>500000</TotalUpload>", "");
    let twice = STATISTICS.replace("<showtraffic>1</showtraffic>", "<TotalUpload>1</TotalUpload>");
    let negative = STATISTICS.replace(">100<", ">-100<");
    let too_large = STATISTICS.replace(">100<", ">18446744073709551616<");
    let inner_space = STATISTICS.replace(">100<", ">1 00<");
    let other_root = STATISTICS.replace("response>", "reply>");
    for body in [
        lacking.as_str(),
        twice.as_str(),
        negative.as_str(),
        too_large.as_str(),
        inner_space.as_str(),
        other_root.as_str(),
        "",
        "<response/>",
        "<error><code>125</code></error>",
        "<error><message>no rights</message></error>",
        "<error><code>many</code><message>no rights</message></error>",
        "<error><code>2147483648</code><message>no rights</message></error>",
    ] {
        assert_eq!(decode_statistics(body.as_bytes()), Err(ScrapeError::Parse), "{}", body);
    }
}

#[test]
fn envelope_from_tells_the_two_roots_apart() {
    let failure = Document {
        root: "error".to_string(),
        children: vec![element("code", Some("125")), element("message", Some("no rights"))],
    };
    assert_eq!(
        envelope_from(&failure),
        Some(ModemResponse::Error { code: 125, message: "no rights".to_string() })
    );
    let other = Document { root: "Error".to_string(), children: failure.children.clone() };
    assert_eq!(envelope_from(&other), None);
}

#[test]
fn ok_hands_out_the_value_of_a_response() {
    assert_eq!(ModemResponse::Response(sample_statistics()).ok(), Ok(sample_statistics()));
    assert_eq!(ModemResponse::Response(()).ok(), Ok(()));
}

#[test]
fn ok_turns_the_failure_of_the_device_into_an_error() {
    let reply: ModemResponse<TrafficStatistics> =
        ModemResponse::Error { code: 125, message: "no rights".to_string() };
    assert_eq!(
        reply.ok(),
        Err(ScrapeError::Api { code: 125, message: "no rights".to_string() })
    );
}
