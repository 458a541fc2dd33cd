use raven::charset::Charset;
use raven::fetch::{fetch_with_events, fetch_transition, FetchEvent, FetchOutcome};
use raven::mime::{Mime, TextMime};
use raven::request::{CrawlerRequest, Encoding, Method};
use raven::result::CrawlerError;
use raven::timefmt::Timestamp;

fn request(max_retry: u8, encoding: Option<Encoding>) -> CrawlerRequest {
    CrawlerRequest {
        url: "http://localhost/".to_owned(),
        method: Method::Get,
        header: Vec::new(),
        encoding_setting: encoding,
        timeout: 1,
        max_retry,
        query_params: Vec::new(),
        body_params: Vec::new(),
        sleep: None,
    }
}

fn response(status: u16, body: &[u8], content_type: Option<&str>) -> FetchEvent {
    FetchEvent::Response {
        status,
        headers: Vec::new(),
        body: body.to_vec(),
        content_type: content_type.map(|s| s.to_owned()),
    }
}

fn at() -> Timestamp {
    Timestamp { millis: 1_700_000_000_000, offset_seconds: 0 }
}

#[test]
fn retry_two_server_errors_then_success() {
    // 503, 503, 200 with max_retry = 2: success with retry_count = 2
    let req = request(2, None);
    let events = vec![
        response(503, b"", None),
        response(503, b"", None),
        response(200, b"done", None),
    ];
    let outcome = fetch_with_events(&req, events, 12, at()).unwrap();
    let result = outcome.unwrap();
    assert_eq!(result.response_status, 200);
    assert_eq!(result.retry_count, 2);
    assert_eq!(result.response_body, b"done".to_vec());
}

#[test]
fn retry_budget_exhausted_is_server_error() {
    // the same responses with max_retry = 1: a server error, retry_count = 1
    let req = request(1, None);
    let events = vec![
        response(503, b"", None),
        response(503, b"", None),
        response(200, b"done", None),
    ];
    let outcome = fetch_with_events(&req, events, 12, at()).unwrap();
    match outcome {
        Err(CrawlerError::ServerError(result)) => {
            assert_eq!(result.response_status, 503);
            assert_eq!(result.retry_count, 1);
        }
        other => panic!("expected a server error, got {:?}", other),
    }
}

#[test]
fn timeouts_exhaust_the_retry_budget() {
    let req = request(1, None);
    let events = vec![FetchEvent::TimedOut, FetchEvent::TimedOut];
    let outcome = fetch_with_events(&req, events, 12, at()).unwrap();
    assert_eq!(
        outcome,
        Err(CrawlerError::TimeoutError { timeout_second: 1, retry_count: 1 })
    );
}

#[test]
fn client_error_is_never_retried() {
    let req = request(5, None);
    let events = vec![response(404, b"missing", None)];
    let outcome = fetch_with_events(&req, events, 12, at()).unwrap();
    match outcome {
        Err(CrawlerError::ClientError(result)) => {
            assert_eq!(result.response_status, 404);
            assert_eq!(result.retry_count, 0);
        }
        other => panic!("expected a client error, got {:?}", other),
    }
}

#[test]
fn transport_error_fails_at_once() {
    let req = request(5, None);
    let events = vec![FetchEvent::TransportError { detail: "refused".to_owned() }];
    let outcome = fetch_with_events(&req, events, 12, at()).unwrap();
    assert_eq!(
        outcome,
        Err(CrawlerError::OtherError { error_detail: "request error: refused".to_owned() })
    );
}

#[test]
fn charset_is_converted_to_the_configured_output() {
    // Content-Type: text/html; charset=shift_jis, body in Shift_JIS,
    // encoding {input: shift_jis, output: utf-8}
    let text = "日本語のテスト";
    let (sjis_bytes, _, _) = encoding_rs::SHIFT_JIS.encode(text);
    let req = request(
        0,
        Some(Encoding { input: Some(Charset::ShiftJis), output: Charset::Utf8 }),
    );
    let events = vec![response(
        200,
        sjis_bytes.as_ref(),
        Some("text/html; charset=shift_jis"),
    )];
    let outcome = fetch_with_events(&req, events, 12, at()).unwrap();
    let result = outcome.unwrap();
    assert_eq!(result.response_body, text.as_bytes().to_vec());
    match &result.response_content_type {
        Mime::Text { charset, .. } => assert_eq!(charset, &Some(Charset::Utf8)),
        other => panic!("expected a text type, got {:?}", other),
    }
}

#[test]
fn missing_header_with_input_charset_synthesizes_text_plain() {
    let req = request(
        0,
        Some(Encoding { input: Some(Charset::Utf8), output: Charset::Utf8 }),
    );
    let step = fetch_transition(&req, 0, response(200, "plain".as_bytes(), None), 7, at());
    match step {
        FetchOutcome::Finished(Ok(result)) => {
            assert_eq!(
                result.response_content_type,
                Mime::Text { text_type: TextMime::TextPlain, charset: Some(Charset::Utf8) }
            );
        }
        other => panic!("expected success, got {:?}", other),
    }
}

#[test]
fn missing_header_without_encoding_is_octet_stream() {
    let req = request(0, None);
    let step = fetch_transition(&req, 0, response(200, b"\x00\x01", None), 7, at());
    match step {
        FetchOutcome::Finished(Ok(result)) => {
            assert_eq!(result.response_content_type, Mime::ApplicationOctetStream);
        }
        other => panic!("expected success, got {:?}", other),
    }
}

#[test]
fn mime_from_str_reads_type_and_charset() {
    assert_eq!(
        Mime::from_str("text/html; charset=shift_jis"),
        Ok(Mime::Text {
            text_type: TextMime::TextOther { text_mime_type_string: "text/html".to_owned() },
            charset: Some(Charset::ShiftJis),
        })
    );
    assert_eq!(
        Mime::from_str("Application/JSON; charset=UTF-8"),
        Ok(Mime::Text { text_type: TextMime::ApplicationJson, charset: Some(Charset::Utf8) })
    );
    assert_eq!(Mime::from_str("application/pdf"), Ok(Mime::ApplicationPdf));
    assert_eq!(
        Mime::from_str("video/mp4"),
        Ok(Mime::Other { mime_type_string: "video/mp4".to_owned() })
    );
}

#[test]
fn mime_to_string_prints_charset_parameter() {
    let m = Mime::Text { text_type: TextMime::TextPlain, charset: Some(Charset::Utf8) };
    assert_eq!(m.to_string(), "text/plain; charset=utf-8".to_owned());
    let bare = Mime::Text { text_type: TextMime::TextXml, charset: None };
    assert_eq!(bare.to_string(), "text/xml".to_owned());
}

#[test]
fn charset_labels_round_trip() {
    for (cs, label) in [
        (Charset::ShiftJis, "shift_jis"),
        (Charset::Utf8, "utf-8"),
        (Charset::EucJp, "euc-jp"),
        (Charset::Windows1252, "windows-1252"),
    ] {
        assert_eq!(cs.to_string(), label.to_owned());
        assert_eq!(Charset::from_str(label), Ok(cs));
        assert_eq!(Charset::from_str(&label.to_uppercase()), Ok(cs));
    }
    assert_eq!(
        Charset::from_str("klingon"),
        Err("klingon is not supported!".to_owned())
    );
}

#[test]
fn convert_to_reencodes_bytes() {
    let text = "ようこそ";
    let (sjis, _, _) = encoding_rs::SHIFT_JIS.encode(text);
    let converted = Charset::ShiftJis.convert_to(&Charset::Utf8, &sjis.to_vec()).unwrap();
    assert_eq!(converted, text.as_bytes().to_vec());
}
