use vstd::prelude::*;
use vstd::string::*;

use crate::charset::Charset;
use crate::mime::{parse_mime_lowered, spec_mime_charset, spec_parse_mime, Mime, SpecMime, TextMime, SpecTextMime};
use crate::request::{CrawlerRequest, Encoding, SpecCrawlerRequest};
use crate::result::{
    spec_converted_result, CrawlerError, CrawlerResult, SpecCrawlerError, SpecCrawlerResult,
};
use crate::strutil::{clone_bytes, clone_pairs, lower_of, spec_dec_string, to_lowercase_string, u32_to_string};
use crate::timefmt::Timestamp;

verus! {

/// What one fetch attempt observed: a response, a timeout, or a
/// transport failure.
#[derive(Debug, PartialEq, Clone)]
pub enum FetchEvent {
    Response {
        status: u16,
        headers: Vec<(String, String)>,
        body: Vec<u8>,
        content_type: Option<String>,
    },
    TimedOut,
    TransportError { detail: String },
}

/// The mathematical form of a fetch attempt's observation.
pub enum SpecFetchEvent {
    Response {
        status: u16,
        headers: Seq<(Seq<char>, Seq<char>)>,
        body: Seq<u8>,
        content_type: Option<Seq<char>>,
    },
    TimedOut,
    TransportError(Seq<char>),
}

impl View for FetchEvent {
    type V = SpecFetchEvent;

    open spec fn view(&self) -> SpecFetchEvent {
        match self {
            FetchEvent::Response { status, headers, body, content_type } => {
                SpecFetchEvent::Response {
                    status: *status,
                    headers: headers.deep_view(),
                    body: body@,
                    content_type: match content_type {
                        Some(s) => Some(s@),
                        None => None,
                    },
                }
            },
            FetchEvent::TimedOut => SpecFetchEvent::TimedOut,
            FetchEvent::TransportError { detail } => SpecFetchEvent::TransportError(detail@),
        }
    }
}

impl DeepView for FetchEvent {
    type V = SpecFetchEvent;

    open spec fn deep_view(&self) -> SpecFetchEvent {
        self.view()
    }
}

/// What the retry machine says to do after an attempt: try again with a
/// new retry count, or finish with a classified outcome.
#[derive(Debug, PartialEq)]
pub enum FetchOutcome {
    RetryAgain { retry_count: u8 },
    Finished(Result<CrawlerResult, CrawlerError>),
}

/// The mathematical form of the machine's decision.
pub enum SpecFetchOutcome {
    RetryAgain(u8),
    Finished(Result<SpecCrawlerResult, SpecCrawlerError>),
}

impl View for FetchOutcome {
    type V = SpecFetchOutcome;

    open spec fn view(&self) -> SpecFetchOutcome {
        match self {
            FetchOutcome::RetryAgain { retry_count } => SpecFetchOutcome::RetryAgain(*retry_count),
            FetchOutcome::Finished(r) => SpecFetchOutcome::Finished(
                match r {
                    Ok(res) => Ok(res@),
                    Err(e) => Err(e@),
                },
            ),
        }
    }
}

/// A text content type gets its charset overwritten; anything else is
/// left alone.
pub open spec fn spec_overwrite_input(m: SpecMime, input: Charset) -> SpecMime {
    match m {
        SpecMime::Text { text_type, charset: _ } => SpecMime::Text {
            text_type,
            charset: Some(input),
        },
        other => other,
    }
}

/// The content type of a response: the parsed `Content-Type` header with
/// the configured input charset overriding a text type's parameter; with
/// no header, `text/plain` in the configured input charset when one is
/// set, else `application/octet-stream`.
pub open spec fn spec_determine_mime(ct: Option<Seq<char>>, enc: Option<Encoding>) -> SpecMime {
    match ct {
        Some(s) => {
            let m = spec_parse_mime(lower_of(s));
            match enc {
                Some(e) => match e.input {
                    Some(input) => spec_overwrite_input(m, input),
                    None => m,
                },
                None => m,
            }
        },
        None => match enc {
            Some(e) => match e.input {
                Some(input) => SpecMime::Text {
                    text_type: SpecTextMime::TextPlain,
                    charset: Some(input),
                },
                None => SpecMime::ApplicationOctetStream,
            },
            None => SpecMime::ApplicationOctetStream,
        },
    }
}

/// Reads the content type of a response.
pub fn determine_mime(ct: &Option<String>, enc: &Option<Encoding>) -> (r: Mime)
    ensures
        r@ == spec_determine_mime(
            match ct {
                Some(s) => Some(s@),
                None => None,
            },
            *enc,
        ),
{
    match ct {
        Some(s) => {
            let low = to_lowercase_string(s.as_str());
            let mut m = parse_mime_lowered(low.as_str());
            match enc {
                Some(e) => match e.input {
                    Some(input) => {
                        m.set_charset_when_text_mime(input);
                        m
                    },
                    None => m,
                },
                None => m,
            }
        },
        None => match enc {
            Some(e) => match e.input {
                Some(input) => Mime::Text {
                    text_type: TextMime::TextPlain,
                    charset: Some(input),
                },
                None => Mime::ApplicationOctetStream,
            },
            None => Mime::ApplicationOctetStream,
        },
    }
}

/// The result a successful body read stands for, before status
/// classification.
pub open spec fn spec_base_result(
    req: SpecCrawlerRequest,
    retry_count: u8,
    status: u16,
    headers: Seq<(Seq<char>, Seq<char>)>,
    body: Seq<u8>,
    ct: Option<Seq<char>>,
    elapsed: u64,
    at: Timestamp,
) -> SpecCrawlerResult {
    SpecCrawlerResult {
        response_status: status,
        response_header: headers,
        response_body: body,
        mills_takes_to_complete_to_request: elapsed,
        retry_count: retry_count,
        response_content_type: spec_determine_mime(ct, req.encoding_setting),
        crawl_date: at,
    }
}

/// One step of the retry machine: how an attempt's observation is
/// classified given the request and the retry count so far. A `2xx`
/// response succeeds, converting a text body to the configured output
/// charset and failing when the conversion cannot reach it; a `4xx`
/// fails at once; a `5xx` or a timeout retries while attempts remain and
/// then fails; any other status or transport failure fails at once.
pub open spec fn spec_transition(
    req: SpecCrawlerRequest,
    retry_count: u8,
    ev: SpecFetchEvent,
    elapsed: u64,
    at: Timestamp,
) -> SpecFetchOutcome {
    match ev {
        SpecFetchEvent::TimedOut => {
            if retry_count >= req.max_retry {
                SpecFetchOutcome::Finished(
                    Err(
                        SpecCrawlerError::TimeoutError {
                            timeout_second: req.timeout,
                            retry_count: retry_count,
                        },
                    ),
                )
            } else {
                SpecFetchOutcome::RetryAgain((retry_count + 1) as u8)
            }
        },
        SpecFetchEvent::TransportError(detail) => {
            SpecFetchOutcome::Finished(
                Err(SpecCrawlerError::OtherError { error_detail: "request error: "@ + detail }),
            )
        },
        SpecFetchEvent::Response { status, headers, body, content_type } => {
            let base = spec_base_result(req, retry_count, status, headers, body, content_type, elapsed, at);
            if 200 <= status < 300 {
                match req.encoding_setting {
                    Some(e) => {
                        if base.response_content_type matches SpecMime::Text { charset: Some(_), .. } {
                            let conv = spec_converted_result(base, e.output);
                            if spec_mime_charset(conv.response_content_type) == Some(e.output) {
                                SpecFetchOutcome::Finished(Ok(conv))
                            } else {
                                SpecFetchOutcome::Finished(
                                    Err(
                                        SpecCrawlerError::CharsetConversionError {
                                            error_detail:
                                                "conflict configured output charset and actually converted"@,
                                            crawler_result: conv,
                                        },
                                    ),
                                )
                            }
                        } else {
                            SpecFetchOutcome::Finished(Ok(base))
                        }
                    },
                    None => SpecFetchOutcome::Finished(Ok(base)),
                }
            } else if 400 <= status < 500 {
                SpecFetchOutcome::Finished(
                    Err(SpecCrawlerError::ClientError(spec_converted_result(base, Charset::Utf8))),
                )
            } else if 500 <= status < 600 {
                if retry_count >= req.max_retry {
                    SpecFetchOutcome::Finished(
                        Err(
                            SpecCrawlerError::ServerError(
                                spec_converted_result(base, Charset::Utf8),
                            ),
                        ),
                    )
                } else {
                    SpecFetchOutcome::RetryAgain((retry_count + 1) as u8)
                }
            } else {
                SpecFetchOutcome::Finished(
                    Err(
                        SpecCrawlerError::OtherError {
                            error_detail: "unexpected response status: "@ + spec_dec_string(
                                status as nat,
                            ),
                        },
                    ),
                )
            }
        },
    }
}

/// Classifies one attempt's observation.
pub fn fetch_transition(
    req: &CrawlerRequest,
    retry_count: u8,
    ev: FetchEvent,
    elapsed_millis: u64,
    at: Timestamp,
) -> (r: FetchOutcome)
    ensures
        r@ == spec_transition(req@, retry_count, ev@, elapsed_millis, at),
{
    match ev {
        FetchEvent::TimedOut => {
            if retry_count >= req.max_retry {
                FetchOutcome::Finished(
                    Err(
                        CrawlerError::TimeoutError {
                            timeout_second: req.timeout,
                            retry_count: retry_count,
                        },
                    ),
                )
            } else {
                FetchOutcome::RetryAgain { retry_count: retry_count + 1 }
            }
        },
        FetchEvent::TransportError { detail } => {
            let mut msg = String::new();
            msg.append("request error: ");
            msg.append(detail.as_str());
            proof {
                assert(msg@ =~= "request error: "@ + detail@);
            }
            FetchOutcome::Finished(Err(CrawlerError::OtherError { error_detail: msg }))
        },
        FetchEvent::Response { status, headers, body, content_type } => {
            let mime = determine_mime(&content_type, &req.encoding_setting);
            let mut base = CrawlerResult {
                response_status: status,
                response_header: headers,
                response_body: body,
                mills_takes_to_complete_to_request: elapsed_millis,
                retry_count: retry_count,
                response_content_type: mime,
                crawl_date: at,
            };
            if 200 <= status && status < 300 {
                match &req.encoding_setting {
                    Some(e) => {
                        let is_known_text = match &base.response_content_type {
                            Mime::Text { charset: Some(_), .. } => true,
                            _ => false,
                        };
                        if is_known_text {
                            let output = e.output;
                            base.convert_response_encoding_if_has_text_mime_type(output);
                            if base.has_same_charset(&output) {
                                FetchOutcome::Finished(Ok(base))
                            } else {
                                FetchOutcome::Finished(
                                    Err(
                                        CrawlerError::CharsetConversionError {
                                            error_detail: String::from_str(
                                                "conflict configured output charset and actually converted",
                                            ),
                                            crawler_result: base,
                                        },
                                    ),
                                )
                            }
                        } else {
                            FetchOutcome::Finished(Ok(base))
                        }
                    },
                    None => FetchOutcome::Finished(Ok(base)),
                }
            } else if 400 <= status && status < 500 {
                base.convert_response_encoding_if_has_text_mime_type(Charset::Utf8);
                FetchOutcome::Finished(Err(CrawlerError::ClientError(base)))
            } else if 500 <= status && status < 600 {
                if retry_count >= req.max_retry {
                    base.convert_response_encoding_if_has_text_mime_type(Charset::Utf8);
                    FetchOutcome::Finished(Err(CrawlerError::ServerError(base)))
                } else {
                    FetchOutcome::RetryAgain { retry_count: retry_count + 1 }
                }
            } else {
                let mut msg = String::new();
                msg.append("unexpected response status: ");
                let st = u32_to_string(status as u32);
                msg.append(st.as_str());
                proof {
                    assert(msg@ =~= "unexpected response status: "@ + spec_dec_string(
                        status as nat,
                    ));
                }
                FetchOutcome::Finished(Err(CrawlerError::OtherError { error_detail: msg }))
            }
        },
    }
}

/// Runs the machine over a recorded sequence of attempt observations,
/// starting at position `i` with the given retry count: the position
/// after the last attempt consumed, and the outcome; `None` when the
/// recording ran out before the machine finished.
pub open spec fn spec_run_fetch(
    req: SpecCrawlerRequest,
    events: Seq<SpecFetchEvent>,
    elapsed: u64,
    at: Timestamp,
    i: int,
    retry: u8,
) -> Option<(int, Result<SpecCrawlerResult, SpecCrawlerError>)>
    decreases events.len() - i,
{
    if i < 0 || i >= events.len() {
        None
    } else {
        match spec_transition(req, retry, events[i], elapsed, at) {
            SpecFetchOutcome::RetryAgain(rc) => spec_run_fetch(req, events, elapsed, at, i + 1, rc),
            SpecFetchOutcome::Finished(res) => Some((i + 1, res)),
        }
    }
}

/// The retry count carried by a finished outcome, where it carries one.
pub open spec fn spec_result_retry(res: Result<SpecCrawlerResult, SpecCrawlerError>) -> Option<
    u8,
> {
    match res {
        Ok(r) => Some(r.retry_count),
        Err(SpecCrawlerError::ClientError(r)) => Some(r.retry_count),
        Err(SpecCrawlerError::ServerError(r)) => Some(r.retry_count),
        Err(SpecCrawlerError::CharsetConversionError { crawler_result, .. }) => Some(
            crawler_result.retry_count,
        ),
        Err(SpecCrawlerError::TimeoutError { retry_count, .. }) => Some(retry_count),
        Err(SpecCrawlerError::OtherError { .. }) => None,
    }
}

/// One transition either finishes carrying the current retry count, or
/// asks for another attempt with the count raised by one, and only while
/// the count is below the retry budget.
proof fn lemma_transition_retry(
    req: SpecCrawlerRequest,
    retry: u8,
    ev: SpecFetchEvent,
    elapsed: u64,
    at: Timestamp,
)
    ensures
        match spec_transition(req, retry, ev, elapsed, at) {
            SpecFetchOutcome::RetryAgain(rc) => rc == retry + 1 && retry < req.max_retry,
            SpecFetchOutcome::Finished(res) => match spec_result_retry(res) {
                Some(rc) => rc == retry,
                None => true,
            },
        },
{
}

/// Retry bound: however the attempts turn out, the machine consumes at
/// most `max_retry + 1` attempts beyond its starting budget, and a
/// finished outcome's retry count equals the attempts taken minus one.
pub proof fn theorem_retry_bound(
    req: SpecCrawlerRequest,
    events: Seq<SpecFetchEvent>,
    elapsed: u64,
    at: Timestamp,
    i: int,
    retry: u8,
)
    requires
        0 <= i <= events.len(),
        retry <= req.max_retry,
    ensures
        match spec_run_fetch(req, events, elapsed, at, i, retry) {
            Some((j, res)) => i < j <= events.len() && j - i <= req.max_retry - retry + 1 && (
            match spec_result_retry(res) {
                Some(rc) => rc == retry + (j - i) - 1 && rc <= req.max_retry,
                None => true,
            }),
            None => true,
        },
    decreases events.len() - i,
{
    if i < events.len() {
        lemma_transition_retry(req, retry, events[i], elapsed, at);
        match spec_transition(req, retry, events[i], elapsed, at) {
            SpecFetchOutcome::RetryAgain(rc) => {
                theorem_retry_bound(req, events, elapsed, at, i + 1, rc);
            },
            SpecFetchOutcome::Finished(_) => {},
        }
    }
}

/// Retry bound for a fresh run: however the attempts turn out, at most
/// `max_retry + 1` of them are consumed, and a finished outcome's retry
/// count equals the attempts taken minus one.
pub proof fn theorem_retry_bound_fresh(
    req: SpecCrawlerRequest,
    events: Seq<SpecFetchEvent>,
    elapsed: u64,
    at: Timestamp,
)
    ensures
        match spec_run_fetch(req, events, elapsed, at, 0, 0) {
            Some((attempts, res)) => 0 < attempts <= req.max_retry + 1 && (
            match spec_result_retry(res) {
                Some(rc) => rc == attempts - 1,
                None => true,
            }),
            None => true,
        },
{
    theorem_retry_bound(req, events, elapsed, at, 0, 0);
}

/// The outcome a finished run carries.
pub open spec fn spec_run_outcome(
    run: Option<(int, Result<SpecCrawlerResult, SpecCrawlerError>)>,
) -> Option<Result<SpecCrawlerResult, SpecCrawlerError>> {
    match run {
        Some(p) => {
            let (_consumed, res) = p;
            Some(res)
        },
        None => None,
    }
}

/// Runs the retry machine over a recorded sequence of observations,
/// starting fresh; the attempts beyond the first are counted in the
/// outcome's retry count.
pub fn fetch_with_events(
    req: &CrawlerRequest,
    events: Vec<FetchEvent>,
    elapsed_millis: u64,
    at: Timestamp,
) -> (r: Option<Result<CrawlerResult, CrawlerError>>)
    ensures
        match r {
            Some(res) => spec_run_outcome(
                spec_run_fetch(req@, events.deep_view(), elapsed_millis, at, 0, 0),
            ) == Some(
                match res {
                    Ok(cr) => Ok::<SpecCrawlerResult, SpecCrawlerError>(cr@),
                    Err(e) => Err::<SpecCrawlerResult, SpecCrawlerError>(e@),
                },
            ),
            None => spec_run_fetch(req@, events.deep_view(), elapsed_millis, at, 0, 0) is None,
        },
{
    let ghost evs = events.deep_view();
    let mut retry: u8 = 0;
    let mut i: usize = 0;
    let total = events.len();
    let ghost full = spec_run_fetch(req@, evs, elapsed_millis, at, 0, 0);
    while i < total
        invariant
            total == evs.len(),
            evs == events.deep_view(),
            total == events@.len(),
            i <= total,
            full == spec_run_fetch(req@, evs, elapsed_millis, at, 0, 0),
            full == spec_run_fetch(req@, evs, elapsed_millis, at, i as int, retry),
        decreases total - i,
    {
        let ev = event_dup(&events[i]);
        proof {
            assert(ev.deep_view() == evs[i as int]);
        }
        let step = fetch_transition(req, retry, ev, elapsed_millis, at);
        match step {
            FetchOutcome::RetryAgain { retry_count } => {
                retry = retry_count;
            },
            FetchOutcome::Finished(res) => {
                proof {
                    let run_here = spec_run_fetch(req@, evs, elapsed_millis, at, i as int, retry);
                    assert(spec_transition(req@, retry, evs[i as int], elapsed_millis, at)
                        == step@);
                    assert(run_here is Some);
                    assert(spec_run_outcome(full) == spec_run_outcome(run_here));
                }
                return Some(res);
            },
        }
        i += 1;
    }
    None
}



fn event_dup(ev: &FetchEvent) -> (r: FetchEvent)
    ensures
        r@ == ev@,
{
    match ev {
        FetchEvent::Response { status, headers, body, content_type } => FetchEvent::Response {
            status: *status,
            headers: clone_pairs(headers),
            body: clone_bytes(body),
            content_type: match content_type {
                Some(s) => Some(s.clone()),
                None => None,
            },
        },
        FetchEvent::TimedOut => FetchEvent::TimedOut,
        FetchEvent::TransportError { detail } => FetchEvent::TransportError {
            detail: detail.clone(),
        },
    }
}

} // verus!
