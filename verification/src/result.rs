use vstd::prelude::*;
use vstd::string::*;
use vstd::utf8::{decode_utf8, valid_utf8};

use crate::charset::{spec_convert, Charset};
use crate::mime::{Mime, SpecMime};
use crate::strutil::{spec_dec_string, u32_to_string, utf8_to_string};
use crate::timefmt::Timestamp;

verus! {

/// What one successful (or classified-failed) fetch produced.
#[derive(Debug, PartialEq, Clone)]
pub struct CrawlerResult {
    pub response_status: u16,
    pub response_header: Vec<(String, String)>,
    pub response_body: Vec<u8>,
    pub mills_takes_to_complete_to_request: u64,
    pub retry_count: u8,
    pub response_content_type: Mime,
    pub crawl_date: Timestamp,
}

/// The mathematical form of a fetch result.
pub struct SpecCrawlerResult {
    pub response_status: u16,
    pub response_header: Seq<(Seq<char>, Seq<char>)>,
    pub response_body: Seq<u8>,
    pub mills_takes_to_complete_to_request: u64,
    pub retry_count: u8,
    pub response_content_type: SpecMime,
    pub crawl_date: Timestamp,
}

impl View for CrawlerResult {
    type V = SpecCrawlerResult;

    open spec fn view(&self) -> SpecCrawlerResult {
        SpecCrawlerResult {
            response_status: self.response_status,
            response_header: self.response_header.deep_view(),
            response_body: self.response_body@,
            mills_takes_to_complete_to_request: self.mills_takes_to_complete_to_request,
            retry_count: self.retry_count,
            response_content_type: self.response_content_type@,
            crawl_date: self.crawl_date,
        }
    }
}

/// How a fetch failed, by class.
#[derive(Debug, PartialEq, Clone)]
pub enum CrawlerError {
    ClientError(CrawlerResult),
    ServerError(CrawlerResult),
    TimeoutError { timeout_second: u8, retry_count: u8 },
    CharsetConversionError { error_detail: String, crawler_result: CrawlerResult },
    OtherError { error_detail: String },
}

/// The mathematical form of a fetch error.
pub enum SpecCrawlerError {
    ClientError(SpecCrawlerResult),
    ServerError(SpecCrawlerResult),
    TimeoutError { timeout_second: u8, retry_count: u8 },
    CharsetConversionError { error_detail: Seq<char>, crawler_result: SpecCrawlerResult },
    OtherError { error_detail: Seq<char> },
}

impl View for CrawlerError {
    type V = SpecCrawlerError;

    open spec fn view(&self) -> SpecCrawlerError {
        match self {
            CrawlerError::ClientError(r) => SpecCrawlerError::ClientError(r@),
            CrawlerError::ServerError(r) => SpecCrawlerError::ServerError(r@),
            CrawlerError::TimeoutError { timeout_second, retry_count } => {
                SpecCrawlerError::TimeoutError {
                    timeout_second: *timeout_second,
                    retry_count: *retry_count,
                }
            },
            CrawlerError::CharsetConversionError { error_detail, crawler_result } => {
                SpecCrawlerError::CharsetConversionError {
                    error_detail: error_detail@,
                    crawler_result: crawler_result@,
                }
            },
            CrawlerError::OtherError { error_detail } => SpecCrawlerError::OtherError {
                error_detail: error_detail@,
            },
        }
    }
}

/// The numeric code of an error class.
pub open spec fn spec_err_code(e: SpecCrawlerError) -> u16 {
    match e {
        SpecCrawlerError::ClientError(_) => 400,
        SpecCrawlerError::ServerError(_) => 500,
        SpecCrawlerError::TimeoutError { .. } => 600,
        SpecCrawlerError::CharsetConversionError { .. } => 700,
        SpecCrawlerError::OtherError { .. } => 800,
    }
}

/// The short label of an error class.
pub open spec fn spec_err_label(e: SpecCrawlerError) -> Seq<char> {
    match e {
        SpecCrawlerError::ClientError(_) => "client error"@,
        SpecCrawlerError::ServerError(_) => "server error"@,
        SpecCrawlerError::TimeoutError { .. } => "timeout"@,
        SpecCrawlerError::CharsetConversionError { .. } => "charset conversion failed"@,
        SpecCrawlerError::OtherError { .. } => "other error"@,
    }
}

/// A response body shown as text: its UTF-8 decoding, or a marker.
pub open spec fn spec_body_text(b: Seq<u8>) -> Seq<char> {
    if valid_utf8(b) {
        decode_utf8(b)
    } else {
        "(not utf-8)"@
    }
}

/// The long message of an error.
pub open spec fn spec_error_message(e: SpecCrawlerError) -> Seq<char> {
    match e {
        SpecCrawlerError::ClientError(r) => "client_error: "@ + spec_body_text(r.response_body),
        SpecCrawlerError::ServerError(r) => "server_error: "@ + spec_body_text(r.response_body),
        SpecCrawlerError::TimeoutError { timeout_second, retry_count } => "request timeout: "@
            + spec_dec_string(timeout_second as nat) + " seconds (retry: "@ + spec_dec_string(
            retry_count as nat,
        ) + ")"@,
        SpecCrawlerError::CharsetConversionError { error_detail, .. } => {
            "failed to convert charset: "@ + error_detail
        },
        SpecCrawlerError::OtherError { error_detail } => "unexpected error: "@ + error_detail,
    }
}

impl CrawlerError {
    /// The numeric code of this error's class.
    pub fn err_code(&self) -> (r: u16)
        ensures
            r == spec_err_code(self@),
    {
        match self {
            CrawlerError::ClientError(_) => 400,
            CrawlerError::ServerError(_) => 500,
            CrawlerError::TimeoutError { .. } => 600,
            CrawlerError::CharsetConversionError { .. } => 700,
            CrawlerError::OtherError { .. } => 800,
        }
    }

    /// The short label of this error's class.
    pub fn description(&self) -> (r: &'static str)
        ensures
            r@ == spec_err_label(self@),
    {
        match self {
            CrawlerError::ClientError(_) => "client error",
            CrawlerError::ServerError(_) => "server error",
            CrawlerError::TimeoutError { .. } => "timeout",
            CrawlerError::CharsetConversionError { .. } => "charset conversion failed",
            CrawlerError::OtherError { .. } => "other error",
        }
    }

    /// The long message of this error.
    pub fn to_message(&self) -> (r: String)
        ensures
            r@ == spec_error_message(self@),
    {
        match self {
            CrawlerError::ClientError(res) => {
                let mut out = String::new();
                out.append("client_error: ");
                let body = body_text(&res.response_body);
                out.append(body.as_str());
                out
            },
            CrawlerError::ServerError(res) => {
                let mut out = String::new();
                out.append("server_error: ");
                let body = body_text(&res.response_body);
                out.append(body.as_str());
                out
            },
            CrawlerError::TimeoutError { timeout_second, retry_count } => {
                let mut out = String::new();
                out.append("request timeout: ");
                let t = u32_to_string(*timeout_second as u32);
                out.append(t.as_str());
                out.append(" seconds (retry: ");
                let c = u32_to_string(*retry_count as u32);
                out.append(c.as_str());
                out.append(")");
                out
            },
            CrawlerError::CharsetConversionError { error_detail, .. } => {
                let mut out = String::new();
                out.append("failed to convert charset: ");
                out.append(error_detail.as_str());
                out
            },
            CrawlerError::OtherError { error_detail } => {
                let mut out = String::new();
                out.append("unexpected error: ");
                out.append(error_detail.as_str());
                out
            },
        }
    }
}

fn body_text(b: &Vec<u8>) -> (r: String)
    ensures
        r@ == spec_body_text(b@),
{
    match utf8_to_string(b) {
        Some(s) => s,
        None => String::from_str("(not utf-8)"),
    }
}

/// The code a metric records for a fetch: 200 on success, else the
/// error's code.
pub open spec fn spec_result_code(r: Result<SpecCrawlerResult, SpecCrawlerError>) -> u16 {
    match r {
        Ok(_) => 200,
        Err(e) => spec_err_code(e),
    }
}

/// The message a metric records for a fetch.
pub open spec fn spec_result_message(r: Result<SpecCrawlerResult, SpecCrawlerError>) -> Seq<
    char,
> {
    match r {
        Ok(_) => "success"@,
        Err(e) => spec_error_message(e),
    }
}

pub fn get_result_code(result: &Result<CrawlerResult, CrawlerError>) -> (r: u16)
    ensures
        r == spec_result_code(result_view(result)),
{
    match result {
        Ok(_) => 200,
        Err(e) => e.err_code(),
    }
}

pub fn get_result_message(result: &Result<CrawlerResult, CrawlerError>) -> (r: String)
    ensures
        r@ == spec_result_message(result_view(result)),
{
    match result {
        Ok(_) => String::from_str("success"),
        Err(e) => e.to_message(),
    }
}

/// The view of a fetch outcome.
pub open spec fn result_view(r: &Result<CrawlerResult, CrawlerError>) -> Result<
    SpecCrawlerResult,
    SpecCrawlerError,
> {
    match r {
        Ok(res) => Ok(res@),
        Err(e) => Err(e@),
    }
}

/// The result after converting the body to the given charset, when the
/// content type is text with a known charset and the conversion is
/// possible; otherwise the result unchanged.
pub open spec fn spec_converted_result(r: SpecCrawlerResult, to: Charset) -> SpecCrawlerResult {
    match r.response_content_type {
        SpecMime::Text { text_type, charset: Some(c) } => match spec_convert(
            c,
            to,
            r.response_body,
        ) {
            Some(nb) => SpecCrawlerResult {
                response_body: nb,
                response_content_type: SpecMime::Text { text_type, charset: Some(to) },
                ..r
            },
            None => r,
        },
        _ => r,
    }
}

impl CrawlerResult {
    /// Converts the body to the given charset when the content type is
    /// text with a known charset; the charset parameter then records the
    /// target. A binary body, an unknown charset or an impossible
    /// conversion leaves the result unchanged.
    pub fn convert_response_encoding_if_has_text_mime_type(&mut self, to: Charset)
        ensures
            final(self)@ == spec_converted_result(old(self)@, to),
    {
        let from = match &self.response_content_type {
            Mime::Text { charset: Some(c), .. } => Some(*c),
            _ => None,
        };
        match from {
            Some(c) => {
                match c.convert_to(&to, &self.response_body) {
                    Some(nb) => {
                        self.response_body = nb;
                        self.response_content_type.set_charset_when_text_mime(to);
                    },
                    None => (),
                }
            },
            None => (),
        }
    }

    /// Whether the content type is text carrying exactly this charset.
    pub fn has_same_charset(&self, charset: &Charset) -> (r: bool)
        ensures
            r == (crate::mime::spec_mime_charset(self@.response_content_type) == Some(*charset)),
    {
        self.response_content_type.has_same_charset(charset)
    }
}

} // verus!
