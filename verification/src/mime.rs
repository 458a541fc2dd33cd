use vstd::prelude::*;
use vstd::string::*;

use crate::charset::{spec_charset_of, Charset};
use crate::strutil::{
    find_sub, lower_of, spec_contains, spec_trim, str_eq, to_lowercase_string, trim_ascii,
};
use crate::template::{lemma_find_agrees, spec_find};

verus! {

/// A MIME type whose body is character data.
#[derive(Debug, Eq, PartialEq, Clone, Hash)]
pub enum TextMime {
    ApplicationFormUrlencoded,
    ApplicationJson,
    ApplicationXml,
    ApplicationStreamJson,
    ApplicationXHtmlXml,
    TextPlain,
    TextEventStream,
    TextMarkDown,
    TextXml,
    TextOther { text_mime_type_string: String },
}

/// The mathematical form of a text MIME type.
pub enum SpecTextMime {
    ApplicationFormUrlencoded,
    ApplicationJson,
    ApplicationXml,
    ApplicationStreamJson,
    ApplicationXHtmlXml,
    TextPlain,
    TextEventStream,
    TextMarkDown,
    TextXml,
    TextOther(Seq<char>),
}

impl View for TextMime {
    type V = SpecTextMime;

    open spec fn view(&self) -> SpecTextMime {
        match self {
            TextMime::ApplicationFormUrlencoded => SpecTextMime::ApplicationFormUrlencoded,
            TextMime::ApplicationJson => SpecTextMime::ApplicationJson,
            TextMime::ApplicationXml => SpecTextMime::ApplicationXml,
            TextMime::ApplicationStreamJson => SpecTextMime::ApplicationStreamJson,
            TextMime::ApplicationXHtmlXml => SpecTextMime::ApplicationXHtmlXml,
            TextMime::TextPlain => SpecTextMime::TextPlain,
            TextMime::TextEventStream => SpecTextMime::TextEventStream,
            TextMime::TextMarkDown => SpecTextMime::TextMarkDown,
            TextMime::TextXml => SpecTextMime::TextXml,
            TextMime::TextOther { text_mime_type_string } => SpecTextMime::TextOther(
                text_mime_type_string@,
            ),
        }
    }
}

/// The detected content type of a response.
#[derive(Debug, Eq, PartialEq, Clone, Hash)]
pub enum Mime {
    ApplicationOctetStream,
    ApplicationPdf,
    ImageJpeg,
    ImageGif,
    ImagePng,
    Text { text_type: TextMime, charset: Option<Charset> },
    Other { mime_type_string: String },
}

/// The mathematical form of a content type.
pub enum SpecMime {
    ApplicationOctetStream,
    ApplicationPdf,
    ImageJpeg,
    ImageGif,
    ImagePng,
    Text { text_type: SpecTextMime, charset: Option<Charset> },
    Other(Seq<char>),
}

impl View for Mime {
    type V = SpecMime;

    open spec fn view(&self) -> SpecMime {
        match self {
            Mime::ApplicationOctetStream => SpecMime::ApplicationOctetStream,
            Mime::ApplicationPdf => SpecMime::ApplicationPdf,
            Mime::ImageJpeg => SpecMime::ImageJpeg,
            Mime::ImageGif => SpecMime::ImageGif,
            Mime::ImagePng => SpecMime::ImagePng,
            Mime::Text { text_type, charset } => SpecMime::Text {
                text_type: text_type@,
                charset: *charset,
            },
            Mime::Other { mime_type_string } => SpecMime::Other(mime_type_string@),
        }
    }
}

/// The label of a text MIME type.
pub open spec fn spec_text_mime_label(t: SpecTextMime) -> Seq<char> {
    match t {
        SpecTextMime::ApplicationFormUrlencoded => "application/x-www-form-urlencoded"@,
        SpecTextMime::ApplicationJson => "application/json"@,
        SpecTextMime::ApplicationXml => "application/xml"@,
        SpecTextMime::ApplicationStreamJson => "application/stream+json"@,
        SpecTextMime::ApplicationXHtmlXml => "application/xhtml+xml"@,
        SpecTextMime::TextPlain => "text/plain"@,
        SpecTextMime::TextEventStream => "text/event-stream"@,
        SpecTextMime::TextMarkDown => "text/markdown"@,
        SpecTextMime::TextXml => "text/xml"@,
        SpecTextMime::TextOther(s) => s,
    }
}

/// The main type of a (lowercased, trimmed) `Content-Type` value:
/// everything before the first `;`, trimmed.
pub open spec fn spec_main_type(t: Seq<char>) -> Seq<char> {
    let e = match spec_find(t, ";"@, 0) {
        Some(e) => e,
        None => t.len() as int,
    };
    spec_trim(t.subrange(0, e))
}

/// The charset named by the first `charset=` parameter, if any: its value
/// runs to the next `;` and is trimmed.
pub open spec fn spec_charset_param(t: Seq<char>) -> Option<Charset> {
    match spec_find(t, "charset="@, 0) {
        None => None,
        Some(p) => {
            let vstart = p + "charset="@.len();
            let vend = match spec_find(t, ";"@, vstart) {
                Some(e) => e,
                None => t.len() as int,
            };
            spec_charset_of(spec_trim(t.subrange(vstart, vend)))
        },
    }
}

/// The content type a lowercased `Content-Type` value denotes. A main
/// type outside the table that mentions `text` is an unlisted text type;
/// anything else is opaque.
pub open spec fn spec_parse_mime(low: Seq<char>) -> SpecMime {
    let t = spec_trim(low);
    let main = spec_main_type(t);
    let cs = spec_charset_param(t);
    if main == "img/jpeg"@ {
        SpecMime::ImageJpeg
    } else if main == "img/gif"@ {
        SpecMime::ImageGif
    } else if main == "img/png"@ {
        SpecMime::ImagePng
    } else if main == "application/octet-stream"@ {
        SpecMime::ApplicationOctetStream
    } else if main == "application/pdf"@ {
        SpecMime::ApplicationPdf
    } else if main == "application/x-www-form-urlencoded"@ {
        SpecMime::Text { text_type: SpecTextMime::ApplicationFormUrlencoded, charset: cs }
    } else if main == "application/json"@ {
        SpecMime::Text { text_type: SpecTextMime::ApplicationJson, charset: cs }
    } else if main == "application/xml"@ {
        SpecMime::Text { text_type: SpecTextMime::ApplicationXml, charset: cs }
    } else if main == "application/stream+json"@ {
        SpecMime::Text { text_type: SpecTextMime::ApplicationStreamJson, charset: cs }
    } else if main == "application/xhtml+xml"@ {
        SpecMime::Text { text_type: SpecTextMime::ApplicationXHtmlXml, charset: cs }
    } else if main == "text/plain"@ {
        SpecMime::Text { text_type: SpecTextMime::TextPlain, charset: cs }
    } else if main == "text/event-stream"@ {
        SpecMime::Text { text_type: SpecTextMime::TextEventStream, charset: cs }
    } else if main == "text/markdown"@ {
        SpecMime::Text { text_type: SpecTextMime::TextMarkDown, charset: cs }
    } else if main == "text/xml"@ {
        SpecMime::Text { text_type: SpecTextMime::TextXml, charset: cs }
    } else if spec_contains(main, "text"@) {
        SpecMime::Text { text_type: SpecTextMime::TextOther(main), charset: cs }
    } else {
        SpecMime::Other(main)
    }
}

/// The canonical string of a content type: the label, then the charset
/// parameter when one is set.
pub open spec fn spec_mime_string(m: SpecMime) -> Seq<char> {
    match m {
        SpecMime::ApplicationOctetStream => "application/octet-stream"@,
        SpecMime::ApplicationPdf => "application/pdf"@,
        SpecMime::ImageJpeg => "img/jpeg"@,
        SpecMime::ImageGif => "img/gif"@,
        SpecMime::ImagePng => "img/png"@,
        SpecMime::Text { text_type, charset } => match charset {
            Some(c) => spec_text_mime_label(text_type) + "; charset="@
                + crate::charset::spec_canonical_label(c),
            None => spec_text_mime_label(text_type),
        },
        SpecMime::Other(s) => s,
    }
}

fn charset_of_exact(low: &str) -> (r: Option<Charset>)
    ensures
        r == spec_charset_of(low@),
{
    match Charset::from_str_lowered(low) {
        Some(c) => Some(c),
        None => None,
    }
}

/// Reads a content type from an already-lowercased header value.
pub fn parse_mime_lowered(low: &str) -> (r: Mime)
    ensures
        r@ == spec_parse_mime(low@),
{
    proof {
        reveal_strlit(";");
        reveal_strlit("charset=");
        reveal_strlit("text");
    }
    let t = trim_ascii(low);
    let tlen = t.as_str().unicode_len();
    let semi = find_sub(t.as_str(), ";", 0);
    proof {
        lemma_find_agrees(t@, ";"@, 0, semi);
    }
    let main_end = match semi {
        Some(e) => e,
        None => tlen,
    };
    let main = trim_ascii(t.as_str().substring_char(0, main_end));
    let charset_pos = find_sub(t.as_str(), "charset=", 0);
    proof {
        lemma_find_agrees(t@, "charset="@, 0, charset_pos);
    }
    let cs: Option<Charset> = match charset_pos {
        None => None,
        Some(p) => {
            let vstart = p + 8;
            let vend = match find_sub(t.as_str(), ";", vstart) {
                Some(e) => {
                    proof {
                        lemma_find_agrees(
                            t@,
                            ";"@,
                            vstart as int,
                            Some(e),
                        );
                    }
                    e
                },
                None => {
                    proof {
                        lemma_find_agrees(t@, ";"@, vstart as int, None);
                    }
                    tlen
                },
            };
            let val = trim_ascii(t.as_str().substring_char(vstart, vend));
            charset_of_exact(val.as_str())
        },
    };
    if str_eq(main.as_str(), "img/jpeg") {
        return Mime::ImageJpeg;
    }
    if str_eq(main.as_str(), "img/gif") {
        return Mime::ImageGif;
    }
    if str_eq(main.as_str(), "img/png") {
        return Mime::ImagePng;
    }
    if str_eq(main.as_str(), "application/octet-stream") {
        return Mime::ApplicationOctetStream;
    }
    if str_eq(main.as_str(), "application/pdf") {
        return Mime::ApplicationPdf;
    }
        if str_eq(main.as_str(), "application/x-www-form-urlencoded") {
            return Mime::Text { text_type: TextMime::ApplicationFormUrlencoded, charset: cs };
        }
        if str_eq(main.as_str(), "application/json") {
            return Mime::Text { text_type: TextMime::ApplicationJson, charset: cs };
        }
        if str_eq(main.as_str(), "application/xml") {
            return Mime::Text { text_type: TextMime::ApplicationXml, charset: cs };
        }
        if str_eq(main.as_str(), "application/stream+json") {
            return Mime::Text { text_type: TextMime::ApplicationStreamJson, charset: cs };
        }
        if str_eq(main.as_str(), "application/xhtml+xml") {
            return Mime::Text { text_type: TextMime::ApplicationXHtmlXml, charset: cs };
        }
        if str_eq(main.as_str(), "text/plain") {
            return Mime::Text { text_type: TextMime::TextPlain, charset: cs };
        }
        if str_eq(main.as_str(), "text/event-stream") {
            return Mime::Text { text_type: TextMime::TextEventStream, charset: cs };
        }
        if str_eq(main.as_str(), "text/markdown") {
            return Mime::Text { text_type: TextMime::TextMarkDown, charset: cs };
        }
        if str_eq(main.as_str(), "text/xml") {
            return Mime::Text { text_type: TextMime::TextXml, charset: cs };
        }
    if find_sub(main.as_str(), "text", 0).is_some() {
        return Mime::Text { text_type: TextMime::TextOther { text_mime_type_string: main }, charset: cs };
    }
    proof {
        assert(!spec_contains(main@, "text"@));
    }
    Mime::Other { mime_type_string: main }
}

impl Mime {
    /// Reads a content type from a `Content-Type` header value,
    /// case-insensitively. Every value denotes some content type.
    pub fn from_str(s: &str) -> (r: Result<Mime, String>)
        ensures
            r matches Ok(m) && m@ == spec_parse_mime(lower_of(s@)),
    {
        let low = to_lowercase_string(s);
        Ok(parse_mime_lowered(low.as_str()))
    }

    /// Overwrites the charset parameter, on text types only.
    pub fn set_charset_when_text_mime(&mut self, new_charset: Charset)
        ensures
            final(self)@ == match old(self)@ {
                SpecMime::Text { text_type, charset: _ } => SpecMime::Text {
                    text_type,
                    charset: Some(new_charset),
                },
                other => other,
            },
    {
        match self {
            Mime::Text { charset, .. } => {
                *charset = Some(new_charset);
            },
            _ => (),
        }
    }

    /// Whether the body under this type is character data.
    pub fn is_text(&self) -> (r: bool)
        ensures
            r == (self@ is Text),
    {
        match self {
            Mime::Text { .. } => true,
            _ => false,
        }
    }

    /// The charset parameter, on text types.
    pub fn get_charset(&self) -> (r: Option<Charset>)
        ensures
            r == spec_mime_charset(self@),
    {
        match self {
            Mime::Text { charset, .. } => *charset,
            _ => None,
        }
    }

    /// Whether this is a text type carrying exactly the given charset.
    pub fn has_same_charset(&self, charset: &Charset) -> (r: bool)
        ensures
            r == (spec_mime_charset(self@) == Some(*charset)),
    {
        match self {
            Mime::Text { charset: Some(c), .. } => c == charset,
            _ => false,
        }
    }

    /// The canonical string of this content type.
    pub fn to_string(&self) -> (r: String)
        ensures
            r@ == spec_mime_string(self@),
    {
        match self {
            Mime::ApplicationOctetStream => String::from_str("application/octet-stream"),
            Mime::ApplicationPdf => String::from_str("application/pdf"),
            Mime::ImageJpeg => String::from_str("img/jpeg"),
            Mime::ImageGif => String::from_str("img/gif"),
            Mime::ImagePng => String::from_str("img/png"),
            Mime::Other { mime_type_string } => mime_type_string.clone(),
            Mime::Text { text_type, charset } => {
                let mut out = text_mime_label(text_type);
                match charset {
                    Some(c) => {
                        out.append("; charset=");
                        let lbl = c.to_string();
                        out.append(lbl.as_str());
                        proof {
                            assert(out@ =~= spec_mime_string(self@));
                        }
                        out
                    },
                    None => out,
                }
            },
        }
    }
}

/// The charset parameter of a content type, on text types.
pub open spec fn spec_mime_charset(m: SpecMime) -> Option<Charset> {
    match m {
        SpecMime::Text { charset, .. } => charset,
        _ => None,
    }
}

fn text_mime_label(t: &TextMime) -> (r: String)
    ensures
        r@ == spec_text_mime_label(t@),
{
    match t {
            TextMime::ApplicationFormUrlencoded => String::from_str("application/x-www-form-urlencoded"),
            TextMime::ApplicationJson => String::from_str("application/json"),
            TextMime::ApplicationXml => String::from_str("application/xml"),
            TextMime::ApplicationStreamJson => String::from_str("application/stream+json"),
            TextMime::ApplicationXHtmlXml => String::from_str("application/xhtml+xml"),
            TextMime::TextPlain => String::from_str("text/plain"),
            TextMime::TextEventStream => String::from_str("text/event-stream"),
            TextMime::TextMarkDown => String::from_str("text/markdown"),
            TextMime::TextXml => String::from_str("text/xml"),
        TextMime::TextOther { text_mime_type_string } => text_mime_type_string.clone(),
    }
}

} // verus!
