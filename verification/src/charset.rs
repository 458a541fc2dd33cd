use vstd::prelude::*;
use vstd::string::*;

use crate::strutil::{lower_of, str_eq, to_lowercase_string};

verus! {

/// A character set the crawler can read or write, by its canonical
/// WHATWG encoding label.
#[derive(Debug, PartialEq, Eq, Structural, Clone, Copy, Hash)]
pub enum Charset {
    Big5,
    EucJp,
    EucKr,
    Gbk,
    Ibm866,
    Iso2022Jp,
    Iso885910,
    Iso885913,
    Iso885914,
    Iso885915,
    Iso885916,
    Iso88592,
    Iso88593,
    Iso88594,
    Iso88595,
    Iso88596,
    Iso88597,
    Iso88598,
    Iso88598I,
    Koi8R,
    Koi8U,
    ShiftJis,
    Utf16be,
    Utf16le,
    Utf8,
    Gb18030,
    Macintosh,
    Replacement,
    Windows1250,
    Windows1251,
    Windows1252,
    Windows1253,
    Windows1254,
    Windows1255,
    Windows1256,
    Windows1257,
    Windows1258,
    Windows874,
    XMacCyrillic,
}

/// The canonical label of a charset.
pub open spec fn spec_canonical_label(c: Charset) -> Seq<char> {
    match c {
        Charset::Big5 => "big5"@,
        Charset::EucJp => "euc-jp"@,
        Charset::EucKr => "euc-kr"@,
        Charset::Gbk => "gbk"@,
        Charset::Ibm866 => "ibm866"@,
        Charset::Iso2022Jp => "iso-2022-jp"@,
        Charset::Iso885910 => "iso-8859-10"@,
        Charset::Iso885913 => "iso-8859-13"@,
        Charset::Iso885914 => "iso-8859-14"@,
        Charset::Iso885915 => "iso-8859-15"@,
        Charset::Iso885916 => "iso-8859-16"@,
        Charset::Iso88592 => "iso-8859-2"@,
        Charset::Iso88593 => "iso-8859-3"@,
        Charset::Iso88594 => "iso-8859-4"@,
        Charset::Iso88595 => "iso-8859-5"@,
        Charset::Iso88596 => "iso-8859-6"@,
        Charset::Iso88597 => "iso-8859-7"@,
        Charset::Iso88598 => "iso-8859-8"@,
        Charset::Iso88598I => "iso-8859-8-i"@,
        Charset::Koi8R => "koi8-r"@,
        Charset::Koi8U => "koi8-u"@,
        Charset::ShiftJis => "shift_jis"@,
        Charset::Utf16be => "utf-16be"@,
        Charset::Utf16le => "utf-16le"@,
        Charset::Utf8 => "utf-8"@,
        Charset::Gb18030 => "gb18030"@,
        Charset::Macintosh => "macintosh"@,
        Charset::Replacement => "replacement"@,
        Charset::Windows1250 => "windows-1250"@,
        Charset::Windows1251 => "windows-1251"@,
        Charset::Windows1252 => "windows-1252"@,
        Charset::Windows1253 => "windows-1253"@,
        Charset::Windows1254 => "windows-1254"@,
        Charset::Windows1255 => "windows-1255"@,
        Charset::Windows1256 => "windows-1256"@,
        Charset::Windows1257 => "windows-1257"@,
        Charset::Windows1258 => "windows-1258"@,
        Charset::Windows874 => "windows-874"@,
        Charset::XMacCyrillic => "x-mac-cyrillic"@,
    }
}

/// The charset a lowercased label names, if any.
pub open spec fn spec_charset_of(low: Seq<char>) -> Option<Charset> {
    if low == "big5"@ {
        Some(Charset::Big5)
    } else if low == "euc-jp"@ {
        Some(Charset::EucJp)
    } else if low == "euc-kr"@ {
        Some(Charset::EucKr)
    } else if low == "gbk"@ {
        Some(Charset::Gbk)
    } else if low == "ibm866"@ {
        Some(Charset::Ibm866)
    } else if low == "iso-2022-jp"@ {
        Some(Charset::Iso2022Jp)
    } else if low == "iso-8859-10"@ {
        Some(Charset::Iso885910)
    } else if low == "iso-8859-13"@ {
        Some(Charset::Iso885913)
    } else if low == "iso-8859-14"@ {
        Some(Charset::Iso885914)
    } else if low == "iso-8859-15"@ {
        Some(Charset::Iso885915)
    } else if low == "iso-8859-16"@ {
        Some(Charset::Iso885916)
    } else if low == "iso-8859-2"@ {
        Some(Charset::Iso88592)
    } else if low == "iso-8859-3"@ {
        Some(Charset::Iso88593)
    } else if low == "iso-8859-4"@ {
        Some(Charset::Iso88594)
    } else if low == "iso-8859-5"@ {
        Some(Charset::Iso88595)
    } else if low == "iso-8859-6"@ {
        Some(Charset::Iso88596)
    } else if low == "iso-8859-7"@ {
        Some(Charset::Iso88597)
    } else if low == "iso-8859-8"@ {
        Some(Charset::Iso88598)
    } else if low == "iso-8859-8-i"@ {
        Some(Charset::Iso88598I)
    } else if low == "koi8-r"@ {
        Some(Charset::Koi8R)
    } else if low == "koi8-u"@ {
        Some(Charset::Koi8U)
    } else if low == "shift_jis"@ {
        Some(Charset::ShiftJis)
    } else if low == "utf-16be"@ {
        Some(Charset::Utf16be)
    } else if low == "utf-16le"@ {
        Some(Charset::Utf16le)
    } else if low == "utf-8"@ {
        Some(Charset::Utf8)
    } else if low == "gb18030"@ {
        Some(Charset::Gb18030)
    } else if low == "macintosh"@ {
        Some(Charset::Macintosh)
    } else if low == "replacement"@ {
        Some(Charset::Replacement)
    } else if low == "windows-1250"@ {
        Some(Charset::Windows1250)
    } else if low == "windows-1251"@ {
        Some(Charset::Windows1251)
    } else if low == "windows-1252"@ {
        Some(Charset::Windows1252)
    } else if low == "windows-1253"@ {
        Some(Charset::Windows1253)
    } else if low == "windows-1254"@ {
        Some(Charset::Windows1254)
    } else if low == "windows-1255"@ {
        Some(Charset::Windows1255)
    } else if low == "windows-1256"@ {
        Some(Charset::Windows1256)
    } else if low == "windows-1257"@ {
        Some(Charset::Windows1257)
    } else if low == "windows-1258"@ {
        Some(Charset::Windows1258)
    } else if low == "windows-874"@ {
        Some(Charset::Windows874)
    } else if low == "x-mac-cyrillic"@ {
        Some(Charset::XMacCyrillic)
    } else {
        None
    }
}

/// What `encoding_rs` decodes a byte string to under a label: a pure
/// function of the label and the bytes; `None` exactly when the label
/// names no encoding.
pub uninterp spec fn decode_of(label: Seq<char>, bytes: Seq<u8>) -> Option<Seq<char>>;

/// What `encoding_rs` encodes a character string to under a label: a pure
/// function of the label and the text; `None` exactly when the label
/// names no encoding.
pub uninterp spec fn encode_of(label: Seq<char>, text: Seq<char>) -> Option<Seq<u8>>;

/// Relies on encoding_rs: `Encoding::for_label` resolves the label and
/// `Encoding::decode` decodes the whole buffer, replacing malformed
/// sequences; both depend on their arguments alone. The length bound
/// keeps the decoder's buffer arithmetic away from overflow.
#[verifier::external_body]
fn decode_with(label: &str, bytes: &Vec<u8>) -> (r: Option<String>)
    requires
        bytes@.len() <= usize::MAX as int / 8,
    ensures
        r matches Some(s) ==> decode_of(label@, bytes@) == Some(s@),
        r is None ==> decode_of(label@, bytes@) is None,
{
    let enc = match encoding_rs::Encoding::for_label(label.as_bytes()) {
        Some(e) => e,
        None => return None,
    };
    let (cow, _, _) = enc.decode(bytes.as_slice());
    Some(cow.into_owned())
}

/// Relies on encoding_rs: `Encoding::for_label` resolves the label and
/// `Encoding::encode` encodes the whole string, replacing unmappable
/// characters; both depend on their arguments alone. The length bound
/// keeps the encoder's buffer arithmetic away from overflow.
#[verifier::external_body]
fn encode_with(label: &str, text: &str) -> (r: Option<Vec<u8>>)
    requires
        text@.len() <= usize::MAX as int / 16,
    ensures
        r matches Some(v) ==> encode_of(label@, text@) == Some(v@),
        r is None ==> encode_of(label@, text@) is None,
{
    let enc = match encoding_rs::Encoding::for_label(label.as_bytes()) {
        Some(e) => e,
        None => return None,
    };
    let (cow, _, _) = enc.encode(text);
    Some(cow.into_owned())
}

/// The bytes that re-encoding from one charset to the other yields;
/// `None` when a label is unknown to the encoder or a length guard trips.
pub open spec fn spec_convert(from: Charset, to: Charset, bytes: Seq<u8>) -> Option<Seq<u8>> {
    if bytes.len() > usize::MAX as int / 8 {
        None
    } else {
        match decode_of(spec_canonical_label(from), bytes) {
            None => None,
            Some(text) => if text.len() > usize::MAX as int / 16 {
                None
            } else {
                encode_of(spec_canonical_label(to), text)
            },
        }
    }
}

impl Charset {
    /// The canonical label, as the configuration and `Content-Type`
    /// parameters spell it.
    pub fn to_string(&self) -> (r: String)
        ensures
            r@ == spec_canonical_label(*self),
    {
        match self {
            Charset::Big5 => String::from_str("big5"),
            Charset::EucJp => String::from_str("euc-jp"),
            Charset::EucKr => String::from_str("euc-kr"),
            Charset::Gbk => String::from_str("gbk"),
            Charset::Ibm866 => String::from_str("ibm866"),
            Charset::Iso2022Jp => String::from_str("iso-2022-jp"),
            Charset::Iso885910 => String::from_str("iso-8859-10"),
            Charset::Iso885913 => String::from_str("iso-8859-13"),
            Charset::Iso885914 => String::from_str("iso-8859-14"),
            Charset::Iso885915 => String::from_str("iso-8859-15"),
            Charset::Iso885916 => String::from_str("iso-8859-16"),
            Charset::Iso88592 => String::from_str("iso-8859-2"),
            Charset::Iso88593 => String::from_str("iso-8859-3"),
            Charset::Iso88594 => String::from_str("iso-8859-4"),
            Charset::Iso88595 => String::from_str("iso-8859-5"),
            Charset::Iso88596 => String::from_str("iso-8859-6"),
            Charset::Iso88597 => String::from_str("iso-8859-7"),
            Charset::Iso88598 => String::from_str("iso-8859-8"),
            Charset::Iso88598I => String::from_str("iso-8859-8-i"),
            Charset::Koi8R => String::from_str("koi8-r"),
            Charset::Koi8U => String::from_str("koi8-u"),
            Charset::ShiftJis => String::from_str("shift_jis"),
            Charset::Utf16be => String::from_str("utf-16be"),
            Charset::Utf16le => String::from_str("utf-16le"),
            Charset::Utf8 => String::from_str("utf-8"),
            Charset::Gb18030 => String::from_str("gb18030"),
            Charset::Macintosh => String::from_str("macintosh"),
            Charset::Replacement => String::from_str("replacement"),
            Charset::Windows1250 => String::from_str("windows-1250"),
            Charset::Windows1251 => String::from_str("windows-1251"),
            Charset::Windows1252 => String::from_str("windows-1252"),
            Charset::Windows1253 => String::from_str("windows-1253"),
            Charset::Windows1254 => String::from_str("windows-1254"),
            Charset::Windows1255 => String::from_str("windows-1255"),
            Charset::Windows1256 => String::from_str("windows-1256"),
            Charset::Windows1257 => String::from_str("windows-1257"),
            Charset::Windows1258 => String::from_str("windows-1258"),
            Charset::Windows874 => String::from_str("windows-874"),
            Charset::XMacCyrillic => String::from_str("x-mac-cyrillic"),
        }
    }

    /// Reads a charset from an already-lowercased label.
    pub fn from_str_lowered(low: &str) -> (r: Option<Charset>)
        ensures
            r == spec_charset_of(low@),
    {
        if str_eq(low, "big5") {
            return Some(Charset::Big5);
        }
        if str_eq(low, "euc-jp") {
            return Some(Charset::EucJp);
        }
        if str_eq(low, "euc-kr") {
            return Some(Charset::EucKr);
        }
        if str_eq(low, "gbk") {
            return Some(Charset::Gbk);
        }
        if str_eq(low, "ibm866") {
            return Some(Charset::Ibm866);
        }
        if str_eq(low, "iso-2022-jp") {
            return Some(Charset::Iso2022Jp);
        }
        if str_eq(low, "iso-8859-10") {
            return Some(Charset::Iso885910);
        }
        if str_eq(low, "iso-8859-13") {
            return Some(Charset::Iso885913);
        }
        if str_eq(low, "iso-8859-14") {
            return Some(Charset::Iso885914);
        }
        if str_eq(low, "iso-8859-15") {
            return Some(Charset::Iso885915);
        }
        if str_eq(low, "iso-8859-16") {
            return Some(Charset::Iso885916);
        }
        if str_eq(low, "iso-8859-2") {
            return Some(Charset::Iso88592);
        }
        if str_eq(low, "iso-8859-3") {
            return Some(Charset::Iso88593);
        }
        if str_eq(low, "iso-8859-4") {
            return Some(Charset::Iso88594);
        }
        if str_eq(low, "iso-8859-5") {
            return Some(Charset::Iso88595);
        }
        if str_eq(low, "iso-8859-6") {
            return Some(Charset::Iso88596);
        }
        if str_eq(low, "iso-8859-7") {
            return Some(Charset::Iso88597);
        }
        if str_eq(low, "iso-8859-8") {
            return Some(Charset::Iso88598);
        }
        if str_eq(low, "iso-8859-8-i") {
            return Some(Charset::Iso88598I);
        }
        if str_eq(low, "koi8-r") {
            return Some(Charset::Koi8R);
        }
        if str_eq(low, "koi8-u") {
            return Some(Charset::Koi8U);
        }
        if str_eq(low, "shift_jis") {
            return Some(Charset::ShiftJis);
        }
        if str_eq(low, "utf-16be") {
            return Some(Charset::Utf16be);
        }
        if str_eq(low, "utf-16le") {
            return Some(Charset::Utf16le);
        }
        if str_eq(low, "utf-8") {
            return Some(Charset::Utf8);
        }
        if str_eq(low, "gb18030") {
            return Some(Charset::Gb18030);
        }
        if str_eq(low, "macintosh") {
            return Some(Charset::Macintosh);
        }
        if str_eq(low, "replacement") {
            return Some(Charset::Replacement);
        }
        if str_eq(low, "windows-1250") {
            return Some(Charset::Windows1250);
        }
        if str_eq(low, "windows-1251") {
            return Some(Charset::Windows1251);
        }
        if str_eq(low, "windows-1252") {
            return Some(Charset::Windows1252);
        }
        if str_eq(low, "windows-1253") {
            return Some(Charset::Windows1253);
        }
        if str_eq(low, "windows-1254") {
            return Some(Charset::Windows1254);
        }
        if str_eq(low, "windows-1255") {
            return Some(Charset::Windows1255);
        }
        if str_eq(low, "windows-1256") {
            return Some(Charset::Windows1256);
        }
        if str_eq(low, "windows-1257") {
            return Some(Charset::Windows1257);
        }
        if str_eq(low, "windows-1258") {
            return Some(Charset::Windows1258);
        }
        if str_eq(low, "windows-874") {
            return Some(Charset::Windows874);
        }
        if str_eq(low, "x-mac-cyrillic") {
            return Some(Charset::XMacCyrillic);
        }
        None
    }

    /// Reads a charset from its label, case-insensitively.
    pub fn from_str(s: &str) -> (r: Result<Charset, String>)
        ensures
            match r {
                Ok(c) => spec_charset_of(lower_of(s@)) == Some(c),
                Err(e) => spec_charset_of(lower_of(s@)) is None && e@ == s@
                    + " is not supported!"@,
            },
    {
        let low = to_lowercase_string(s);
        match Charset::from_str_lowered(low.as_str()) {
            Some(c) => Ok(c),
            None => {
                let mut msg = String::new();
                msg.append(s);
                msg.append(" is not supported!");
                proof {
                    assert(msg@ =~= s@ + " is not supported!"@);
                }
                Err(msg)
            },
        }
    }

    /// Decodes the bytes as `self` and re-encodes them as `other`.
    pub fn convert_to(&self, other: &Charset, target: &Vec<u8>) -> (r: Option<Vec<u8>>)
        ensures
            match r {
                Some(v) => spec_convert(*self, *other, target@) == Some(v@),
                None => spec_convert(*self, *other, target@) is None,
            },
    {
        if target.len() > usize::MAX / 8 {
            return None;
        }
        let from_label = self.to_string();
        let to_label = other.to_string();
        let text = match decode_with(from_label.as_str(), target) {
            Some(t) => t,
            None => {
                return None;
            },
        };
        if text.unicode_len() > usize::MAX / 16 {
            return None;
        }
        encode_with(to_label.as_str(), text.as_str())
    }
}

} // verus!
