use vstd::prelude::*;
use vstd::string::*;

use crate::charset::Charset;

verus! {

/// The HTTP method of a crawl request.
#[derive(Debug, PartialEq, Eq, Structural, PartialOrd, Ord, Clone, Copy, Hash)]
pub enum Method {
    Get,
    Post,
}

/// The charset conversion a request asks for: an optional override for
/// the response's input charset, and the charset to store.
#[derive(Debug, PartialEq, Eq, Clone, Copy)]
pub struct Encoding {
    pub input: Option<Charset>,
    pub output: Charset,
}

/// One fully rendered request: everything a fetch attempt needs.
#[derive(Debug, PartialEq, Clone)]
pub struct CrawlerRequest {
    pub url: String,
    pub method: Method,
    pub header: Vec<(String, String)>,
    pub encoding_setting: Option<Encoding>,
    pub timeout: u8,
    pub max_retry: u8,
    pub query_params: Vec<(String, String)>,
    pub body_params: Vec<(String, String)>,
    pub sleep: Option<u16>,
}

/// The mathematical form of a request.
pub struct SpecCrawlerRequest {
    pub url: Seq<char>,
    pub method: Method,
    pub header: Seq<(Seq<char>, Seq<char>)>,
    pub encoding_setting: Option<Encoding>,
    pub timeout: u8,
    pub max_retry: u8,
    pub query_params: Seq<(Seq<char>, Seq<char>)>,
    pub body_params: Seq<(Seq<char>, Seq<char>)>,
    pub sleep: Option<u16>,
}

impl View for CrawlerRequest {
    type V = SpecCrawlerRequest;

    open spec fn view(&self) -> SpecCrawlerRequest {
        SpecCrawlerRequest {
            url: self.url@,
            method: self.method,
            header: self.header.deep_view(),
            encoding_setting: self.encoding_setting,
            timeout: self.timeout,
            max_retry: self.max_retry,
            query_params: self.query_params.deep_view(),
            body_params: self.body_params.deep_view(),
            sleep: self.sleep,
        }
    }
}

/// The query string of an ordered parameter list: `key=val` pairs joined
/// with `&`.
pub open spec fn spec_query_string(m: Seq<(Seq<char>, Seq<char>)>) -> Seq<char>
    decreases m.len(),
{
    if m.len() == 0 {
        Seq::empty()
    } else if m.len() == 1 {
        m[0].0 + "="@ + m[0].1
    } else {
        spec_query_string(m.drop_last()) + "&"@ + m.last().0 + "="@ + m.last().1
    }
}

/// Joins parameters into a query string; an empty list yields none.
pub fn create_query_strings(param_map: &Vec<(String, String)>) -> (r: Option<String>)
    ensures
        match r {
            None => param_map@.len() == 0,
            Some(s) => param_map@.len() > 0 && s@ == spec_query_string(param_map.deep_view()),
        },
{
    if param_map.len() == 0 {
        return None;
    }
    let ghost m = param_map.deep_view();
    let mut out = String::new();
    let mut i: usize = 0;
    proof {
        assert(m.subrange(0, 0) =~= Seq::<(Seq<char>, Seq<char>)>::empty());
        assert(out@ =~= spec_query_string(m.subrange(0, 0)));
    }
    while i < param_map.len()
        invariant
            m == param_map.deep_view(),
            m.len() == param_map@.len(),
            i <= param_map@.len(),
            out@ == spec_query_string(m.subrange(0, i as int)),
        decreases param_map@.len() - i,
    {
        if i > 0 {
            out.append("&");
        }
        out.append(param_map[i].0.as_str());
        out.append("=");
        out.append(param_map[i].1.as_str());
        proof {
            let upto = m.subrange(0, i + 1);
            assert(upto.drop_last() =~= m.subrange(0, i as int));
            assert(upto.last() == m[i as int]);
            assert(m[i as int] == (param_map@[i as int].0@, param_map@[i as int].1@));
            assert(out@ =~= spec_query_string(upto));
        }
        i += 1;
    }
    proof {
        assert(m.subrange(0, m.len() as int) =~= m);
    }
    Some(out)
}

} // verus!
