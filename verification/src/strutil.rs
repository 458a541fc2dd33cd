use vstd::prelude::*;
use vstd::string::*;

verus! {

/// Character-by-character equality of two string slices.
pub fn str_eq(a: &str, b: &str) -> (r: bool)
    ensures
        r == (a@ == b@),
{
    let alen = a.unicode_len();
    let blen = b.unicode_len();
    if alen != blen {
        assert(a@ != b@) by {
            assert(a@.len() != b@.len());
        }
        return false;
    }
    let mut i: usize = 0;
    while i < alen
        invariant
            alen == a@.len(),
            blen == b@.len(),
            alen == blen,
            i <= alen,
            forall|j: int| 0 <= j < i ==> a@[j] == b@[j],
        decreases alen - i,
    {
        if a.get_char(i) != b.get_char(i) {
            return false;
        }
        i += 1;
    }
    proof {
        assert(a@ =~= b@);
    }
    true
}

/// The decimal digit character for a value below ten.
pub open spec fn spec_digit_char(d: int) -> char {
    seq!['0', '1', '2', '3', '4', '5', '6', '7', '8', '9'][d]
}

/// The decimal representation of a natural number, without leading zeros.
pub open spec fn spec_dec_string(n: nat) -> Seq<char>
    decreases n,
{
    if n < 10 {
        seq![spec_digit_char(n as int)]
    } else {
        spec_dec_string(n / 10) + seq![spec_digit_char((n % 10) as int)]
    }
}

fn digit_str(d: u32) -> (r: &'static str)
    requires
        d < 10,
    ensures
        r@ =~= seq![spec_digit_char(d as int)],
{
    let digits = "0123456789";
    proof {
        reveal_strlit("0123456789");
    }
    let r = digits.substring_char(d as usize, d as usize + 1);
    proof {
        assert(r@ =~= seq![spec_digit_char(d as int)]);
    }
    r
}

/// Formats a number in decimal.
pub fn u32_to_string(n: u32) -> (r: String)
    ensures
        r@ == spec_dec_string(n as nat),
    decreases n,
{
    if n < 10 {
        let mut s = String::new();
        s.append(digit_str(n));
        proof {
            assert(s@ =~= spec_dec_string(n as nat));
        }
        s
    } else {
        let mut s = u32_to_string(n / 10);
        s.append(digit_str(n % 10));
        proof {
            assert(s@ =~= spec_dec_string(n as nat));
        }
        s
    }
}

/// Formats a number in decimal.
pub fn u64_to_string(n: u64) -> (r: String)
    ensures
        r@ == spec_dec_string(n as nat),
    decreases n,
{
    if n < 10 {
        let mut s = String::new();
        s.append(digit_str(n as u32));
        proof {
            assert(s@ =~= spec_dec_string(n as nat));
        }
        s
    } else {
        let mut s = u64_to_string(n / 10);
        s.append(digit_str((n % 10) as u32));
        proof {
            assert(s@ =~= spec_dec_string(n as nat));
        }
        s
    }
}

/// What `str::to_lowercase` returns: a pure function of the characters alone.
pub uninterp spec fn lower_of(s: Seq<char>) -> Seq<char>;

/// Relies on str::to_lowercase: the result depends only on the input
/// characters, and an empty input stays empty.
#[verifier::external_body]
pub(crate) fn to_lowercase_string(s: &str) -> (r: String)
    ensures
        r@ == lower_of(s@),
        s@.len() == 0 ==> r@.len() == 0,
{
    s.to_lowercase()
}

/// Whether the pattern occurs in `s` starting at position `i`.
pub open spec fn spec_match_at(s: Seq<char>, pat: Seq<char>, i: int) -> bool {
    0 <= i && i + pat.len() <= s.len() && s.subrange(i, i + pat.len()) == pat
}

/// Whether the pattern occurs anywhere in `s`.
pub open spec fn spec_contains(s: Seq<char>, pat: Seq<char>) -> bool {
    exists|i: int| spec_match_at(s, pat, i)
}

fn match_at(s: &str, slen: usize, pat: &str, plen: usize, i: usize) -> (r: bool)
    requires
        slen == s@.len(),
        plen == pat@.len(),
        i + plen <= slen,
    ensures
        r == spec_match_at(s@, pat@, i as int),
{
    let mut j: usize = 0;
    while j < plen
        invariant
            slen == s@.len(),
            plen == pat@.len(),
            i + plen <= slen,
            j <= plen,
            forall|k: int| 0 <= k < j ==> s@[i + k] == pat@[k],
        decreases plen - j,
    {
        if s.get_char(i + j) != pat.get_char(j) {
            assert(s@.subrange(i as int, i + plen) != pat@) by {
                assert(s@.subrange(i as int, i + plen)[j as int] != pat@[j as int]);
            }
            return false;
        }
        j += 1;
    }
    proof {
        assert(s@.subrange(i as int, i + plen) =~= pat@);
    }
    true
}

/// The position of the first occurrence of `pat` in `s` at or after `from`.
pub fn find_sub(s: &str, pat: &str, from: usize) -> (r: Option<usize>)
    requires
        from <= s@.len(),
    ensures
        match r {
            Some(i) => from <= i && spec_match_at(s@, pat@, i as int) && forall|k: int|
                from <= k < i ==> !spec_match_at(s@, pat@, k),
            None => forall|k: int| from <= k ==> !spec_match_at(s@, pat@, k),
        },
{
    let slen = s.unicode_len();
    let plen = pat.unicode_len();
    if plen == 0 {
        proof {
            assert(s@.subrange(from as int, from as int) =~= pat@);
        }
        return Some(from);
    }
    if plen > slen || from > slen - plen {
        proof {
            assert forall|k: int| from <= k implies !spec_match_at(s@, pat@, k) by {
                assert(k + pat@.len() > s@.len());
            }
        }
        return None;
    }
    let mut i: usize = from;
    while i <= slen - plen
        invariant
            slen == s@.len(),
            plen == pat@.len(),
            plen <= slen,
            1 <= plen,
            from <= i,
            i <= slen - plen + 1,
            forall|k: int| from <= k < i ==> !spec_match_at(s@, pat@, k),
        decreases slen - i,
    {
        if match_at(s, slen, pat, plen, i) {
            return Some(i);
        }
        i += 1;
    }
    proof {
        assert forall|k: int| from <= k implies !spec_match_at(s@, pat@, k) by {
            if k >= i {
                assert(k + pat@.len() > s@.len());
            }
        }
    }
    None
}

/// The position of the first occurrence of the character at or after `from`.
pub fn find_char(s: &str, c: char, from: usize) -> (r: Option<usize>)
    requires
        from <= s@.len(),
    ensures
        match r {
            Some(i) => from <= i < s@.len() && s@[i as int] == c && forall|k: int|
                from <= k < i ==> s@[k] != c,
            None => forall|k: int| from <= k < s@.len() ==> s@[k] != c,
        },
{
    let slen = s.unicode_len();
    let mut i: usize = from;
    while i < slen
        invariant
            slen == s@.len(),
            from <= i <= slen,
            forall|k: int| from <= k < i ==> s@[k] != c,
        decreases slen - i,
    {
        if s.get_char(i) == c {
            return Some(i);
        }
        i += 1;
    }
    None
}

/// ASCII whitespace, as it appears around tokens in header values.
pub open spec fn spec_is_ws(c: char) -> bool {
    c == ' ' || c == '\t' || c == '\n' || c == '\r'
}

pub fn is_ws(c: char) -> (r: bool)
    ensures
        r == spec_is_ws(c),
{
    c == ' ' || c == '\t' || c == '\n' || c == '\r'
}

/// The subrange that remains of `s` after trimming ASCII whitespace
/// from both ends: `s[trim_start(s)..trim_end(s)]`.
pub open spec fn spec_trim_start(s: Seq<char>) -> int
    decreases s.len(),
{
    if s.len() == 0 {
        0
    } else if spec_is_ws(s[0]) {
        1 + spec_trim_start(s.subrange(1, s.len() as int))
    } else {
        0
    }
}

pub open spec fn spec_trim_end(s: Seq<char>) -> int
    decreases s.len(),
{
    if s.len() == 0 {
        0
    } else if spec_is_ws(s.last()) {
        spec_trim_end(s.drop_last())
    } else {
        s.len() as int
    }
}

/// `s` with ASCII whitespace removed from both ends.
pub open spec fn spec_trim(s: Seq<char>) -> Seq<char> {
    if spec_trim_start(s) <= spec_trim_end(s) {
        s.subrange(spec_trim_start(s), spec_trim_end(s))
    } else {
        Seq::empty()
    }
}

proof fn lemma_trim_start_step(s: Seq<char>, i: int)
    requires
        0 <= i < s.len(),
        forall|k: int| 0 <= k < i ==> spec_is_ws(s[k]),
    ensures
        spec_is_ws(s[i]) ==> spec_trim_start(s) > i,
        !spec_is_ws(s[i]) ==> spec_trim_start(s) == i,
    decreases i,
{
    if i == 0 {
        if spec_is_ws(s[0]) {
            lemma_trim_start_bounds(s.subrange(1, s.len() as int));
        }
    } else {
        let t = s.subrange(1, s.len() as int);
        assert(spec_is_ws(s[0]));
        assert forall|k: int| 0 <= k < i - 1 implies spec_is_ws(t[k]) by {
            assert(t[k] == s[k + 1]);
        }
        lemma_trim_start_step(t, i - 1);
        assert(t[i - 1] == s[i]);
        assert(spec_trim_start(s) == 1 + spec_trim_start(t));
    }
}

proof fn lemma_trim_end_step(s: Seq<char>, j: int)
    requires
        0 <= j < s.len(),
        forall|k: int| j < k < s.len() ==> spec_is_ws(s[k]),
    ensures
        spec_is_ws(s[j]) ==> spec_trim_end(s) <= j,
        !spec_is_ws(s[j]) ==> spec_trim_end(s) == j + 1,
    decreases s.len() - j,
{
    if j == s.len() - 1 {
        if spec_is_ws(s[j]) {
            lemma_trim_end_bounds(s.drop_last());
        }
    } else {
        let t = s.drop_last();
        assert(spec_is_ws(s.last()));
        assert forall|k: int| j < k < t.len() implies spec_is_ws(t[k]) by {
            assert(t[k] == s[k]);
        }
        lemma_trim_end_step(t, j);
        assert(t[j] == s[j]);
        assert(spec_trim_end(s) == spec_trim_end(t));
    }
}

proof fn lemma_trim_end_bounds(s: Seq<char>)
    ensures
        0 <= spec_trim_end(s) <= s.len(),
    decreases s.len(),
{
    if s.len() > 0 && spec_is_ws(s.last()) {
        lemma_trim_end_bounds(s.drop_last());
    }
}

proof fn lemma_trim_start_bounds(s: Seq<char>)
    ensures
        0 <= spec_trim_start(s) <= s.len(),
    decreases s.len(),
{
    if s.len() > 0 && spec_is_ws(s[0]) {
        lemma_trim_start_bounds(s.subrange(1, s.len() as int));
    }
}

proof fn lemma_trim_start_all_ws(s: Seq<char>)
    requires
        forall|k: int| 0 <= k < s.len() ==> spec_is_ws(s[k]),
    ensures
        spec_trim_start(s) == s.len(),
    decreases s.len(),
{
    if s.len() > 0 {
        let t = s.subrange(1, s.len() as int);
        lemma_trim_start_all_ws(t);
    }
}

/// Returns `s` trimmed of ASCII whitespace at both ends.
pub fn trim_ascii(s: &str) -> (r: String)
    ensures
        r@ == spec_trim(s@),
{
    let slen = s.unicode_len();
    let mut start: usize = 0;
    while start < slen && is_ws(s.get_char(start))
        invariant
            slen == s@.len(),
            start <= slen,
            forall|k: int| 0 <= k < start ==> spec_is_ws(s@[k]),
        decreases slen - start,
    {
        start += 1;
    }
    if start == slen {
        proof {
            lemma_trim_start_all_ws(s@);
            lemma_trim_end_bounds(s@);
            if spec_trim_start(s@) <= spec_trim_end(s@) {
                assert(spec_trim(s@) =~= Seq::<char>::empty());
            }
        }
        return String::new();
    }
    proof {
        lemma_trim_start_step(s@, start as int);
    }
    let mut end: usize = slen;
    while end > start && is_ws(s.get_char(end - 1))
        invariant
            slen == s@.len(),
            start <= end <= slen,
            start < slen,
            !spec_is_ws(s@[start as int]),
            forall|k: int| end <= k < slen ==> spec_is_ws(s@[k]),
        decreases end,
    {
        end -= 1;
    }
    proof {
        assert(end > start);
        lemma_trim_end_step(s@, end - 1);
        assert(spec_trim_end(s@) == end as int);
        assert(spec_trim_start(s@) == start as int);
    }
    let piece = s.substring_char(start, end);
    piece.to_owned()
}

/// The numeric value of a sequence of decimal digit characters.
pub open spec fn spec_is_digit(c: char) -> bool {
    '0' <= c && c <= '9'
}

pub open spec fn spec_digit_val(c: char) -> int {
    c as int - '0' as int
}

pub open spec fn spec_dec_value(s: Seq<char>) -> int
    decreases s.len(),
{
    if s.len() == 0 {
        0
    } else {
        spec_dec_value(s.drop_last()) * 10 + spec_digit_val(s.last())
    }
}

pub open spec fn spec_all_digits(s: Seq<char>) -> bool {
    forall|k: int| 0 <= k < s.len() ==> spec_is_digit(s[k])
}

/// Parses a run of decimal digits as a number; `None` when the value
/// does not fit in a `u32`.
pub fn parse_u32(s: &str, from: usize, to: usize) -> (r: Option<u32>)
    requires
        from <= to <= s@.len(),
        spec_all_digits(s@.subrange(from as int, to as int)),
    ensures
        match r {
            Some(v) => v == spec_dec_value(s@.subrange(from as int, to as int)) && spec_dec_value(
                s@.subrange(from as int, to as int),
            ) <= u32::MAX,
            None => spec_dec_value(s@.subrange(from as int, to as int)) > u32::MAX,
        },
{
    let ghost whole = s@.subrange(from as int, to as int);
    let mut acc: u32 = 0;
    let mut i: usize = from;
    proof {
        assert(whole.subrange(0, 0) =~= Seq::<char>::empty());
    }
    while i < to
        invariant
            from <= i <= to <= s@.len(),
            whole == s@.subrange(from as int, to as int),
            spec_all_digits(whole),
            acc == spec_dec_value(whole.subrange(0, i - from)),
            acc <= u32::MAX,
        decreases to - i,
    {
        let c = s.get_char(i);
        proof {
            assert(whole[i - from] == s@[i as int]);
        }
        let d: u32 = (c as u32) - ('0' as u32);
        assert(d <= 9);
        let ghost prev = whole.subrange(0, i - from);
        let ghost cur = whole.subrange(0, i + 1 - from);
        proof {
            assert(cur.drop_last() =~= prev);
            assert(cur.last() == whole[i - from]);
        }
        if acc > (u32::MAX - d) / 10 {
            proof {
                lemma_dec_value_monotone(whole, i + 1 - from);
                assert(spec_dec_value(cur) == acc * 10 + d > u32::MAX);
            }
            return None;
        }
        acc = acc * 10 + d;
        i += 1;
    }
    proof {
        assert(whole.subrange(0, to - from) =~= whole);
    }
    Some(acc)
}

/// A longer digit string never has a smaller value: the value of a prefix
/// bounds the value of the whole.
proof fn lemma_dec_value_monotone(s: Seq<char>, i: int)
    requires
        0 <= i <= s.len(),
        spec_all_digits(s),
    ensures
        spec_dec_value(s.subrange(0, i)) <= spec_dec_value(s),
        spec_dec_value(s) >= 0,
    decreases s.len(),
{
    if s.len() == 0 {
        assert(s.subrange(0, i) =~= s);
    } else if i == s.len() {
        assert(s.subrange(0, i) =~= s);
        lemma_dec_value_monotone(s.drop_last(), i - 1);
    } else {
        lemma_dec_value_monotone(s.drop_last(), i);
        assert(s.drop_last().subrange(0, i) =~= s.subrange(0, i));
        assert(spec_digit_val(s.last()) >= 0);
    }
}


/// Relies on String::from_utf8: it succeeds exactly on valid UTF-8 and
/// decodes it, as vstd's UTF-8 model states.
#[verifier::external_body]
pub(crate) fn utf8_to_string(v: &Vec<u8>) -> (r: Option<String>)
    ensures
        r matches Some(s) ==> vstd::utf8::valid_utf8(v@) && s@ == vstd::utf8::decode_utf8(v@),
        r is None ==> !vstd::utf8::valid_utf8(v@),
{
    String::from_utf8(v.clone()).ok()
}


/// Copies an association list, entry by entry.
pub fn clone_pairs(v: &Vec<(String, String)>) -> (r: Vec<(String, String)>)
    ensures
        r.deep_view() == v.deep_view(),
{
    let mut out: Vec<(String, String)> = Vec::new();
    let mut i: usize = 0;
    while i < v.len()
        invariant
            i <= v@.len(),
            out.deep_view() == v.deep_view().subrange(0, i as int),
        decreases v@.len() - i,
    {
        let ghost prev = out.deep_view();
        let pair = (v[i].0.clone(), v[i].1.clone());
        let ghost pairv = (pair.0@, pair.1@);
        out.push(pair);
        proof {
            assert(prev.len() == i as int);
            assert(out@.len() == i + 1);
            assert(out.deep_view().len() == i + 1);
            assert(out.deep_view()[i as int] == pairv);
            assert(pairv == v.deep_view()[i as int]);
            assert forall|x: int| 0 <= x < i implies out.deep_view()[x] == v.deep_view()[x] by {
                assert(out.deep_view()[x] == prev[x]);
                assert(prev[x] == v.deep_view().subrange(0, i as int)[x]);
            }
            assert(out.deep_view() =~= v.deep_view().subrange(0, i + 1));
        }
        i += 1;
    }
    proof {
        assert(v.deep_view().subrange(0, v.deep_view().len() as int) =~= v.deep_view());
    }
    out
}

/// Copies a byte buffer.
pub fn clone_bytes(v: &Vec<u8>) -> (r: Vec<u8>)
    ensures
        r@ == v@,
{
    let mut out: Vec<u8> = Vec::new();
    let mut i: usize = 0;
    while i < v.len()
        invariant
            i <= v@.len(),
            out@ =~= v@.subrange(0, i as int),
        decreases v@.len() - i,
    {
        out.push(v[i]);
        proof {
            assert(out@ =~= v@.subrange(0, i + 1));
        }
        i += 1;
    }
    proof {
        assert(v@.subrange(0, v@.len() as int) =~= v@);
        assert(out@ =~= v@);
    }
    out
}

} // verus!
