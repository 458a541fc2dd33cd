use vstd::prelude::*;
use vstd::string::*;

use crate::strutil::{
    find_char, parse_u32, spec_all_digits, spec_dec_string, spec_dec_value, spec_is_digit,
    u32_to_string,
};

verus! {

/// One segment of a range-expansion pattern: literal text, or an inclusive
/// numeric range `[lo..hi]`.
pub enum SpecSeg {
    Lit(Seq<char>),
    Numbers(int, int),
}

/// The end of the run of characters satisfying `p`, starting at `j`.
pub open spec fn spec_run_end(s: Seq<char>, j: int, p: spec_fn(char) -> bool) -> int
    decreases s.len() - j,
{
    if j < 0 {
        0
    } else if j >= s.len() {
        s.len() as int
    } else if p(s[j]) {
        spec_run_end(s, j + 1, p)
    } else {
        j
    }
}

proof fn lemma_run_end_eq(s: Seq<char>, j: int, e: int, p: spec_fn(char) -> bool)
    requires
        0 <= j <= e <= s.len(),
        forall|k: int| j <= k < e ==> p(s[k]),
        e < s.len() ==> !p(s[e]),
    ensures
        spec_run_end(s, j, p) == e,
    decreases e - j,
{
    if j == e {
    } else {
        assert(p(s[j]));
        lemma_run_end_eq(s, j + 1, e, p);
    }
}

proof fn lemma_run_end_bounds(s: Seq<char>, j: int, p: spec_fn(char) -> bool)
    requires
        0 <= j <= s.len(),
    ensures
        j <= spec_run_end(s, j, p) <= s.len(),
    decreases s.len() - j,
{
    if j < s.len() && p(s[j]) {
        lemma_run_end_bounds(s, j + 1, p);
    }
}

pub open spec fn spec_digit_pred() -> spec_fn(char) -> bool {
    |c: char| spec_is_digit(c)
}

pub open spec fn spec_dot_pred() -> spec_fn(char) -> bool {
    |c: char| c == '.'
}

pub open spec fn spec_not_bracket_pred() -> spec_fn(char) -> bool {
    |c: char| c != '['
}

/// The segments of a range-expansion pattern, read from position `i`.
/// A `[` opens a numeric range `[N.+M]` (one or more dots between two
/// non-empty digit runs, a closing bracket); a `[` that opens no such
/// range is a one-character literal; any other text runs to the next `[`.
pub open spec fn spec_segments(s: Seq<char>, i: int) -> Seq<SpecSeg>
    decreases s.len() - i,
        via spec_segments_decreases
{
    if i < 0 || i >= s.len() {
        Seq::empty()
    } else if s[i] == '[' {
        let d1 = spec_run_end(s, i + 1, spec_digit_pred());
        let d2 = spec_run_end(s, d1, spec_dot_pred());
        let d3 = spec_run_end(s, d2, spec_digit_pred());
        if d1 > i + 1 && d2 > d1 && d3 > d2 && d3 < s.len() && s[d3] == ']' {
            seq![
                SpecSeg::Numbers(
                    spec_dec_value(s.subrange(i + 1, d1)),
                    spec_dec_value(s.subrange(d2, d3)),
                ),
            ] + spec_segments(s, d3 + 1)
        } else {
            seq![SpecSeg::Lit(seq!['['])] + spec_segments(s, i + 1)
        }
    } else {
        let k = spec_run_end(s, i, spec_not_bracket_pred());
        seq![SpecSeg::Lit(s.subrange(i, k))] + spec_segments(s, k)
    }
}

#[via_fn]
proof fn spec_segments_decreases(s: Seq<char>, i: int) {
    if 0 <= i < s.len() {
        if s[i] == '[' {
            lemma_run_end_bounds(s, i + 1, spec_digit_pred());
            let d1 = spec_run_end(s, i + 1, spec_digit_pred());
            lemma_run_end_bounds(s, d1, spec_dot_pred());
            let d2 = spec_run_end(s, d1, spec_dot_pred());
            lemma_run_end_bounds(s, d2, spec_digit_pred());
        } else {
            assert(spec_not_bracket_pred()(s[i]));
            lemma_run_end_bounds(s, i + 1, spec_not_bracket_pred());
            assert(spec_run_end(s, i, spec_not_bracket_pred()) == spec_run_end(
                s,
                i + 1,
                spec_not_bracket_pred(),
            ));
        }
    }
}

/// The strings one segment stands for, in order.
pub open spec fn spec_seg_values(g: SpecSeg) -> Seq<Seq<char>> {
    match g {
        SpecSeg::Lit(t) => seq![t],
        SpecSeg::Numbers(lo, hi) => Seq::new(
            if hi >= lo {
                (hi - lo + 1) as nat
            } else {
                0
            },
            |q: int| spec_dec_string((lo + q) as nat),
        ),
    }
}

/// Every string of `vals` prefixed onto every string of `acc`, with the
/// `vals` choice varying slowest.
pub open spec fn spec_cross_concat(vals: Seq<Seq<char>>, acc: Seq<Seq<char>>) -> Seq<Seq<char>> {
    Seq::new(
        vals.len() * acc.len(),
        |idx: int| vals[idx / acc.len() as int] + acc[idx % acc.len() as int],
    )
}

/// The cross product of all segments, concatenated left-to-right.
pub open spec fn spec_expand_segs(segs: Seq<SpecSeg>) -> Seq<Seq<char>>
    decreases segs.len(),
{
    if segs.len() == 0 {
        seq![Seq::<char>::empty()]
    } else {
        spec_cross_concat(
            spec_seg_values(segs[0]),
            spec_expand_segs(segs.subrange(1, segs.len() as int)),
        )
    }
}

/// Whether a range bound does not fit in a `u32`.
pub open spec fn spec_seg_overflows(g: SpecSeg) -> bool {
    match g {
        SpecSeg::Numbers(lo, hi) => lo > u32::MAX || hi > u32::MAX,
        SpecSeg::Lit(_) => false,
    }
}

/// Whether some range bound does not fit in a `u32`; such an input is
/// treated as unparseable.
pub open spec fn spec_has_overflow(segs: Seq<SpecSeg>) -> bool {
    exists|i: int| 0 <= i < segs.len() && spec_seg_overflows(#[trigger] segs[i])
}

/// What numeric-range expansion returns: the cross product of the ranges
/// interleaved with the literal text, or the input alone when a bound
/// does not fit.
pub open spec fn spec_expand(s: Seq<char>) -> Seq<Seq<char>> {
    if spec_has_overflow(spec_segments(s, 0)) {
        seq![s]
    } else {
        spec_expand_segs(spec_segments(s, 0))
    }
}

/// An executable segment with bounds that fit.
enum Seg {
    Lit(String),
    Numbers(u32, u32),
}

impl View for Seg {
    type V = SpecSeg;

    closed spec fn view(&self) -> SpecSeg {
        match self {
            Seg::Lit(t) => SpecSeg::Lit(t@),
            Seg::Numbers(lo, hi) => SpecSeg::Numbers(*lo as int, *hi as int),
        }
    }
}

impl DeepView for Seg {
    type V = SpecSeg;

    closed spec fn deep_view(&self) -> SpecSeg {
        self.view()
    }
}

fn scan_digits(s: &str, slen: usize, j: usize) -> (r: usize)
    requires
        slen == s@.len(),
        j <= slen,
    ensures
        r == spec_run_end(s@, j as int, spec_digit_pred()),
        j <= r <= slen,
        spec_all_digits(s@.subrange(j as int, r as int)),
{
    let mut i: usize = j;
    while i < slen && digit_at(s, i)
        invariant
            slen == s@.len(),
            j <= i <= slen,
            forall|k: int| j <= k < i ==> spec_is_digit(s@[k]),
        decreases slen - i,
    {
        i += 1;
    }
    proof {
        lemma_run_end_eq(s@, j as int, i as int, spec_digit_pred());
        assert(spec_all_digits(s@.subrange(j as int, i as int)));
    }
    i
}

fn scan_dots(s: &str, slen: usize, j: usize) -> (r: usize)
    requires
        slen == s@.len(),
        j <= slen,
    ensures
        r == spec_run_end(s@, j as int, spec_dot_pred()),
        j <= r <= slen,
{
    let mut i: usize = j;
    while i < slen && s.get_char(i) == '.'
        invariant
            slen == s@.len(),
            j <= i <= slen,
            forall|k: int| j <= k < i ==> s@[k] == '.',
        decreases slen - i,
    {
        i += 1;
    }
    proof {
        lemma_run_end_eq(s@, j as int, i as int, spec_dot_pred());
    }
    i
}

/// The strings of one in-range segment.
fn seg_values(g: &Seg) -> (r: Vec<String>)
    ensures
        r.deep_view() == spec_seg_values(g@),
{
    match g {
        Seg::Lit(t) => {
            let mut vals: Vec<String> = Vec::new();
            vals.push(t.clone());
            proof {
                assert(vals.deep_view() =~= spec_seg_values(g@));
            }
            vals
        },
        Seg::Numbers(lo, hi) => {
            let lo = *lo;
            let hi = *hi;
            let mut vals: Vec<String> = Vec::new();
            if lo > hi {
                proof {
                    assert(vals.deep_view() =~= spec_seg_values(g@));
                }
                return vals;
            }
            let count: u64 = (hi - lo) as u64;
            let ghost values = spec_seg_values(g@);
            proof {
                assert(values.len() == count + 1);
            }
            let mut q: u64 = 0;
            while q <= count
                invariant
                    lo <= hi,
                    count == hi - lo,
                    count <= u32::MAX,
                    q <= count + 1,
                    values == spec_seg_values(g@),
                    values.len() == count + 1,
                    vals.deep_view() =~= values.subrange(0, q as int),
                    g@ == SpecSeg::Numbers(lo as int, hi as int),
                decreases count + 1 - q,
            {
                let ghost prevv = vals.deep_view();
                let item = u32_to_string(lo + (q as u32));
                let ghost itemv = item@;
                vals.push(item);
                proof {
                    assert(prevv.len() == q as int);
                    assert(vals@.len() == q + 1);
                    assert(vals.deep_view().len() == q + 1);
                    assert(vals@[q as int]@ == itemv);
                    assert(vals.deep_view()[q as int] == vals@[q as int].deep_view());
                    assert(itemv == spec_dec_string((lo + q) as nat));
                    assert(values[q as int] == spec_dec_string((lo + q) as nat));
                    assert(vals.deep_view()[q as int] == spec_dec_string((lo + q) as nat));
                    assert forall|x: int| 0 <= x < q implies vals.deep_view()[x] == values[x] by {
                        assert(vals.deep_view()[x] == prevv[x]);
                        assert(prevv[x] == values.subrange(0, q as int)[x]);
                    }
                    assert(vals.deep_view() =~= values.subrange(0, q + 1));
                }
                q += 1;
            }
            proof {
                assert(values.subrange(0, count + 1) =~= values);
            }
            vals
        },
    }
}

/// Expands `[N..M]` ranges: the result is the cross product of every
/// range's values, interleaved with the literal text; an input with no
/// well-formed range (or a bound that does not fit) comes back alone.
pub fn try_expand_numeric_list(target: &str) -> (r: Vec<String>)
    ensures
        r.deep_view() == spec_expand(target@),
{
    let ghost sv = target@;
    let slen = target.unicode_len();
    let mut segs: Vec<Seg> = Vec::new();
    let mut i: usize = 0;
    while i < slen
        invariant
            slen == sv.len(),
            sv == target@,
            i <= slen,
            segs.deep_view() + spec_segments(sv, i as int) == spec_segments(sv, 0),
            !spec_has_overflow(segs.deep_view()),
        decreases slen - i,
    {
        let ghost prefix = segs.deep_view();
        let c = s_char(target, i);
        if c == '[' {
            let d1 = scan_digits(target, slen, i + 1);
            let d2 = scan_dots(target, slen, d1);
            let d3 = scan_digits(target, slen, d2);
            let well_formed = d1 > i + 1 && d2 > d1 && d3 > d2 && d3 < slen && s_char(target, d3)
                == ']';
            if well_formed {
                let lo = parse_u32(target, i + 1, d1);
                let hi = parse_u32(target, d2, d3);
                match (lo, hi) {
                    (Some(lo), Some(hi)) => {
                        segs.push(Seg::Numbers(lo, hi));
                        proof {
                            assert(segs.deep_view() =~= prefix + seq![
                                SpecSeg::Numbers(
                                    spec_dec_value(sv.subrange(i + 1, d1 as int)),
                                    spec_dec_value(sv.subrange(d2 as int, d3 as int)),
                                ),
                            ]);
                            assert(segs.deep_view() + spec_segments(sv, d3 as int + 1)
                                =~= spec_segments(sv, 0));
                            assert forall|x: int|
                                0 <= x < segs.deep_view().len() implies !spec_seg_overflows(
                                #[trigger] segs.deep_view()[x],
                            ) by {
                                if x < prefix.len() {
                                    assert(!spec_has_overflow(prefix));
                                    assert(prefix[x] == segs.deep_view()[x]);
                                }
                            }
                        }
                        i = d3 + 1;
                    },
                    _ => {
                        // a bound does not fit: the whole input is unparseable
                        proof {
                            let full = spec_segments(sv, 0);
                            let bad = SpecSeg::Numbers(
                                spec_dec_value(sv.subrange(i + 1, d1 as int)),
                                spec_dec_value(sv.subrange(d2 as int, d3 as int)),
                            );
                            assert(spec_segments(sv, i as int)[0] == bad);
                            assert(full[prefix.len() as int] == bad);
                            assert(spec_has_overflow(full));
                        }
                        let mut fallback: Vec<String> = Vec::new();
                        fallback.push(target.to_owned());
                        proof {
                            assert(fallback.deep_view() =~= spec_expand(sv));
                        }
                        return fallback;
                    },
                }
            } else {
                let mut lit = String::new();
                lit.append("[");
                proof {
                    reveal_strlit("[");
                    assert(lit@ =~= seq!['[']);
                    assert(segs.deep_view().push(SpecSeg::Lit(lit@)) =~= prefix + seq![
                        SpecSeg::Lit(seq!['[']),
                    ]);
                }
                segs.push(Seg::Lit(lit));
                proof {
                    assert(segs.deep_view() =~= prefix + seq![SpecSeg::Lit(seq!['['])]);
                    assert(segs.deep_view() + spec_segments(sv, i as int + 1) =~= spec_segments(
                        sv,
                        0,
                    ));
                    assert forall|x: int|
                        0 <= x < segs.deep_view().len() implies !spec_seg_overflows(
                        #[trigger] segs.deep_view()[x],
                    ) by {
                        if x < prefix.len() {
                            assert(!spec_has_overflow(prefix));
                            assert(prefix[x] == segs.deep_view()[x]);
                        }
                    }
                }
                i = i + 1;
            }
        } else {
            let k = match find_char(target, '[', i) {
                Some(k) => k,
                None => slen,
            };
            proof {
                lemma_run_end_eq(sv, i as int, k as int, spec_not_bracket_pred());
            }
            let text = target.substring_char(i, k).to_owned();
            segs.push(Seg::Lit(text));
            proof {
                assert(segs.deep_view() =~= prefix + seq![
                    SpecSeg::Lit(sv.subrange(i as int, k as int)),
                ]);
                assert(segs.deep_view() + spec_segments(sv, k as int) =~= spec_segments(sv, 0));
                assert forall|x: int|
                    0 <= x < segs.deep_view().len() implies !spec_seg_overflows(
                    #[trigger] segs.deep_view()[x],
                ) by {
                    if x < prefix.len() {
                        assert(!spec_has_overflow(prefix));
                        assert(prefix[x] == segs.deep_view()[x]);
                    }
                }
            }
            i = k;
        }
    }
    proof {
        assert(segs.deep_view() =~= spec_segments(sv, 0));
    }
    // cross product, from the last segment towards the first
    let mut acc: Vec<String> = Vec::new();
    acc.push(String::new());
    let ghost segsv = segs.deep_view();
    proof {
        assert(spec_segments(sv, slen as int) =~= Seq::<SpecSeg>::empty());
        assert(acc.deep_view() =~= spec_expand_segs(segsv.subrange(
            segsv.len() as int,
            segsv.len() as int,
        )));
    }
    let mut k: usize = segs.len();
    while k > 0
        invariant
            k <= segs.len(),
            segsv == segs.deep_view(),
            acc.deep_view() == spec_expand_segs(segsv.subrange(k as int, segsv.len() as int)),
        decreases k,
    {
        let vals = seg_values(&segs[k - 1]);
        let mut next: Vec<String> = Vec::new();
        let ghost target_seq = spec_cross_concat(vals.deep_view(), acc.deep_view());
        let ghost nv = vals.deep_view().len() as int;
        let ghost nl = acc.deep_view().len() as int;
        proof {
            assert(target_seq.len() == nv * nl);
            assert(target_seq.subrange(0, 0) =~= Seq::<Seq<char>>::empty());
        }
        let mut vi: usize = 0;
        while vi < vals.len()
            invariant
                nv == vals.deep_view().len(),
                nl == acc.deep_view().len(),
                vals.deep_view().len() == vals.len(),
                acc.deep_view().len() == acc.len(),
                vi <= vals.len(),
                target_seq == spec_cross_concat(vals.deep_view(), acc.deep_view()),
                target_seq.len() == nv * nl,
                0 <= vi as int * nl <= target_seq.len(),
                next.deep_view() =~= target_seq.subrange(0, vi as int * nl),
            decreases vals.len() - vi,
        {
            proof {
                assert(vi as int * nl + nl <= nv * nl && 0 <= vi as int * nl) by (nonlinear_arith)
                    requires
                        0 <= vi < nv,
                        0 <= nl,
                ;
            }
            let mut ai: usize = 0;
            while ai < acc.len()
                invariant
                    nv == vals.deep_view().len(),
                    nl == acc.deep_view().len(),
                    vals.deep_view().len() == vals.len(),
                    acc.deep_view().len() == acc.len(),
                    vi < vals.len(),
                    ai <= acc.len(),
                    target_seq == spec_cross_concat(vals.deep_view(), acc.deep_view()),
                    target_seq.len() == nv * nl,
                    0 <= vi as int * nl,
                    vi as int * nl + nl <= target_seq.len(),
                    next.deep_view() =~= target_seq.subrange(0, vi as int * nl + ai as int),
                decreases acc.len() - ai,
            {
                let ghost prevn = next.deep_view();
                let joined = vals[vi].clone().concat(acc[ai].as_str());
                let ghost joinedv = joined@;
                next.push(joined);
                proof {
                    let idx = vi as int * nl + ai as int;
                    assert(idx / nl == vi as int && idx % nl == ai as int) by (nonlinear_arith)
                        requires
                            0 <= vi,
                            0 <= ai < nl,
                            idx == vi as int * nl + ai as int,
                    ;
                    assert(target_seq[idx] == vals.deep_view()[vi as int]
                        + acc.deep_view()[ai as int]);
                    assert(joinedv == vals.deep_view()[vi as int] + acc.deep_view()[ai as int]);
                    assert(prevn.len() == idx);
                    assert(next.deep_view().len() == idx + 1);
                    assert(next.deep_view()[idx] == joinedv);
                    assert forall|x: int| 0 <= x < idx implies next.deep_view()[x]
                        == target_seq[x] by {
                        assert(next.deep_view()[x] == prevn[x]);
                        assert(prevn[x] == target_seq.subrange(0, idx)[x]);
                    }
                    assert(next.deep_view() =~= target_seq.subrange(0, idx + 1));
                }
                ai += 1;
            }
            proof {
                assert((vi + 1) as int * nl == vi as int * nl + nl) by (nonlinear_arith);
            }
            vi += 1;
        }
        proof {
            assert(next.deep_view() =~= target_seq.subrange(0, target_seq.len() as int));
            assert(next.deep_view() =~= target_seq);
            let shorter = segsv.subrange(k - 1, segsv.len() as int);
            assert(shorter[0] == segsv[k - 1]);
            assert(shorter.subrange(1, shorter.len() as int) =~= segsv.subrange(
                k as int,
                segsv.len() as int,
            ));
            assert(next.deep_view() =~= spec_expand_segs(shorter));
        }
        acc = next;
        k -= 1;
    }
    proof {
        assert(segsv.subrange(0, segsv.len() as int) =~= segsv);
        assert(!spec_has_overflow(segsv));
        assert(acc.deep_view() =~= spec_expand(sv));
    }
    acc
}

fn digit_at(s: &str, i: usize) -> (r: bool)
    requires
        i < s@.len(),
    ensures
        r == spec_is_digit(s@[i as int]),
{
    let c = s.get_char(i);
    '0' <= c && c <= '9'
}

/// A single character read, for scanning.
fn s_char(s: &str, i: usize) -> (c: char)
    requires
        i < s@.len(),
    ensures
        c == s@[i as int],
{
    s.get_char(i)
}


/// The concatenated text of literal segments.
pub open spec fn spec_lit_concat(segs: Seq<SpecSeg>) -> Seq<char>
    decreases segs.len(),
{
    if segs.len() == 0 {
        Seq::empty()
    } else {
        match segs[0] {
            SpecSeg::Lit(t) => t + spec_lit_concat(segs.subrange(1, segs.len() as int)),
            SpecSeg::Numbers(_, _) => Seq::empty(),
        }
    }
}

/// Expanding all-literal segments yields exactly their concatenation.
proof fn lemma_expand_all_lit(segs: Seq<SpecSeg>)
    requires
        forall|i: int| 0 <= i < segs.len() ==> #[trigger] segs[i] is Lit,
    ensures
        spec_expand_segs(segs) == seq![spec_lit_concat(segs)],
    decreases segs.len(),
{
    if segs.len() == 0 {
        assert(spec_expand_segs(segs) =~= seq![spec_lit_concat(segs)]);
    } else {
        let rest = segs.subrange(1, segs.len() as int);
        assert forall|i: int| 0 <= i < rest.len() implies #[trigger] rest[i] is Lit by {
            assert(rest[i] == segs[i + 1]);
        }
        lemma_expand_all_lit(rest);
        assert(segs[0] is Lit);
        let t = segs[0]->Lit_0;
        assert(spec_seg_values(segs[0]) == seq![t]);
        let cross = spec_cross_concat(seq![t], seq![spec_lit_concat(rest)]);
        assert(seq![t].len() == 1);
        assert(seq![spec_lit_concat(rest)].len() == 1);
        assert(cross.len() == 1int * 1int);
        assert(cross[0] == t + spec_lit_concat(rest));
        assert(spec_expand_segs(segs) =~= seq![spec_lit_concat(segs)]);
    }
}

/// All-literal segments reassemble to the text they were read from.
proof fn lemma_segments_reassemble(s: Seq<char>, i: int)
    requires
        0 <= i <= s.len(),
        forall|x: int|
            0 <= x < spec_segments(s, i).len() ==> #[trigger] spec_segments(s, i)[x] is Lit,
    ensures
        spec_lit_concat(spec_segments(s, i)) == s.subrange(i, s.len() as int),
    decreases s.len() - i,
{
    let segs = spec_segments(s, i);
    let tail = s.subrange(i, s.len() as int);
    if i >= s.len() {
        assert(tail =~= Seq::<char>::empty());
    } else if s[i] == '[' {
        let d1 = spec_run_end(s, i + 1, spec_digit_pred());
        let d2 = spec_run_end(s, d1, spec_dot_pred());
        let d3 = spec_run_end(s, d2, spec_digit_pred());
        if d1 > i + 1 && d2 > d1 && d3 > d2 && d3 < s.len() && s[d3] == ']' {
            assert(segs[0] is Numbers);
            assert(false);
        } else {
            let rest = spec_segments(s, i + 1);
            assert forall|x: int| 0 <= x < rest.len() implies #[trigger] rest[x] is Lit by {
                assert(rest[x] == segs[x + 1]);
            }
            lemma_segments_reassemble(s, i + 1);
            assert(segs.subrange(1, segs.len() as int) =~= rest);
            assert(seq!['['] =~= s.subrange(i, i + 1));
            assert(spec_lit_concat(segs) =~= tail);
        }
    } else {
        let k = spec_run_end(s, i, spec_not_bracket_pred());
        assert(spec_not_bracket_pred()(s[i]));
        lemma_run_end_bounds(s, i + 1, spec_not_bracket_pred());
        assert(k == spec_run_end(s, i + 1, spec_not_bracket_pred()));
        let rest = spec_segments(s, k);
        assert forall|x: int| 0 <= x < rest.len() implies #[trigger] rest[x] is Lit by {
            assert(rest[x] == segs[x + 1]);
        }
        lemma_segments_reassemble(s, k);
        assert(segs.subrange(1, segs.len() as int) =~= rest);
        assert(spec_lit_concat(segs) =~= tail);
    }
}

/// Numeric expansion is the identity on inputs without a well-formed
/// `[N..M]` range: such an input comes back as the one-element list of
/// itself.
pub proof fn theorem_expand_no_range_identity(s: Seq<char>)
    requires
        forall|x: int|
            0 <= x < spec_segments(s, 0).len() ==> #[trigger] spec_segments(s, 0)[x] is Lit,
    ensures
        spec_expand(s) == seq![s],
{
    let segs = spec_segments(s, 0);
    assert forall|x: int| 0 <= x < segs.len() implies !spec_seg_overflows(#[trigger] segs[x]) by {
        assert(segs[x] is Lit);
    }
    assert(!spec_has_overflow(segs));
    lemma_expand_all_lit(segs);
    lemma_segments_reassemble(s, 0);
    assert(s.subrange(0, s.len() as int) =~= s);
}


/// Pairs every item of the first list with every item of the second, the
/// first list's order outermost.
pub fn product_list<'a, T1, T2>(vec1: &'a Vec<T1>, vec2: &'a Vec<T2>) -> (r: Vec<(&'a T1, &'a T2)>)
    ensures
        r@.len() == vec1@.len() * vec2@.len(),
        forall|i: int|
            0 <= i < r@.len() ==> #[trigger] r@[i] == (
                &vec1@[i / vec2@.len() as int],
                &vec2@[i % vec2@.len() as int],
            ),
{
    let ghost n1 = vec1@.len() as int;
    let ghost n2 = vec2@.len() as int;
    let mut out: Vec<(&'a T1, &'a T2)> = Vec::new();
    let mut i: usize = 0;
    while i < vec1.len()
        invariant
            n1 == vec1@.len(),
            n2 == vec2@.len(),
            i <= vec1@.len(),
            out@.len() == i as int * n2,
            0 <= i as int * n2 <= n1 * n2,
            forall|x: int|
                0 <= x < out@.len() ==> #[trigger] out@[x] == (
                    &vec1@[x / n2],
                    &vec2@[x % n2],
                ),
        decreases vec1@.len() - i,
    {
        proof {
            assert(i as int * n2 + n2 <= n1 * n2 && 0 <= i as int * n2) by (nonlinear_arith)
                requires
                    0 <= i < n1,
                    0 <= n2,
            ;
        }
        let mut j: usize = 0;
        while j < vec2.len()
            invariant
                n1 == vec1@.len(),
                n2 == vec2@.len(),
                i < vec1@.len(),
                j <= vec2@.len(),
                0 <= i as int * n2,
                i as int * n2 + n2 <= n1 * n2,
                out@.len() == i as int * n2 + j as int,
                forall|x: int|
                    0 <= x < out@.len() ==> #[trigger] out@[x] == (
                        &vec1@[x / n2],
                        &vec2@[x % n2],
                    ),
            decreases vec2@.len() - j,
        {
            out.push((&vec1[i], &vec2[j]));
            proof {
                let idx = i as int * n2 + j as int;
                assert(idx / n2 == i as int && idx % n2 == j as int) by (nonlinear_arith)
                    requires
                        0 <= i,
                        0 <= j < n2,
                        idx == i as int * n2 + j as int,
                ;
            }
            j += 1;
        }
        proof {
            assert((i + 1) as int * n2 == i as int * n2 + n2) by (nonlinear_arith);
        }
        i += 1;
    }
    out
}

} // verus!
