use vstd::prelude::*;
use vstd::string::*;

use crate::spec_lookup;
use crate::strutil::{find_sub, spec_match_at, str_eq};

verus! {

/// A template compiled once and rendered against many key maps.
#[derive(Debug, Clone, PartialEq, Eq)]
pub struct TemplateBuilder {
    tokens: Vec<Token>,
}

impl View for TemplateBuilder {
    type V = Seq<SpecToken>;

    closed spec fn view(&self) -> Seq<SpecToken> {
        self.tokens.deep_view()
    }
}

/// One element of a parsed template: literal text, or a `{{key}}` reference.
#[derive(Debug, Clone, PartialEq, Eq)]
pub enum Token {
    PlainText(String),
    Key(String),
}

/// The mathematical form of a token.
pub enum SpecToken {
    Plain(Seq<char>),
    Key(Seq<char>),
}

impl View for Token {
    type V = SpecToken;

    open spec fn view(&self) -> SpecToken {
        match self {
            Token::PlainText(t) => SpecToken::Plain(t@),
            Token::Key(k) => SpecToken::Key(k@),
        }
    }
}

impl DeepView for Token {
    type V = SpecToken;

    open spec fn deep_view(&self) -> SpecToken {
        self.view()
    }
}

/// The first position at or after `from` where `pat` occurs in `s`.
pub open spec fn spec_find(s: Seq<char>, pat: Seq<char>, from: int) -> Option<int>
    decreases s.len() - from,
{
    if from < 0 || pat.len() <= 0 || from + pat.len() > s.len() {
        None
    } else if spec_match_at(s, pat, from) {
        Some(from)
    } else {
        spec_find(s, pat, from + 1)
    }
}

/// The first-occurrence characterization pins down `spec_find`.
pub proof fn lemma_find_agrees(s: Seq<char>, pat: Seq<char>, from: int, r: Option<usize>)
    requires
        0 <= from <= s.len(),
        pat.len() > 0,
        match r {
            Some(i) => from <= i && spec_match_at(s, pat, i as int) && forall|k: int|
                from <= k < i ==> !spec_match_at(s, pat, k),
            None => forall|k: int| from <= k ==> !spec_match_at(s, pat, k),
        },
    ensures
        spec_find(s, pat, from) == match r {
            Some(i) => Some(i as int),
            None => None::<int>,
        },
    decreases s.len() - from,
{
    if from + pat.len() > s.len() {
        if r is Some {
            let i = r->0;
            assert(!spec_match_at(s, pat, i as int));
        }
    } else if spec_match_at(s, pat, from) {
        if r is None {
            assert(!spec_match_at(s, pat, from));
        } else {
            let i = r->0;
            if i > from {
                assert(!spec_match_at(s, pat, from));
            }
        }
    } else {
        lemma_find_agrees(s, pat, from + 1, r);
    }
}

/// The token sequence of the template grammar, read from position `i`:
/// `{{name}}` with a non-empty name becomes a key (a single `}` may appear
/// inside the name; the name ends at the first `}}`); an unmatched or empty
/// `{{` becomes the literal `{{`; any other text up to the next `{{` is a
/// literal run.
pub open spec fn spec_parse_from(s: Seq<char>, i: int) -> Seq<SpecToken>
    decreases s.len() - i,
        via spec_parse_from_decreases
{
    if i < 0 || i >= s.len() {
        Seq::empty()
    } else if spec_match_at(s, "{{"@, i) {
        match spec_find(s, "}}"@, i + 2) {
            Some(j) => if j > i + 2 {
                seq![SpecToken::Key(s.subrange(i + 2, j))] + spec_parse_from(s, j + 2)
            } else {
                seq![SpecToken::Plain("{{"@)] + spec_parse_from(s, i + 2)
            },
            None => seq![SpecToken::Plain("{{"@)] + spec_parse_from(s, i + 2),
        }
    } else {
        match spec_find(s, "{{"@, i) {
            Some(k) => seq![SpecToken::Plain(s.subrange(i, k))] + spec_parse_from(s, k),
            None => seq![SpecToken::Plain(s.subrange(i, s.len() as int))],
        }
    }
}

/// The token sequence of a whole template string.
pub open spec fn spec_parse(s: Seq<char>) -> Seq<SpecToken> {
    spec_parse_from(s, 0)
}

#[via_fn]
proof fn spec_parse_from_decreases(s: Seq<char>, i: int) {
    reveal_strlit("{{");
    reveal_strlit("}}");
    if 0 <= i < s.len() {
        lemma_find_in_range(s, "}}"@, i + 2);
        lemma_find_in_range(s, "{{"@, i);
    }
}

proof fn lemma_find_in_range(s: Seq<char>, pat: Seq<char>, from: int)
    requires
        0 <= from,
        pat.len() > 0,
    ensures
        match spec_find(s, pat, from) {
            Some(j) => from <= j && j + pat.len() <= s.len() && spec_match_at(s, pat, j),
            None => true,
        },
    decreases s.len() - from,
{
    if from + pat.len() > s.len() {
    } else if spec_match_at(s, pat, from) {
    } else {
        lemma_find_in_range(s, pat, from + 1);
    }
}

/// Parses a template string into tokens. Only the empty string is
/// unparseable: the grammar requires at least one token.
pub fn parse_to_token(target: &str) -> (r: Result<Vec<Token>, String>)
    ensures
        match r {
            Ok(tokens) => target@.len() > 0 && tokens.deep_view() == spec_parse(target@),
            Err(e) => target@.len() == 0 && e@ == "failed to parse template string: "@ + target@,
        },
{
    proof {
        reveal_strlit("{{");
        reveal_strlit("}}");
    }
    let slen = target.unicode_len();
    if slen == 0 {
        let mut msg = String::new();
        msg.append("failed to parse template string: ");
        msg.append(target);
        proof {
            assert(msg@ =~= "failed to parse template string: "@ + target@);
        }
        return Err(msg);
    }
    let mut tokens: Vec<Token> = Vec::new();
    let mut i: usize = 0;
    while i < slen
        invariant
            slen == target@.len(),
            i <= slen,
            tokens.deep_view() + spec_parse_from(target@, i as int) == spec_parse(target@),
            "{{"@.len() == 2,
            "}}"@.len() == 2,
        decreases slen - i,
    {
        let ghost prefix = tokens.deep_view();
        let opens = if slen - i >= 2 {
            let h = find_sub(target, "{{", i);
            proof {
                lemma_find_agrees(target@, "{{"@, i as int, h);
            }
            h
        } else {
            proof {
                assert forall|k: int| i <= k implies !spec_match_at(target@, "{{"@, k) by {
                    assert(k + 2 > slen);
                }
                lemma_find_agrees(target@, "{{"@, i as int, None);
            }
            None
        };
        let starts_with_open = match opens {
            Some(k) => k == i,
            None => false,
        };
        if starts_with_open {
            // a `{{` here: try to read a key up to the first `}}`
            let close = find_sub(target, "}}", i + 2);
            proof {
                lemma_find_agrees(target@, "}}"@, i as int + 2, close);
            }
            match close {
                Some(j) if j > i + 2 => {
                    let name = target.substring_char(i + 2, j).to_owned();
                    tokens.push(Token::Key(name));
                    proof {
                        assert(tokens.deep_view() =~= prefix + seq![
                            SpecToken::Key(target@.subrange(i as int + 2, j as int)),
                        ]);
                        assert(tokens.deep_view() + spec_parse_from(target@, j as int + 2)
                            =~= spec_parse(target@));
                    }
                    i = j + 2;
                },
                _ => {
                    tokens.push(Token::PlainText(String::from_str("{{")));
                    proof {
                        assert(tokens.deep_view() =~= prefix + seq![SpecToken::Plain("{{"@)]);
                        assert(tokens.deep_view() + spec_parse_from(target@, i as int + 2)
                            =~= spec_parse(target@));
                    }
                    i = i + 2;
                },
            }
        } else {
            // a literal run up to the next `{{`, or to the end
            let run_end = match opens {
                Some(k) => k,
                None => slen,
            };
            proof {
                lemma_find_in_range(target@, "{{"@, i as int);
            }
            let text = target.substring_char(i, run_end).to_owned();
            tokens.push(Token::PlainText(text));
            proof {
                assert(tokens.deep_view() =~= prefix + seq![
                    SpecToken::Plain(target@.subrange(i as int, run_end as int)),
                ]);
                assert(tokens.deep_view() + spec_parse_from(target@, run_end as int)
                    =~= spec_parse(target@));
            }
            i = run_end;
        }
    }
    proof {
        assert(tokens.deep_view() =~= spec_parse(target@));
    }
    Ok(tokens)
}


/// Rendering walks the tokens in order; a key is replaced by its value in
/// the map, and the first key without a value aborts with an error message.
pub open spec fn spec_render(
    tokens: Seq<SpecToken>,
    m: Seq<(Seq<char>, Seq<char>)>,
) -> Result<Seq<char>, Seq<char>>
    decreases tokens.len(),
{
    if tokens.len() == 0 {
        Ok(Seq::empty())
    } else {
        match tokens[0] {
            SpecToken::Plain(t) => match spec_render(tokens.subrange(1, tokens.len() as int), m) {
                Ok(rest) => Ok(t + rest),
                Err(e) => Err(e),
            },
            SpecToken::Key(k) => match spec_lookup(m, k) {
                None => Err("could not find value: "@ + k),
                Some(v) => match spec_render(tokens.subrange(1, tokens.len() as int), m) {
                    Ok(rest) => Ok(v + rest),
                    Err(e) => Err(e),
                },
            },
        }
    }
}

/// Looks a key up in an association list; the entry added last wins.
pub fn lookup_value<'a>(m: &'a Vec<(String, String)>, k: &str) -> (r: Option<&'a String>)
    ensures
        match r {
            Some(v) => spec_lookup(m.deep_view(), k@) == Some(v@),
            None => spec_lookup(m.deep_view(), k@) is None,
        },
{
    let ghost full = m.deep_view();
    proof {
        assert(full.subrange(0, m@.len() as int) =~= full);
    }
    let mut i: usize = m.len();
    while i > 0
        invariant
            i <= m.len(),
            full == m.deep_view(),
            spec_lookup(full, k@) == spec_lookup(full.subrange(0, i as int), k@),
        decreases i,
    {
        let ghost upto = full.subrange(0, i as int);
        proof {
            assert(upto.last() == full[i - 1]);
            assert(full[i - 1] == (m@[i - 1].0@, m@[i - 1].1@));
            assert(upto.drop_last() =~= full.subrange(0, i - 1));
        }
        if str_eq(m[i - 1].0.as_str(), k) {
            return Some(&m[i - 1].1);
        }
        i -= 1;
    }
    proof {
        assert(full.subrange(0, 0) =~= Seq::<(Seq<char>, Seq<char>)>::empty());
    }
    None
}

impl TemplateBuilder {
    /// Compiles a template; the only unparseable template is the empty one.
    pub fn parse(target: &str) -> (r: Result<TemplateBuilder, String>)
        ensures
            match r {
                Ok(b) => target@.len() > 0 && b@ == spec_parse(target@),
                Err(e) => target@.len() == 0 && e@ == "failed to parse template string: "@
                    + target@,
            },
    {
        match parse_to_token(target) {
            Ok(tokens) => Ok(TemplateBuilder { tokens }),
            Err(e) => Err(e),
        }
    }

    /// Compiles a template known to be non-empty.
    pub fn new(target: &str) -> (r: TemplateBuilder)
        requires
            target@.len() > 0,
        ensures
            r@ == spec_parse(target@),
    {
        match parse_to_token(target) {
            Ok(tokens) => TemplateBuilder { tokens },
            Err(_) => vstd::pervasive::unreached(),
        }
    }

    /// Renders the template against a key map.
    pub fn build_string(&self, key_map: &Vec<(String, String)>) -> (r: Result<String, String>)
        ensures
            match r {
                Ok(s) => spec_render(self@, key_map.deep_view()) == Ok::<_, Seq<char>>(s@),
                Err(e) => spec_render(self@, key_map.deep_view()) == Err::<Seq<char>, _>(e@),
            },
    {
        let ghost toks = self@;
        let ghost m = key_map.deep_view();
        let len = self.tokens.len();
        proof {
            assert(toks.subrange(0, toks.len() as int) =~= toks);
        }
        let mut built = String::new();
        let mut t: usize = 0;
        while t < len
            invariant
                len == self.tokens.len(),
                toks == self@,
                m == key_map.deep_view(),
                t <= len,
                toks.len() == len,
                spec_render(toks, m) == match spec_render(
                    toks.subrange(t as int, len as int),
                    m,
                ) {
                    Ok(rest) => Ok::<Seq<char>, Seq<char>>(built@ + rest),
                    Err(e) => Err::<Seq<char>, Seq<char>>(e),
                },
            decreases len - t,
        {
            let ghost suf = toks.subrange(t as int, len as int);
            proof {
                assert(suf[0] == toks[t as int]);
                assert(suf.subrange(1, suf.len() as int) =~= toks.subrange(
                    t as int + 1,
                    len as int,
                ));
                assert(self.tokens@[t as int].deep_view() == toks[t as int]);
            }
            match &self.tokens[t] {
                Token::PlainText(text) => {
                    built.append(text.as_str());
                },
                Token::Key(key) => {
                    match lookup_value(key_map, key.as_str()) {
                        Some(v) => {
                            built.append(v.as_str());
                        },
                        None => {
                            let mut msg = String::new();
                            msg.append("could not find value: ");
                            msg.append(key.as_str());
                            proof {
                                assert(msg@ =~= "could not find value: "@ + key@);
                            }
                            return Err(msg);
                        },
                    }
                },
            }
            proof {
                let rest = spec_render(toks.subrange(t as int + 1, len as int), m);
                if rest is Ok {
                    assert(spec_render(toks, m) is Ok);
                    assert(spec_render(toks, m)->Ok_0 =~= built@ + rest->Ok_0);
                }
            }
            t += 1;
        }
        proof {
            assert(toks.subrange(len as int, len as int) =~= Seq::<SpecToken>::empty());
            assert(spec_render(toks, m) == Ok::<Seq<char>, Seq<char>>(built@ + Seq::empty()));
            assert(built@ + Seq::<char>::empty() =~= built@);
        }
        Ok(built)
    }
}

/// The source text a token stands for.
pub open spec fn spec_token_source(t: SpecToken) -> Seq<char> {
    match t {
        SpecToken::Plain(p) => p,
        SpecToken::Key(k) => "{{"@ + k + "}}"@,
    }
}

/// The concatenated source text of a token sequence.
pub open spec fn spec_sources(ts: Seq<SpecToken>) -> Seq<char>
    decreases ts.len(),
{
    if ts.len() == 0 {
        Seq::empty()
    } else {
        spec_token_source(ts[0]) + spec_sources(ts.subrange(1, ts.len() as int))
    }
}

/// The key map that sends each key reference back to its `{{name}}` form.
pub open spec fn spec_key_refs(ts: Seq<SpecToken>) -> Seq<(Seq<char>, Seq<char>)>
    decreases ts.len(),
{
    if ts.len() == 0 {
        Seq::empty()
    } else {
        let rest = spec_key_refs(ts.subrange(1, ts.len() as int));
        match ts[0] {
            SpecToken::Key(k) => seq![(k, "{{"@ + k + "}}"@)] + rest,
            SpecToken::Plain(_) => rest,
        }
    }
}

/// Parsing loses nothing: the tokens reassemble to the input.
proof fn lemma_parse_reassembles(s: Seq<char>, i: int)
    requires
        0 <= i <= s.len(),
    ensures
        spec_sources(spec_parse_from(s, i)) == s.subrange(i, s.len() as int),
    decreases s.len() - i,
{
    reveal_strlit("{{");
    reveal_strlit("}}");
    let tail = s.subrange(i, s.len() as int);
    if i >= s.len() {
        assert(tail =~= Seq::<char>::empty());
    } else if spec_match_at(s, "{{"@, i) {
        lemma_find_in_range(s, "}}"@, i + 2);
        match spec_find(s, "}}"@, i + 2) {
            Some(j) => {
                if j > i + 2 {
                    lemma_parse_reassembles(s, j + 2);
                    let ts = spec_parse_from(s, i);
                    assert(ts[0] == SpecToken::Key(s.subrange(i + 2, j)));
                    assert(ts.subrange(1, ts.len() as int) =~= spec_parse_from(s, j + 2));
                    assert(s.subrange(i, i + 2) =~= "{{"@);
                    assert(s.subrange(j, j + 2) =~= "}}"@);
                    assert(spec_sources(ts) =~= s.subrange(i, i + 2) + s.subrange(i + 2, j)
                        + s.subrange(j, j + 2) + s.subrange(j + 2, s.len() as int));
                    assert(spec_sources(ts) =~= tail);
                } else {
                    lemma_parse_reassembles(s, i + 2);
                    let ts = spec_parse_from(s, i);
                    assert(ts.subrange(1, ts.len() as int) =~= spec_parse_from(s, i + 2));
                    assert(s.subrange(i, i + 2) =~= "{{"@);
                    assert(spec_sources(ts) =~= tail);
                }
            },
            None => {
                lemma_parse_reassembles(s, i + 2);
                let ts = spec_parse_from(s, i);
                assert(ts.subrange(1, ts.len() as int) =~= spec_parse_from(s, i + 2));
                assert(s.subrange(i, i + 2) =~= "{{"@);
                assert(spec_sources(ts) =~= tail);
            },
        }
    } else {
        lemma_find_in_range(s, "{{"@, i);
        match spec_find(s, "{{"@, i) {
            Some(k) => {
                assert(k != i);
                lemma_parse_reassembles(s, k);
                let ts = spec_parse_from(s, i);
                assert(ts.subrange(1, ts.len() as int) =~= spec_parse_from(s, k));
                assert(spec_sources(ts) =~= tail);
            },
            None => {
                let ts = spec_parse_from(s, i);
                assert(ts[0] == SpecToken::Plain(s.subrange(i, s.len() as int)));
                assert(ts.subrange(1, ts.len() as int) =~= Seq::<SpecToken>::empty());
                assert(spec_sources(Seq::<SpecToken>::empty()) =~= Seq::<char>::empty());
                assert(spec_sources(ts) =~= tail);
            },
        }
    }
}

/// In a map whose every value wraps its key, a present key looks up to
/// its wrapped form.
proof fn lemma_lookup_wrapped(m: Seq<(Seq<char>, Seq<char>)>, k: Seq<char>)
    requires
        forall|idx: int| 0 <= idx < m.len() ==> m[idx].1 == "{{"@ + m[idx].0 + "}}"@,
        exists|idx: int| 0 <= idx < m.len() && m[idx].0 == k,
    ensures
        spec_lookup(m, k) == Some("{{"@ + k + "}}"@),
    decreases m.len(),
{
    if m.last().0 == k {
        assert(m[m.len() - 1].1 == "{{"@ + k + "}}"@);
    } else {
        let idx = choose|idx: int| 0 <= idx < m.len() && m[idx].0 == k;
        assert(m.drop_last()[idx] == m[idx]);
        lemma_lookup_wrapped(m.drop_last(), k);
    }
}

/// Every pair in the key-reference map wraps its key, and every key token
/// of the sequence has an entry.
proof fn lemma_key_refs_facts(ts: Seq<SpecToken>)
    ensures
        forall|idx: int|
            0 <= idx < spec_key_refs(ts).len() ==> spec_key_refs(ts)[idx].1 == "{{"@
                + spec_key_refs(ts)[idx].0 + "}}"@,
        forall|j: int|
            0 <= j < ts.len() && ts[j] is Key ==> exists|idx: int|
                0 <= idx < spec_key_refs(ts).len() && spec_key_refs(ts)[idx].0 == ts[j]->Key_0,
    decreases ts.len(),
{
    if ts.len() > 0 {
        let rest = ts.subrange(1, ts.len() as int);
        lemma_key_refs_facts(rest);
        let refs = spec_key_refs(ts);
        let rrefs = spec_key_refs(rest);
        match ts[0] {
            SpecToken::Key(k) => {
                assert(refs == seq![(k, "{{"@ + k + "}}"@)] + rrefs);
                assert forall|j: int| 0 <= j < ts.len() && ts[j] is Key implies exists|idx: int|
                    0 <= idx < refs.len() && refs[idx].0 == ts[j]->Key_0 by {
                    if j == 0 {
                        assert(refs[0].0 == k);
                    } else {
                        assert(rest[j - 1] == ts[j]);
                        let ridx = choose|ridx: int|
                            0 <= ridx < rrefs.len() && rrefs[ridx].0 == rest[j - 1]->Key_0;
                        assert(refs[ridx + 1] == rrefs[ridx]);
                    }
                }
            },
            SpecToken::Plain(_) => {
                assert(refs == rrefs);
                assert forall|j: int| 0 <= j < ts.len() && ts[j] is Key implies exists|idx: int|
                    0 <= idx < refs.len() && refs[idx].0 == ts[j]->Key_0 by {
                    assert(j != 0);
                    assert(rest[j - 1] == ts[j]);
                    let ridx = choose|ridx: int|
                        0 <= ridx < rrefs.len() && rrefs[ridx].0 == rest[j - 1]->Key_0;
                    assert(refs[ridx] == rrefs[ridx]);
                }
            },
        }
    }
}

/// Rendering against a map that resolves every key of the sequence to its
/// wrapped form reproduces the source text.
proof fn lemma_render_sources(ts: Seq<SpecToken>, m: Seq<(Seq<char>, Seq<char>)>)
    requires
        forall|j: int|
            0 <= j < ts.len() && ts[j] is Key ==> spec_lookup(m, ts[j]->Key_0) == Some(
                "{{"@ + ts[j]->Key_0 + "}}"@,
            ),
    ensures
        spec_render(ts, m) == Ok::<Seq<char>, Seq<char>>(spec_sources(ts)),
    decreases ts.len(),
{
    if ts.len() > 0 {
        let rest = ts.subrange(1, ts.len() as int);
        assert forall|j: int| 0 <= j < rest.len() && rest[j] is Key implies spec_lookup(
            m,
            rest[j]->Key_0,
        ) == Some("{{"@ + rest[j]->Key_0 + "}}"@) by {
            assert(rest[j] == ts[j + 1]);
        }
        lemma_render_sources(rest, m);
        match ts[0] {
            SpecToken::Key(k) => {
                assert(ts[0] is Key);
                assert(spec_lookup(m, k) == Some("{{"@ + k + "}}"@));
            },
            SpecToken::Plain(_) => {},
        }
    }
}

/// Template round-trip: parsing a template and rendering the tokens with
/// the key map that sends each key reference back to its `{{name}}` form
/// yields the original string. With this grammar no literal token can hold
/// a complete `{{name}}` reference, so the law carries no side condition.
pub proof fn theorem_template_round_trip(s: Seq<char>)
    ensures
        spec_render(spec_parse(s), spec_key_refs(spec_parse(s))) == Ok::<Seq<char>, Seq<char>>(s),
{
    let ts = spec_parse(s);
    let m = spec_key_refs(ts);
    lemma_parse_reassembles(s, 0);
    assert(s.subrange(0, s.len() as int) =~= s);
    lemma_key_refs_facts(ts);
    assert forall|j: int| 0 <= j < ts.len() && ts[j] is Key implies spec_lookup(
        m,
        ts[j]->Key_0,
    ) == Some("{{"@ + ts[j]->Key_0 + "}}"@) by {
        lemma_lookup_wrapped(m, ts[j]->Key_0);
    }
    lemma_render_sources(ts, m);
}

} // verus!
