use vstd::prelude::*;
use vstd::string::*;

use crate::expand::{spec_expand, try_expand_numeric_list};
use crate::logger::{spec_level_rank, LogLevel};
use crate::persist::{sink_with_name, spec_file_name, spec_with_file_name, PersistMethod, SpecPersistMethod};
use crate::request::{CrawlerRequest, Encoding, Method, SpecCrawlerRequest};
use crate::strutil::clone_pairs;
use crate::task::{RavenCrawlTask, SpecRavenCrawlTask};
use crate::template::{spec_parse, spec_render, SpecToken, TemplateBuilder};
use crate::timefmt::{format_timestamp, now_timestamp, strftime_of, Timestamp};

verus! {

/// Where the run's log file goes, and how verbose it is.
#[derive(Debug, PartialEq, Eq, Clone)]
pub struct FileLogConfig {
    pub path: String,
    pub level: LogLevel,
}

/// The search backend that receives metric records.
#[derive(Debug, PartialEq, Eq, Clone)]
pub struct EsConfig {
    pub endpoint: String,
}

/// The run's logging: a file, and optionally a search backend.
#[derive(Debug, PartialEq, Eq, Clone)]
pub struct LogConfig {
    pub file: FileLogConfig,
    pub elasticsearch: Option<EsConfig>,
}

/// A notification destination, tagged with the minimum severity it
/// subscribes to.
#[derive(Debug, PartialEq, Eq, Clone)]
pub enum NotifyMethod {
    Slack { url: String, channel: String, mention: Option<String>, level: LogLevel },
}

impl NotifyMethod {
    /// Whether this destination subscribes to the given severity: its
    /// configured level is the minimum severity it subscribes to.
    pub fn matches_level(&self, notify_level: LogLevel) -> (r: bool)
        ensures
            r == match self {
                NotifyMethod::Slack { level, .. } => spec_level_rank(*level) <= spec_level_rank(
                    notify_level,
                ),
            },
    {
        match self {
            NotifyMethod::Slack { level, .. } => level.rank() <= notify_level.rank(),
        }
    }
}

/// The templated request of a configuration, before expansion.
#[derive(Debug, PartialEq, Clone)]
pub struct RavenRequest {
    pub url: String,
    pub method: Method,
    pub headers: Vec<(String, String)>,
    pub vars: Vec<Vec<(String, Vec<String>)>>,
    pub encoding: Option<Encoding>,
    pub timeout_in_seconds: u8,
    pub max_retry: u8,
    pub params: Vec<Vec<(String, Vec<String>)>>,
    pub sleep_seconds: Option<u16>,
}

/// The mathematical form of a templated request.
pub struct SpecRavenRequest {
    pub url: Seq<char>,
    pub method: Method,
    pub headers: Seq<(Seq<char>, Seq<char>)>,
    pub vars: Seq<Seq<(Seq<char>, Seq<Seq<char>>)>>,
    pub encoding: Option<Encoding>,
    pub timeout_in_seconds: u8,
    pub max_retry: u8,
    pub params: Seq<Seq<(Seq<char>, Seq<Seq<char>>)>>,
    pub sleep_seconds: Option<u16>,
}

impl View for RavenRequest {
    type V = SpecRavenRequest;

    open spec fn view(&self) -> SpecRavenRequest {
        SpecRavenRequest {
            url: self.url@,
            method: self.method,
            headers: self.headers.deep_view(),
            vars: self.vars.deep_view(),
            encoding: self.encoding,
            timeout_in_seconds: self.timeout_in_seconds,
            max_retry: self.max_retry,
            params: self.params.deep_view(),
            sleep_seconds: self.sleep_seconds,
        }
    }
}

/// One whole run: what to fetch, where to put it, whom to tell.
#[derive(Debug, PartialEq, Clone)]
pub struct RavenConfig {
    pub name: String,
    pub request: RavenRequest,
    pub notify: Vec<NotifyMethod>,
    pub output: Vec<PersistMethod>,
    pub max_threads: u16,
    pub log: LogConfig,
}

/// The default worker parallelism.
pub fn default_max_threads() -> (r: u16)
    ensures
        r == 1,
{
    1
}

/// The default per-attempt timeout, in seconds.
pub fn default_timeout() -> (r: u8)
    ensures
        r == 1,
{
    1
}

/// An ordered key-to-value map, as rendered values for one task.
pub type SpecStrMap = Seq<(Seq<char>, Seq<char>)>;

/// One `vars` or `params` entry: keys with their value templates.
pub type SpecEntry = Seq<(Seq<char>, Seq<Seq<char>>)>;

/// A template string formatted at the run's instant.
pub open spec fn spec_format_at(fmt: Seq<char>, now: Timestamp) -> Option<Seq<char>> {
    strftime_of(fmt, now.millis, now.offset_seconds)
}

/// The error every date-formatting failure reports.
pub open spec fn spec_date_error() -> Seq<char> {
    "failed to format date directives"@
}

/// One value template, date-formatted and then range-expanded.
pub open spec fn spec_value_expansion(v: Seq<char>, now: Timestamp) -> Option<Seq<Seq<char>>> {
    match spec_format_at(v, now) {
        None => None,
        Some(f) => Some(spec_expand(f)),
    }
}

/// All values of one key: its templates' expansions, concatenated.
pub open spec fn spec_key_values(values: Seq<Seq<char>>, now: Timestamp) -> Option<Seq<Seq<char>>>
    decreases values.len(),
{
    if values.len() == 0 {
        Some(Seq::empty())
    } else {
        match spec_value_expansion(values[0], now) {
            None => None,
            Some(vs) => match spec_key_values(values.subrange(1, values.len() as int), now) {
                None => None,
                Some(rest) => Some(vs + rest),
            },
        }
    }
}

/// Extends every map in `acc` with one binding of `key`, every value
/// once, keeping the accumulated maps' order outermost.
pub open spec fn spec_cross_maps(acc: Seq<SpecStrMap>, key: Seq<char>, vals: Seq<Seq<char>>) -> Seq<
    SpecStrMap,
> {
    Seq::new(
        acc.len() * vals.len(),
        |idx: int| seq![(key, vals[idx % vals.len() as int])] + acc[idx / vals.len() as int],
    )
}

/// Folds the keys of one entry into the cross product of their values.
pub open spec fn spec_fold_keys(
    entry: SpecEntry,
    now: Timestamp,
    i: int,
    acc: Seq<SpecStrMap>,
) -> Option<Seq<SpecStrMap>>
    decreases entry.len() - i,
{
    if i < 0 || i >= entry.len() {
        Some(acc)
    } else {
        match spec_key_values(entry[i].1, now) {
            None => None,
            Some(vals) => spec_fold_keys(entry, now, i + 1, spec_cross_maps(acc, entry[i].0, vals)),
        }
    }
}

/// The maps one entry stands for: the cross product across its keys.
pub open spec fn spec_entry_maps(entry: SpecEntry, now: Timestamp) -> Option<Seq<SpecStrMap>> {
    spec_fold_keys(entry, now, 0, seq![Seq::<(Seq<char>, Seq<char>)>::empty()])
}

/// The maps of all entries, concatenated: entries are alternatives.
pub open spec fn spec_maps_concat(entries: Seq<SpecEntry>, now: Timestamp, i: int) -> Option<
    Seq<SpecStrMap>,
>
    decreases entries.len() - i,
{
    if i < 0 || i >= entries.len() {
        Some(Seq::empty())
    } else {
        match spec_entry_maps(entries[i], now) {
            None => None,
            Some(ms) => match spec_maps_concat(entries, now, i + 1) {
                None => None,
                Some(rest) => Some(ms + rest),
            },
        }
    }
}

/// The map list of `vars` or `params`: all entries' maps, or the single
/// empty map when they yield none.
pub open spec fn spec_maps_list(entries: Seq<SpecEntry>, now: Timestamp) -> Option<
    Seq<SpecStrMap>,
> {
    match spec_maps_concat(entries, now, 0) {
        None => None,
        Some(l) => Some(
            if l.len() == 0 {
                seq![Seq::<(Seq<char>, Seq<char>)>::empty()]
            } else {
                l
            },
        ),
    }
}

/// Each sink paired with its compiled file-name template.
pub open spec fn spec_sink_templates(
    outputs: Seq<SpecPersistMethod>,
    now: Timestamp,
    i: int,
) -> Result<Seq<(SpecPersistMethod, Seq<SpecToken>)>, Seq<char>>
    decreases outputs.len() - i,
{
    if i < 0 || i >= outputs.len() {
        Ok(Seq::empty())
    } else {
        match spec_format_at(spec_file_name(outputs[i]), now) {
            None => Err(spec_date_error()),
            Some(f) => if f.len() == 0 {
                Err("failed to parse template string: "@ + f)
            } else {
                match spec_sink_templates(outputs, now, i + 1) {
                    Err(e) => Err(e),
                    Ok(rest) => Ok(seq![(outputs[i], spec_parse(f))] + rest),
                }
            },
        }
    }
}

/// Each sink with its file name rendered against one task's map.
pub open spec fn spec_render_sinks(
    sinks: Seq<(SpecPersistMethod, Seq<SpecToken>)>,
    m: SpecStrMap,
    i: int,
) -> Result<Seq<SpecPersistMethod>, Seq<char>>
    decreases sinks.len() - i,
{
    if i < 0 || i >= sinks.len() {
        Ok(Seq::empty())
    } else {
        match spec_render(sinks[i].1, m) {
            Err(e) => Err(e),
            Ok(name) => match spec_render_sinks(sinks, m, i + 1) {
                Err(e) => Err(e),
                Ok(rest) => Ok(seq![spec_with_file_name(sinks[i].0, name)] + rest),
            },
        }
    }
}

/// One concrete task, rendered from one `(v, p)` pair of the expansion
/// sets: the URL and every sink name are rendered against `v` merged
/// with `p` (`p` wins on shared keys), and `p` becomes the query
/// parameters of a GET or the body parameters of a POST.
pub open spec fn spec_make_task(
    req: SpecRavenRequest,
    url_tokens: Seq<SpecToken>,
    sinks: Seq<(SpecPersistMethod, Seq<SpecToken>)>,
    v: SpecStrMap,
    p: SpecStrMap,
) -> Result<SpecRavenCrawlTask, Seq<char>> {
    let merged = v + p;
    match spec_render(url_tokens, merged) {
        Err(e) => Err(e),
        Ok(url) => match spec_render_sinks(sinks, merged, 0) {
            Err(e) => Err(e),
            Ok(rsinks) => Ok(
                SpecRavenCrawlTask {
                    request: SpecCrawlerRequest {
                        url: url,
                        method: req.method,
                        header: req.headers,
                        encoding_setting: req.encoding,
                        timeout: req.timeout_in_seconds,
                        max_retry: req.max_retry,
                        query_params: if req.method is Get {
                            p
                        } else {
                            Seq::empty()
                        },
                        body_params: if req.method is Post {
                            p
                        } else {
                            Seq::empty()
                        },
                        sleep: req.sleep_seconds,
                    },
                    persist_methods: rsinks,
                },
            ),
        },
    }
}

/// The tasks of the cross product `vars x params`, from pair `t` on, in
/// order: the pair of task `t` is `(vars[t / |params|], params[t % |params|])`.
pub open spec fn spec_tasks_product(
    req: SpecRavenRequest,
    url_tokens: Seq<SpecToken>,
    sinks: Seq<(SpecPersistMethod, Seq<SpecToken>)>,
    vars: Seq<SpecStrMap>,
    params: Seq<SpecStrMap>,
    t: int,
) -> Result<Seq<SpecRavenCrawlTask>, Seq<char>>
    decreases vars.len() * params.len() - t,
{
    let n = vars.len() * params.len();
    if t < 0 || t >= n {
        Ok(Seq::empty())
    } else {
        let v = vars[t / params.len() as int];
        let p = params[t % params.len() as int];
        match spec_make_task(req, url_tokens, sinks, v, p) {
            Err(e) => Err(e),
            Ok(task) => match spec_tasks_product(req, url_tokens, sinks, vars, params, t + 1) {
                Err(e) => Err(e),
                Ok(rest) => Ok(seq![task] + rest),
            },
        }
    }
}

/// What task expansion yields for a configuration at an instant: the
/// cross product's tasks in order, or the first error met while date
/// formatting, compiling a template, or rendering.
pub open spec fn spec_create_tasks(cfg: &RavenConfig, now: Timestamp) -> Result<
    Seq<SpecRavenCrawlTask>,
    Seq<char>,
> {
    match spec_format_at(cfg.request@.url, now) {
        None => Err(spec_date_error()),
        Some(url_fmt) => if url_fmt.len() == 0 {
            Err("failed to parse template string: "@ + url_fmt)
        } else {
            match spec_sink_templates(cfg.output.deep_view(), now, 0) {
                Err(e) => Err(e),
                Ok(sinks) => match spec_maps_list(cfg.request@.vars, now) {
                    None => Err(spec_date_error()),
                    Some(vars) => match spec_maps_list(cfg.request@.params, now) {
                        None => Err(spec_date_error()),
                        Some(params) => spec_tasks_product(
                            cfg.request@,
                            spec_parse(url_fmt),
                            sinks,
                            vars,
                            params,
                            0,
                        ),
                    },
                },
            }
        },
    }
}

/// The view of an expansion outcome.
pub open spec fn tasks_result_view(r: &Result<Vec<RavenCrawlTask>, String>) -> Result<
    Seq<SpecRavenCrawlTask>,
    Seq<char>,
> {
    match r {
        Ok(ts) => Ok(ts.deep_view()),
        Err(e) => Err(e@),
    }
}


fn format_or_err(fmt: &str, now: Timestamp) -> (r: Result<String, String>)
    ensures
        match r {
            Ok(f) => spec_format_at(fmt@, now) == Some(f@),
            Err(e) => spec_format_at(fmt@, now) is None && e@ == spec_date_error(),
        },
{
    match format_timestamp(fmt, now) {
        Some(f) => Ok(f),
        None => Err(String::from_str("failed to format date directives")),
    }
}

/// All values of one key: each template date-formatted, then
/// range-expanded, concatenated in order.
fn key_values_at(values: &Vec<String>, now: Timestamp) -> (r: Result<Vec<String>, String>)
    ensures
        match r {
            Ok(vs) => spec_key_values(values.deep_view(), now) == Some(vs.deep_view()),
            Err(e) => spec_key_values(values.deep_view(), now) is None && e@ == spec_date_error(),
        },
{
    let ghost vv = values.deep_view();
    let mut out: Vec<String> = Vec::new();
    let mut i: usize = 0;
    proof {
        assert(vv.subrange(0, vv.len() as int) =~= vv);
    }
    while i < values.len()
        invariant
            vv == values.deep_view(),
            vv.len() == values@.len(),
            i <= values@.len(),
            spec_key_values(vv, now) == match spec_key_values(
                vv.subrange(i as int, vv.len() as int),
                now,
            ) {
                None => None::<Seq<Seq<char>>>,
                Some(rest) => Some(out.deep_view() + rest),
            },
        decreases values@.len() - i,
    {
        let ghost suf = vv.subrange(i as int, vv.len() as int);
        proof {
            assert(suf[0] == vv[i as int]);
            assert(suf.subrange(1, suf.len() as int) =~= vv.subrange(i + 1, vv.len() as int));
            assert(vv[i as int] == values@[i as int]@);
        }
        let formatted = match format_or_err(values[i].as_str(), now) {
            Ok(f) => f,
            Err(e) => {
                return Err(e);
            },
        };
        let expanded = try_expand_numeric_list(formatted.as_str());
        let ghost prev = out.deep_view();
        let ghost exp = expanded.deep_view();
        let mut j: usize = 0;
        while j < expanded.len()
            invariant
                exp == expanded.deep_view(),
                exp.len() == expanded@.len(),
                j <= expanded@.len(),
                out.deep_view() == prev + exp.subrange(0, j as int),
            decreases expanded@.len() - j,
        {
            let ghost mid = out.deep_view();
            out.push(expanded[j].clone());
            proof {
                let whole = prev + exp.subrange(0, j + 1);
                assert(out@.len() == mid.len() + 1);
                assert(out.deep_view().len() == mid.len() + 1);
                assert(whole.len() == mid.len() + 1);
                assert forall|x: int| 0 <= x < mid.len() + 1 implies out.deep_view()[x]
                    == whole[x] by {
                    if x < mid.len() {
                        assert(out.deep_view()[x] == mid[x]);
                        assert(mid[x] == (prev + exp.subrange(0, j as int))[x]);
                        if x < prev.len() {
                            assert(whole[x] == prev[x]);
                        } else {
                            assert(mid[x] == exp.subrange(0, j as int)[x - prev.len()]);
                            assert(whole[x] == exp.subrange(0, j + 1)[x - prev.len()]);
                        }
                    } else {
                        assert(out.deep_view()[x] == exp[j as int]);
                        assert(whole[x] == exp.subrange(0, j + 1)[j as int]);
                    }
                }
                assert(out.deep_view() =~= whole);
            }
            j += 1;
        }
        proof {
            assert(exp.subrange(0, exp.len() as int) =~= exp);
            assert(out.deep_view() =~= prev + exp);
            let rest = spec_key_values(vv.subrange(i + 1, vv.len() as int), now);
            if rest is Some {
                assert(prev + (exp + rest->0) =~= (prev + exp) + rest->0);
            }
        }
        i += 1;
    }
    proof {
        assert(vv.subrange(vv.len() as int, vv.len() as int) =~= Seq::<Seq<char>>::empty());
        assert(out.deep_view() + Seq::<Seq<char>>::empty() =~= out.deep_view());
    }
    Ok(out)
}

/// The maps one `vars` or `params` entry stands for: for each key the
/// values of its templates, then the cross product across the keys.
pub fn parse_key_value_map_at(entry: &Vec<(String, Vec<String>)>, now: Timestamp) -> (r: Result<
    Vec<Vec<(String, String)>>,
    String,
>)
    ensures
        match r {
            Ok(ms) => spec_entry_maps(entry.deep_view(), now) == Some(ms.deep_view()),
            Err(e) => spec_entry_maps(entry.deep_view(), now) is None && e@ == spec_date_error(),
        },
{
    let ghost ev = entry.deep_view();
    let mut acc: Vec<Vec<(String, String)>> = Vec::new();
    acc.push(Vec::new());
    let mut i: usize = 0;
    proof {
        assert(acc.deep_view() =~~= seq![Seq::<(Seq<char>, Seq<char>)>::empty()]);
    }
    while i < entry.len()
        invariant
            ev == entry.deep_view(),
            ev.len() == entry@.len(),
            i <= entry@.len(),
            spec_entry_maps(ev, now) == spec_fold_keys(ev, now, i as int, acc.deep_view()),
        decreases entry@.len() - i,
    {
        proof {
            assert(ev[i as int] == (entry@[i as int].0@, entry@[i as int].1.deep_view()));
        }
        let vals = match key_values_at(&entry[i].1, now) {
            Ok(vs) => vs,
            Err(e) => {
                return Err(e);
            },
        };
        let key = &entry[i].0;
        let ghost accv = acc.deep_view();
        let ghost valsv = vals.deep_view();
        let ghost target_maps = spec_cross_maps(accv, key@, valsv);
        let ghost na = accv.len() as int;
        let ghost nv = valsv.len() as int;
        let mut next: Vec<Vec<(String, String)>> = Vec::new();
        proof {
            assert(target_maps.len() == na * nv);
            assert(next.deep_view() =~= target_maps.subrange(0, 0));
        }
        let mut ui: usize = 0;
        while ui < acc.len()
            invariant
                na == acc.deep_view().len(),
                nv == vals.deep_view().len(),
                accv == acc.deep_view(),
                valsv == vals.deep_view(),
                acc.deep_view().len() == acc@.len(),
                vals.deep_view().len() == vals@.len(),
                ui <= acc@.len(),
                target_maps == spec_cross_maps(accv, key@, valsv),
                target_maps.len() == na * nv,
                0 <= ui as int * nv <= target_maps.len(),
                next.deep_view() =~= target_maps.subrange(0, ui as int * nv),
            decreases acc@.len() - ui,
        {
            proof {
                assert(ui as int * nv + nv <= na * nv && 0 <= ui as int * nv) by (nonlinear_arith)
                    requires
                        0 <= ui < na,
                        0 <= nv,
                ;
            }
            let mut vi: usize = 0;
            while vi < vals.len()
                invariant
                    na == acc.deep_view().len(),
                    nv == vals.deep_view().len(),
                    accv == acc.deep_view(),
                    valsv == vals.deep_view(),
                    acc.deep_view().len() == acc@.len(),
                    vals.deep_view().len() == vals@.len(),
                    ui < acc@.len(),
                    vi <= vals@.len(),
                    target_maps == spec_cross_maps(accv, key@, valsv),
                    target_maps.len() == na * nv,
                    0 <= ui as int * nv,
                    ui as int * nv + nv <= target_maps.len(),
                    next.deep_view() =~= target_maps.subrange(0, ui as int * nv + vi as int),
                decreases vals@.len() - vi,
            {
                let mut m: Vec<(String, String)> = Vec::new();
                m.push((key.clone(), vals[vi].clone()));
                let ghost mstart = m.deep_view();
                proof {
                    assert(mstart =~= seq![(key@, valsv[vi as int])]);
                }
                let until = &acc[ui];
                let mut k: usize = 0;
                while k < until.len()
                    invariant
                        until.deep_view() == accv[ui as int],
                        until.deep_view().len() == until@.len(),
                        ui < accv.len(),
                        k <= until@.len(),
                        mstart =~= seq![(key@, valsv[vi as int])],
                        vi < valsv.len(),
                        m.deep_view() =~= mstart + accv[ui as int].subrange(0, k as int),
                    decreases until@.len() - k,
                {
                    let ghost mprev = m.deep_view();
                    m.push((until[k].0.clone(), until[k].1.clone()));
                    proof {
                        let cur = accv[ui as int];
                        let whole = mstart + cur.subrange(0, k + 1);
                        assert(m@.len() == mprev.len() + 1);
                        assert(m.deep_view().len() == mprev.len() + 1);
                        assert(whole.len() == mprev.len() + 1);
                        assert(m.deep_view()[mprev.len() as int] == cur[k as int]);
                        assert forall|x: int| 0 <= x < mprev.len() + 1 implies m.deep_view()[x]
                            == whole[x] by {
                            if x < mprev.len() {
                                assert(m.deep_view()[x] == mprev[x]);
                                assert(mprev[x] == (mstart + cur.subrange(0, k as int))[x]);
                                if x < mstart.len() {
                                    assert(whole[x] == mstart[x]);
                                } else {
                                    assert(mprev[x] == cur.subrange(0, k as int)[x - mstart.len()]);
                                    assert(whole[x] == cur.subrange(0, k + 1)[x - mstart.len()]);
                                }
                            } else {
                                assert(whole[x] == cur.subrange(0, k + 1)[k as int]);
                            }
                        }
                        assert(m.deep_view() =~= whole);
                    }
                    k += 1;
                }
                proof {
                    let cur = accv[ui as int];
                    assert(cur.subrange(0, cur.len() as int) =~= cur);
                }
                let ghost nextprev = next.deep_view();
                let ghost mv = m.deep_view();
                next.push(m);
                proof {
                    let idx = ui as int * nv + vi as int;
                    assert(idx / nv == ui as int && idx % nv == vi as int) by (nonlinear_arith)
                        requires
                            0 <= ui,
                            0 <= vi < nv,
                            idx == ui as int * nv + vi as int,
                    ;
                    assert(target_maps[idx] == seq![(key@, valsv[vi as int])] + accv[ui as int]);
                    assert(mv =~= target_maps[idx]);
                    assert(next.deep_view().len() == nextprev.len() + 1);
                    assert(next.deep_view()[nextprev.len() as int] == mv);
                    assert forall|x: int| 0 <= x < nextprev.len() implies next.deep_view()[x]
                        == nextprev[x] by {}
                    assert(next.deep_view() =~= target_maps.subrange(0, idx + 1));
                }
                vi += 1;
            }
            proof {
                assert((ui + 1) as int * nv == ui as int * nv + nv) by (nonlinear_arith);
            }
            ui += 1;
        }
        proof {
            assert(next.deep_view() =~= target_maps.subrange(0, target_maps.len() as int));
            assert(next.deep_view() =~= target_maps);
        }
        acc = next;
        i += 1;
    }
    proof {
        assert(spec_fold_keys(ev, now, ev.len() as int, acc.deep_view()) == Some(
            acc.deep_view(),
        ));
    }
    Ok(acc)
}


/// The map list of `vars` or `params`: every entry's maps in order, or
/// the single empty map when none result.
fn maps_list_at(entries: &Vec<Vec<(String, Vec<String>)>>, now: Timestamp) -> (r: Result<
    Vec<Vec<(String, String)>>,
    String,
>)
    ensures
        match r {
            Ok(ms) => spec_maps_list(entries.deep_view(), now) == Some(ms.deep_view()),
            Err(e) => spec_maps_list(entries.deep_view(), now) is None && e@ == spec_date_error(),
        },
{
    let ghost env = entries.deep_view();
    let mut out: Vec<Vec<(String, String)>> = Vec::new();
    let mut i: usize = 0;
    proof {
        assert(out.deep_view() =~= Seq::<Seq<(Seq<char>, Seq<char>)>>::empty());
    }
    while i < entries.len()
        invariant
            env == entries.deep_view(),
            env.len() == entries@.len(),
            i <= entries@.len(),
            spec_maps_concat(env, now, 0) == match spec_maps_concat(env, now, i as int) {
                None => None::<Seq<SpecStrMap>>,
                Some(rest) => Some(out.deep_view() + rest),
            },
        decreases entries@.len() - i,
    {
        proof {
            assert(env[i as int] == entries@[i as int].deep_view());
        }
        let ms = match parse_key_value_map_at(&entries[i], now) {
            Ok(ms) => ms,
            Err(e) => {
                return Err(e);
            },
        };
        let ghost prev = out.deep_view();
        let ghost msv = ms.deep_view();
        let ms_len = ms.len();
        proof {
            assert(msv.len() == ms_len);
        }
        let mut j: usize = 0;
        let mut ms = ms;
        while ms.len() > 0
            invariant
                msv.len() <= usize::MAX,
                msv.len() >= ms@.len(),
                j == msv.len() - ms@.len(),
                forall|x: int| 0 <= x < ms@.len() ==> ms@[x].deep_view() == msv[j + x],
                out.deep_view() == prev + msv.subrange(0, j as int),
            decreases ms@.len(),
        {
            let ghost mid = out.deep_view();
            let head = ms.remove(0);
            proof {
                assert(head.deep_view() == msv[j as int]);
                assert forall|x: int| 0 <= x < ms@.len() implies ms@[x].deep_view() == msv[j + 1
                    + x] by {
                    assert(ms@[x].deep_view() == msv[j + (x + 1)]);
                }
            }
            out.push(head);
            proof {
                let whole = prev + msv.subrange(0, j + 1);
                assert(out.deep_view().len() == mid.len() + 1);
                assert(whole.len() == mid.len() + 1);
                assert forall|x: int| 0 <= x < mid.len() + 1 implies out.deep_view()[x]
                    == whole[x] by {
                    if x < mid.len() {
                        assert(out.deep_view()[x] == mid[x]);
                        assert(mid[x] == (prev + msv.subrange(0, j as int))[x]);
                        if x < prev.len() {
                            assert(whole[x] == prev[x]);
                        } else {
                            assert(mid[x] == msv.subrange(0, j as int)[x - prev.len()]);
                            assert(whole[x] == msv.subrange(0, j + 1)[x - prev.len()]);
                        }
                    } else {
                        assert(out.deep_view()[x] == msv[j as int]);
                        assert(whole[x] == msv.subrange(0, j + 1)[j as int]);
                    }
                }
                assert(out.deep_view() =~= whole);
            }
            j += 1;
        }
        proof {
            assert(msv.subrange(0, msv.len() as int) =~= msv);
            assert(out.deep_view() =~= prev + msv);
            let rest = spec_maps_concat(env, now, i as int + 1);
            if rest is Some {
                assert(prev + (msv + rest->0) =~= (prev + msv) + rest->0);
            }
        }
        i += 1;
    }
    proof {
        assert(out.deep_view() + Seq::<SpecStrMap>::empty() =~= out.deep_view());
    }
    if out.len() == 0 {
        let mut one: Vec<Vec<(String, String)>> = Vec::new();
        one.push(Vec::new());
        proof {
            assert(one.deep_view() =~~= seq![Seq::<(Seq<char>, Seq<char>)>::empty()]);
        }
        return Ok(one);
    }
    Ok(out)
}

/// Renders one task from one `(v, p)` pair.
fn make_task_at(
    req: &RavenRequest,
    url_builder: &TemplateBuilder,
    sinks: &Vec<PersistMethod>,
    sink_builders: &Vec<TemplateBuilder>,
    v: &Vec<(String, String)>,
    p: &Vec<(String, String)>,
) -> (r: Result<RavenCrawlTask, String>)
    requires
        sinks@.len() == sink_builders@.len(),
    ensures
        match r {
            Ok(t) => spec_make_task(
                req@,
                url_builder@,
                sink_pairs_view(sinks@, sink_builders@),
                v.deep_view(),
                p.deep_view(),
            ) == Ok::<SpecRavenCrawlTask, Seq<char>>(t@),
            Err(e) => spec_make_task(
                req@,
                url_builder@,
                sink_pairs_view(sinks@, sink_builders@),
                v.deep_view(),
                p.deep_view(),
            ) == Err::<SpecRavenCrawlTask, Seq<char>>(e@),
        },
{
    let ghost pairs = sink_pairs_view(sinks@, sink_builders@);
    let mut merged = clone_pairs(v);
    let mut ptail = clone_pairs(p);
    let ghost mergedv = v.deep_view() + p.deep_view();
    merged.append(&mut ptail);
    proof {
        assert(merged.deep_view() =~= mergedv);
    }
    let url = match url_builder.build_string(&merged) {
        Ok(u) => u,
        Err(e) => {
            return Err(e);
        },
    };
    let mut rendered: Vec<PersistMethod> = Vec::new();
    let mut i: usize = 0;
    proof {
        assert(rendered.deep_view() =~= Seq::<SpecPersistMethod>::empty());
    }
    while i < sinks.len()
        invariant
            sinks@.len() == sink_builders@.len(),
            pairs == sink_pairs_view(sinks@, sink_builders@),
            pairs.len() == sinks@.len(),
            merged.deep_view() == mergedv,
            mergedv == v.deep_view() + p.deep_view(),
            spec_render(url_builder@, mergedv) == Ok::<Seq<char>, Seq<char>>(url@),
            i <= sinks@.len(),
            spec_render_sinks(pairs, mergedv, 0) == match spec_render_sinks(
                pairs,
                mergedv,
                i as int,
            ) {
                Err(e) => Err::<Seq<SpecPersistMethod>, Seq<char>>(e),
                Ok(rest) => Ok::<Seq<SpecPersistMethod>, Seq<char>>(rendered.deep_view() + rest),
            },
        decreases sinks@.len() - i,
    {
        proof {
            assert(pairs[i as int] == (sinks@[i as int]@, sink_builders@[i as int]@));
        }
        let name = match sink_builders[i].build_string(&merged) {
            Ok(n) => n,
            Err(e) => {
                proof {
                    assert(spec_render(pairs[i as int].1, mergedv) == Err::<Seq<char>, Seq<char>>(
                        e@,
                    ));
                    assert(spec_render_sinks(pairs, mergedv, i as int) == Err::<
                        Seq<SpecPersistMethod>,
                        Seq<char>,
                    >(e@));
                    assert(spec_render_sinks(pairs, mergedv, 0) == Err::<
                        Seq<SpecPersistMethod>,
                        Seq<char>,
                    >(e@));
                    assert(spec_render(url_builder@, mergedv) == Ok::<Seq<char>, Seq<char>>(url@));
                }
                return Err(e);
            },
        };
        let ghost prev = rendered.deep_view();
        let item = sink_with_name(&sinks[i], name);
        let ghost itemv = item@;
        rendered.push(item);
        proof {
            assert(rendered.deep_view().len() == prev.len() + 1);
            assert(rendered.deep_view()[prev.len() as int] == itemv);
            assert forall|x: int| 0 <= x < prev.len() implies rendered.deep_view()[x]
                == prev[x] by {}
            let rest = spec_render_sinks(pairs, mergedv, i as int + 1);
            if rest is Ok {
                assert(prev + (seq![itemv] + rest->Ok_0) =~= (prev.push(itemv)) + rest->Ok_0);
                assert(rendered.deep_view() =~= prev.push(itemv));
            }
        }
        i += 1;
    }
    proof {
        assert(rendered.deep_view() + Seq::<SpecPersistMethod>::empty() =~= rendered.deep_view());
    }
    let query_params = match req.method {
        Method::Get => clone_pairs(p),
        Method::Post => Vec::new(),
    };
    let body_params = match req.method {
        Method::Post => clone_pairs(p),
        Method::Get => Vec::new(),
    };
    proof {
        if req.method is Get {
            assert(body_params.deep_view() =~= Seq::<(Seq<char>, Seq<char>)>::empty());
        } else {
            assert(query_params.deep_view() =~= Seq::<(Seq<char>, Seq<char>)>::empty());
        }
    }
    Ok(
        RavenCrawlTask {
            request: CrawlerRequest {
                url,
                method: req.method,
                header: clone_pairs(&req.headers),
                encoding_setting: req.encoding,
                timeout: req.timeout_in_seconds,
                max_retry: req.max_retry,
                query_params,
                body_params,
                sleep: req.sleep_seconds,
            },
            persist_methods: rendered,
        },
    )
}

/// Sinks paired with their compiled templates, as the specification
/// speaks of them.
pub open spec fn sink_pairs_view(
    sinks: Seq<PersistMethod>,
    builders: Seq<TemplateBuilder>,
) -> Seq<(SpecPersistMethod, Seq<SpecToken>)> {
    Seq::new(sinks.len(), |i: int| (sinks[i]@, builders[i]@))
}


impl RavenConfig {
    /// Expands this configuration into its concrete tasks at the given
    /// instant: the cross product of the variable and parameter maps,
    /// each task rendered from exactly one pair; or the first expansion
    /// error.
    pub fn create_crawler_tasks_at(&self, now: Timestamp) -> (r: Result<
        Vec<RavenCrawlTask>,
        String,
    >)
        ensures
            tasks_result_view(&r) == spec_create_tasks(self, now),
    {
        let ghost outv = self.output.deep_view();
        let url_fmt = match format_or_err(self.request.url.as_str(), now) {
            Ok(f) => f,
            Err(e) => {
                return Err(e);
            },
        };
        let url_builder = match TemplateBuilder::parse(url_fmt.as_str()) {
            Ok(b) => b,
            Err(e) => {
                return Err(e);
            },
        };
        let mut sink_builders: Vec<TemplateBuilder> = Vec::new();
        let mut i: usize = 0;
        proof {
            assert(sink_pairs_view(self.output@.subrange(0, 0), sink_builders@)
                =~= Seq::<(SpecPersistMethod, Seq<SpecToken>)>::empty());
        }
        while i < self.output.len()
            invariant
                outv == self.output.deep_view(),
                outv.len() == self.output@.len(),
                sink_builders@.len() == i,
                i <= self.output@.len(),
                spec_format_at(self.request@.url, now) == Some(url_fmt@),
                url_fmt@.len() > 0,
                url_builder@ == spec_parse(url_fmt@),
                spec_sink_templates(outv, now, 0) == match spec_sink_templates(
                    outv,
                    now,
                    i as int,
                ) {
                    Err(e) => Err::<Seq<(SpecPersistMethod, Seq<SpecToken>)>, Seq<char>>(e),
                    Ok(rest) => Ok::<Seq<(SpecPersistMethod, Seq<SpecToken>)>, Seq<char>>(
                        sink_pairs_view(self.output@.subrange(0, i as int), sink_builders@) + rest,
                    ),
                },
            decreases self.output@.len() - i,
        {
            proof {
                assert(outv[i as int] == self.output@[i as int]@);
            }
            let name_fmt = match format_or_err(self.output[i].get_file_name(), now) {
                Ok(f) => f,
                Err(e) => {
                    return Err(e);
                },
            };
            let b = match TemplateBuilder::parse(name_fmt.as_str()) {
                Ok(b) => b,
                Err(e) => {
                    return Err(e);
                },
            };
            let ghost prevb = sink_builders@;
            sink_builders.push(b);
            proof {
                let upto = sink_pairs_view(self.output@.subrange(0, i + 1), sink_builders@);
                let before = sink_pairs_view(self.output@.subrange(0, i as int), prevb);
                assert(upto.len() == i + 1);
                assert forall|x: int| 0 <= x < i + 1 implies upto[x] == (
                    before + seq![(outv[i as int], spec_parse(name_fmt@))]
                )[x] by {
                    if x < i {
                        assert(sink_builders@[x] == prevb[x]);
                    }
                }
                assert(upto =~= before + seq![(outv[i as int], spec_parse(name_fmt@))]);
                let rest = spec_sink_templates(outv, now, i as int + 1);
                if rest is Ok {
                    assert(before + (seq![(outv[i as int], spec_parse(name_fmt@))] + rest->Ok_0)
                        =~= upto + rest->Ok_0);
                }
            }
            i += 1;
        }
        proof {
            assert(self.output@.subrange(0, self.output@.len() as int) =~= self.output@);
            let pairs = sink_pairs_view(self.output@, sink_builders@);
            assert(pairs + Seq::<(SpecPersistMethod, Seq<SpecToken>)>::empty() =~= pairs);
        }
        let ghost pairs = sink_pairs_view(self.output@, sink_builders@);
        let vars = match maps_list_at(&self.request.vars, now) {
            Ok(vs) => vs,
            Err(e) => {
                return Err(e);
            },
        };
        let params = match maps_list_at(&self.request.params, now) {
            Ok(ps) => ps,
            Err(e) => {
                return Err(e);
            },
        };
        let ghost varsv = vars.deep_view();
        let ghost paramsv = params.deep_view();
        let ghost plen = paramsv.len() as int;
        let ghost n = varsv.len() as int * plen;
        let mut tasks: Vec<RavenCrawlTask> = Vec::new();
        let ghost t0: int = 0;
        proof {
            assert(tasks.deep_view() =~= Seq::<SpecRavenCrawlTask>::empty());
        }
        let mut vi: usize = 0;
        while vi < vars.len()
            invariant
                outv == self.output.deep_view(),
                spec_format_at(self.request@.url, now) == Some(url_fmt@),
                url_fmt@.len() > 0,
                url_builder@ == spec_parse(url_fmt@),
                spec_sink_templates(outv, now, 0) == Ok::<
                    Seq<(SpecPersistMethod, Seq<SpecToken>)>,
                    Seq<char>,
                >(pairs),
                pairs == sink_pairs_view(self.output@, sink_builders@),
                self.output@.len() == sink_builders@.len(),
                spec_maps_list(self.request@.vars, now) == Some(varsv),
                spec_maps_list(self.request@.params, now) == Some(paramsv),
                varsv == vars.deep_view(),
                paramsv == params.deep_view(),
                varsv.len() == vars@.len(),
                paramsv.len() == params@.len(),
                plen == paramsv.len() as int,
                n == varsv.len() as int * plen,
                vi <= vars@.len(),
                spec_tasks_product(self.request@, url_builder@, pairs, varsv, paramsv, 0) == (
                match spec_tasks_product(
                    self.request@,
                    url_builder@,
                    pairs,
                    varsv,
                    paramsv,
                    vi as int * plen,
                ) {
                    Err(e) => Err::<Seq<SpecRavenCrawlTask>, Seq<char>>(e),
                    Ok(rest) => Ok::<Seq<SpecRavenCrawlTask>, Seq<char>>(
                        tasks.deep_view() + rest,
                    ),
                }),
                tasks.deep_view().len() == vi as int * plen,
            decreases vars@.len() - vi,
        {
            proof {
                assert(0 <= vi as int * plen && vi as int * plen + plen <= n) by (nonlinear_arith)
                    requires
                        0 <= vi < varsv.len(),
                        0 <= plen,
                        n == varsv.len() as int * plen,
                ;
            }
            let mut pi: usize = 0;
            while pi < params.len()
                invariant
                outv == self.output.deep_view(),
                spec_format_at(self.request@.url, now) == Some(url_fmt@),
                url_fmt@.len() > 0,
                url_builder@ == spec_parse(url_fmt@),
                spec_sink_templates(outv, now, 0) == Ok::<
                    Seq<(SpecPersistMethod, Seq<SpecToken>)>,
                    Seq<char>,
                >(pairs),
                pairs == sink_pairs_view(self.output@, sink_builders@),
                self.output@.len() == sink_builders@.len(),
                spec_maps_list(self.request@.vars, now) == Some(varsv),
                spec_maps_list(self.request@.params, now) == Some(paramsv),
                    varsv == vars.deep_view(),
                    paramsv == params.deep_view(),
                    varsv.len() == vars@.len(),
                    paramsv.len() == params@.len(),
                    plen == paramsv.len() as int,
                    n == varsv.len() as int * plen,
                    vi < vars@.len(),
                    pi <= params@.len(),
                    0 <= vi as int * plen,
                    vi as int * plen + plen <= n,
                    spec_tasks_product(self.request@, url_builder@, pairs, varsv, paramsv, 0) == (
                    match spec_tasks_product(
                        self.request@,
                        url_builder@,
                        pairs,
                        varsv,
                        paramsv,
                        vi as int * plen + pi as int,
                    ) {
                        Err(e) => Err::<Seq<SpecRavenCrawlTask>, Seq<char>>(e),
                        Ok(rest) => Ok::<Seq<SpecRavenCrawlTask>, Seq<char>>(
                            tasks.deep_view() + rest,
                        ),
                    }),
                    tasks.deep_view().len() == vi as int * plen + pi as int,
                decreases params@.len() - pi,
            {
                let ghost t = vi as int * plen + pi as int;
                proof {
                    assert(t < n) by (nonlinear_arith)
                        requires
                            0 <= vi < varsv.len(),
                            0 <= pi < plen,
                            t == vi as int * plen + pi as int,
                            n == varsv.len() as int * plen,
                    ;
                    assert(t / plen == vi as int && t % plen == pi as int) by (nonlinear_arith)
                        requires
                            0 <= vi,
                            0 <= pi < plen,
                            t == vi as int * plen + pi as int,
                    ;
                    assert(varsv[vi as int] == vars@[vi as int].deep_view());
                    assert(paramsv[pi as int] == params@[pi as int].deep_view());
                }
                let task = match make_task_at(
                    &self.request,
                    &url_builder,
                    &self.output,
                    &sink_builders,
                    &vars[vi],
                    &params[pi],
                ) {
                    Ok(task) => task,
                    Err(e) => {
                        return Err(e);
                    },
                };
                let ghost prevt = tasks.deep_view();
                let ghost taskv = task@;
                tasks.push(task);
                proof {
                    assert(tasks.deep_view().len() == prevt.len() + 1);
                    assert(tasks.deep_view()[prevt.len() as int] == taskv);
                    assert forall|x: int| 0 <= x < prevt.len() implies tasks.deep_view()[x]
                        == prevt[x] by {}
                    assert(tasks.deep_view() =~= prevt.push(taskv));
                    let rest = spec_tasks_product(
                        self.request@,
                        url_builder@,
                        pairs,
                        varsv,
                        paramsv,
                        t + 1,
                    );
                    if rest is Ok {
                        assert(prevt + (seq![taskv] + rest->Ok_0) =~= prevt.push(taskv)
                            + rest->Ok_0);
                    }
                }
                pi += 1;
            }
            proof {
                assert((vi + 1) as int * plen == vi as int * plen + plen) by (nonlinear_arith);
            }
            vi += 1;
        }
        proof {
            assert(tasks.deep_view().len() == n);
            assert(spec_tasks_product(
                self.request@,
                url_builder@,
                pairs,
                varsv,
                paramsv,
                n,
            ) == Ok::<Seq<SpecRavenCrawlTask>, Seq<char>>(Seq::empty())) by {
                assert(n >= varsv.len() as int * paramsv.len() as int);
            }
            assert(tasks.deep_view() + Seq::<SpecRavenCrawlTask>::empty() =~= tasks.deep_view());
        }
        Ok(tasks)
    }

    /// Expands this configuration into its concrete tasks, with the
    /// run's date directives bound to the clock at the moment of the
    /// call.
    pub fn create_crawler_tasks(&self) -> (r: Result<Vec<RavenCrawlTask>, String>)
        ensures
            exists|now: Timestamp| #[trigger] spec_tasks_outcome(self, now, tasks_result_view(&r)),
    {
        let now = now_timestamp();
        let r = self.create_crawler_tasks_at(now);
        proof {
            assert(spec_tasks_outcome(self, now, tasks_result_view(&r)));
        }
        r
    }
}

/// Whether an expansion outcome is the one the specification gives at
/// an instant.
pub open spec fn spec_tasks_outcome(
    cfg: &RavenConfig,
    now: Timestamp,
    r: Result<Seq<SpecRavenCrawlTask>, Seq<char>>,
) -> bool {
    spec_create_tasks(cfg, now) == r
}

/// Whether an entry-map outcome is the one the specification gives at
/// an instant.
pub open spec fn spec_entry_maps_outcome(
    entry: SpecEntry,
    now: Timestamp,
    r: Result<Seq<SpecStrMap>, Seq<char>>,
) -> bool {
    match spec_entry_maps(entry, now) {
        Some(ms) => r == Ok::<Seq<SpecStrMap>, Seq<char>>(ms),
        None => r == Err::<Seq<SpecStrMap>, Seq<char>>(spec_date_error()),
    }
}

/// The maps one `vars` or `params` entry stands for, with the entry's
/// date directives bound to the clock at the moment of the call.
pub fn parse_key_value_map(entry: &Vec<(String, Vec<String>)>) -> (r: Result<
    Vec<Vec<(String, String)>>,
    String,
>)
    ensures
        exists|now: Timestamp|
            #[trigger] spec_entry_maps_outcome(entry.deep_view(), now, entry_maps_result_view(&r)),
{
    let now = now_timestamp();
    let r = parse_key_value_map_at(entry, now);
    proof {
        assert(spec_entry_maps_outcome(entry.deep_view(), now, entry_maps_result_view(&r)));
    }
    r
}

/// The view of an entry-map outcome.
pub open spec fn entry_maps_result_view(r: &Result<Vec<Vec<(String, String)>>, String>) -> Result<
    Seq<SpecStrMap>,
    Seq<char>,
> {
    match r {
        Ok(ms) => Ok(ms.deep_view()),
        Err(e) => Err(e@),
    }
}

proof fn lemma_tasks_product_shape(
    req: SpecRavenRequest,
    url_tokens: Seq<SpecToken>,
    sinks: Seq<(SpecPersistMethod, Seq<SpecToken>)>,
    vars: Seq<SpecStrMap>,
    params: Seq<SpecStrMap>,
    t: int,
)
    requires
        0 <= t <= vars.len() * params.len(),
    ensures
        match spec_tasks_product(req, url_tokens, sinks, vars, params, t) {
            Ok(ts) => ts.len() == vars.len() * params.len() - t && forall|k: int|
                0 <= k < ts.len() ==> spec_make_task(
                    req,
                    url_tokens,
                    sinks,
                    vars[(t + k) / params.len() as int],
                    params[(t + k) % params.len() as int],
                ) == Ok::<SpecRavenCrawlTask, Seq<char>>(#[trigger] ts[k]),
            Err(_) => true,
        },
    decreases vars.len() * params.len() - t,
{
    let n = vars.len() * params.len();
    if t < n {
        lemma_tasks_product_shape(req, url_tokens, sinks, vars, params, t + 1);
        let v = vars[t / params.len() as int];
        let p = params[t % params.len() as int];
        match spec_make_task(req, url_tokens, sinks, v, p) {
            Err(_) => {},
            Ok(task) => {
                match spec_tasks_product(req, url_tokens, sinks, vars, params, t + 1) {
                    Err(_) => {},
                    Ok(rest) => {
                        let ts = seq![task] + rest;
                        assert forall|k: int| 0 <= k < ts.len() implies spec_make_task(
                            req,
                            url_tokens,
                            sinks,
                            vars[(t + k) / params.len() as int],
                            params[(t + k) % params.len() as int],
                        ) == Ok::<SpecRavenCrawlTask, Seq<char>>(#[trigger] ts[k]) by {
                            if k == 0 {
                                assert(ts[0] == task);
                            } else {
                                assert(ts[k] == rest[k - 1]);
                                assert((t + 1) + (k - 1) == t + k);
                            }
                        }
                    },
                }
            },
        }
    }
}

proof fn lemma_sink_templates_shape(outputs: Seq<SpecPersistMethod>, now: Timestamp, i: int)
    requires
        0 <= i <= outputs.len(),
    ensures
        match spec_sink_templates(outputs, now, i) {
            Ok(pairs) => pairs.len() == outputs.len() - i && forall|j: int|
                0 <= j < pairs.len() ==> (#[trigger] pairs[j]).0 == outputs[i + j],
            Err(_) => true,
        },
    decreases outputs.len() - i,
{
    if i < outputs.len() {
        lemma_sink_templates_shape(outputs, now, i + 1);
        match spec_format_at(spec_file_name(outputs[i]), now) {
            None => {},
            Some(f) => {
                if f.len() > 0 {
                    match spec_sink_templates(outputs, now, i + 1) {
                        Err(_) => {},
                        Ok(rest) => {
                            let pairs = seq![(outputs[i], spec_parse(f))] + rest;
                            assert forall|j: int| 0 <= j < pairs.len() implies (
                            #[trigger] pairs[j]).0 == outputs[i + j] by {
                                if j > 0 {
                                    assert(pairs[j] == rest[j - 1]);
                                }
                            }
                        },
                    }
                }
            },
        }
    }
}

proof fn lemma_render_sinks_shape(
    sinks: Seq<(SpecPersistMethod, Seq<SpecToken>)>,
    m: SpecStrMap,
    i: int,
)
    requires
        0 <= i <= sinks.len(),
    ensures
        match spec_render_sinks(sinks, m, i) {
            Ok(rs) => rs.len() == sinks.len() - i && forall|j: int|
                0 <= j < rs.len() ==> spec_render(sinks[i + j].1, m) is Ok && #[trigger] rs[j]
                    == spec_with_file_name(sinks[i + j].0, spec_render(sinks[i + j].1, m)->Ok_0),
            Err(_) => true,
        },
    decreases sinks.len() - i,
{
    if i < sinks.len() {
        lemma_render_sinks_shape(sinks, m, i + 1);
        match spec_render(sinks[i].1, m) {
            Err(_) => {},
            Ok(name) => {
                match spec_render_sinks(sinks, m, i + 1) {
                    Err(_) => {},
                    Ok(rest) => {
                        let rs = seq![spec_with_file_name(sinks[i].0, name)] + rest;
                        assert forall|j: int|
                            0 <= j < rs.len() implies spec_render(sinks[i + j].1, m) is Ok && (
                        #[trigger] rs[j]) == spec_with_file_name(
                            sinks[i + j].0,
                            spec_render(sinks[i + j].1, m)->Ok_0,
                        ) by {
                            if j > 0 {
                                assert(rs[j] == rest[j - 1]);
                            }
                        }
                    },
                }
            },
        }
    }
}

/// Sink shape: in a successful expansion every task carries one sink per
/// configured sink, in order; each is the configured sink - kind, region
/// and bucket unchanged - with only its templated part replaced by the
/// rendering of that sink's compiled template against the task's own
/// pair of the expansion sets.
pub proof fn theorem_sinks_preserved(cfg: &RavenConfig, now: Timestamp)
    ensures
        spec_create_tasks(cfg, now) matches Ok(tasks) ==> (spec_format_at(cfg.request@.url, now)
            matches Some(url_fmt) && (spec_sink_templates(cfg.output.deep_view(), now, 0)
            matches Ok(pairs) && (spec_maps_list(cfg.request@.vars, now) matches Some(vars) && (
        spec_maps_list(cfg.request@.params, now) matches Some(params) && forall|k: int|
            0 <= k < tasks.len() ==> (#[trigger] tasks[k]).persist_methods.len()
                == cfg.output.deep_view().len() && forall|j: int|
                0 <= j < cfg.output.deep_view().len() ==> #[trigger] tasks[k].persist_methods[j]
                    == spec_with_file_name(
                    cfg.output.deep_view()[j],
                    spec_render(
                        pairs[j].1,
                        vars[k / params.len() as int] + params[k % params.len() as int],
                    )->Ok_0,
                ))))),
{
    if spec_create_tasks(cfg, now) is Ok {
        let outv = cfg.output.deep_view();
        let url_fmt = spec_format_at(cfg.request@.url, now)->0;
        let pairs = spec_sink_templates(outv, now, 0)->Ok_0;
        let vars = spec_maps_list(cfg.request@.vars, now)->0;
        let params = spec_maps_list(cfg.request@.params, now)->0;
        let tasks = spec_create_tasks(cfg, now)->Ok_0;
        theorem_cross_product_closure(cfg, now);
        lemma_sink_templates_shape(outv, now, 0);
        assert forall|k: int| 0 <= k < tasks.len() implies (
        #[trigger] tasks[k]).persist_methods.len() == outv.len() && forall|j: int|
            0 <= j < outv.len() ==> #[trigger] tasks[k].persist_methods[j] == spec_with_file_name(
                outv[j],
                spec_render(
                    pairs[j].1,
                    vars[k / params.len() as int] + params[k % params.len() as int],
                )->Ok_0,
            ) by {
            let v = vars[k / params.len() as int];
            let p = params[k % params.len() as int];
            let merged = v + p;
            assert(spec_make_task(cfg.request@, spec_parse(url_fmt), pairs, v, p) == Ok::<
                SpecRavenCrawlTask,
                Seq<char>,
            >(tasks[k]));
            lemma_render_sinks_shape(pairs, merged, 0);
            let rs = spec_render_sinks(pairs, merged, 0)->Ok_0;
            assert(tasks[k].persist_methods == rs);
            assert forall|j: int| 0 <= j < outv.len() implies #[trigger] tasks[k].persist_methods[j]
                == spec_with_file_name(
                outv[j],
                spec_render(pairs[j].1, merged)->Ok_0,
            ) by {
                assert(rs[j] == spec_with_file_name(pairs[j].0, spec_render(pairs[j].1, merged)->Ok_0));
                assert(pairs[j].0 == outv[j]);
            }
        }
    }
}

/// Task count: a successful expansion yields exactly one task for every
/// pair of the cross product of the variable and parameter map lists.
pub proof fn theorem_task_count(cfg: &RavenConfig, now: Timestamp)
    ensures
        spec_create_tasks(cfg, now) matches Ok(tasks) ==> (spec_maps_list(cfg.request@.vars, now)
            matches Some(vars) && (spec_maps_list(cfg.request@.params, now) matches Some(params)
            && tasks.len() == vars.len() * params.len())),
{
    if spec_create_tasks(cfg, now) is Ok {
        let url_fmt = spec_format_at(cfg.request@.url, now)->0;
        let sinks = spec_sink_templates(cfg.output.deep_view(), now, 0)->Ok_0;
        let vars = spec_maps_list(cfg.request@.vars, now)->0;
        let params = spec_maps_list(cfg.request@.params, now)->0;
        lemma_tasks_product_shape(cfg.request@, spec_parse(url_fmt), sinks, vars, params, 0);
    }
}

/// Cross-product closure: in a successful expansion, task `k` is
/// rendered from exactly the pair `(vars[k / |params|], params[k % |params|])`
/// of the expansion sets - its URL, sink names and parameters use that
/// pair's values and no others.
pub proof fn theorem_cross_product_closure(cfg: &RavenConfig, now: Timestamp)
    ensures
        spec_create_tasks(cfg, now) matches Ok(tasks) ==> (spec_format_at(cfg.request@.url, now)
            matches Some(url_fmt) && (spec_sink_templates(cfg.output.deep_view(), now, 0)
            matches Ok(sinks) && (spec_maps_list(cfg.request@.vars, now) matches Some(vars) && (
        spec_maps_list(cfg.request@.params, now) matches Some(params) && forall|k: int|
            0 <= k < tasks.len() ==> spec_make_task(
                cfg.request@,
                spec_parse(url_fmt),
                sinks,
                vars[k / params.len() as int],
                params[k % params.len() as int],
            ) == Ok::<SpecRavenCrawlTask, Seq<char>>(#[trigger] tasks[k]))))),
{
    if spec_create_tasks(cfg, now) is Ok {
        let url_fmt = spec_format_at(cfg.request@.url, now)->0;
        let sinks = spec_sink_templates(cfg.output.deep_view(), now, 0)->Ok_0;
        let vars = spec_maps_list(cfg.request@.vars, now)->0;
        let params = spec_maps_list(cfg.request@.params, now)->0;
        lemma_tasks_product_shape(cfg.request@, spec_parse(url_fmt), sinks, vars, params, 0);
    }
}

} // verus!
