use vstd::prelude::*;
use vstd::string::*;

use crate::persist::{
    spec_persist_error_message, PersistError, PersistMethod, SpecPersistError, SpecPersistMethod,
};
use crate::request::{CrawlerRequest, SpecCrawlerRequest};
use crate::result::{
    spec_err_code, spec_err_label, spec_error_message, CrawlerError, CrawlerResult,
    SpecCrawlerError, SpecCrawlerResult,
};

verus! {

/// One concrete unit of work: a rendered request and the sinks its
/// response body goes to.
#[derive(Debug, PartialEq, Clone)]
pub struct RavenCrawlTask {
    pub request: CrawlerRequest,
    pub persist_methods: Vec<PersistMethod>,
}

/// The mathematical form of a task.
pub struct SpecRavenCrawlTask {
    pub request: SpecCrawlerRequest,
    pub persist_methods: Seq<SpecPersistMethod>,
}

impl View for RavenCrawlTask {
    type V = SpecRavenCrawlTask;

    open spec fn view(&self) -> SpecRavenCrawlTask {
        SpecRavenCrawlTask {
            request: self.request@,
            persist_methods: self.persist_methods.deep_view(),
        }
    }
}

impl DeepView for RavenCrawlTask {
    type V = SpecRavenCrawlTask;

    open spec fn deep_view(&self) -> SpecRavenCrawlTask {
        self.view()
    }
}

/// What a task produced when its fetch succeeded and at least one sink
/// took the body.
#[derive(Debug, PartialEq)]
pub struct CrawlTaskSuccess {
    pub persist_duration_millis: u64,
    pub crawler_result: CrawlerResult,
    pub persist_errors: Vec<PersistError>,
}

/// Why a task failed: the fetch itself, or every sink.
#[derive(Debug, PartialEq)]
pub enum CrawlTaskError {
    CrawlerFailed(CrawlerError),
    PersistFailed {
        crawler_result: CrawlerResult,
        persist_errors: Vec<PersistError>,
        persist_duration_millis: u64,
    },
}

/// A task outcome together with the task itself and its total duration.
#[derive(Debug, PartialEq)]
pub struct CrawlerTaskResult<T> {
    pub task: RavenCrawlTask,
    pub total_duration_millis: u64,
    pub result: T,
}

pub type TaskSuccess = CrawlerTaskResult<CrawlTaskSuccess>;

pub type TaskFailed = CrawlerTaskResult<CrawlTaskError>;

/// The numeric code of a task failure.
pub open spec fn spec_task_err_code(e: &CrawlTaskError) -> u16 {
    match e {
        CrawlTaskError::CrawlerFailed(ce) => spec_err_code(ce@),
        CrawlTaskError::PersistFailed { .. } => 1000,
    }
}

/// The short label of a task failure.
pub open spec fn spec_task_err_label(e: &CrawlTaskError) -> Seq<char> {
    match e {
        CrawlTaskError::CrawlerFailed(ce) => spec_err_label(ce@),
        CrawlTaskError::PersistFailed { .. } => "persist failed"@,
    }
}

/// Sink failure messages joined with `, `.
pub open spec fn spec_joined_persist_errors(errs: Seq<SpecPersistError>) -> Seq<char>
    decreases errs.len(),
{
    if errs.len() == 0 {
        Seq::empty()
    } else if errs.len() == 1 {
        spec_persist_error_message(errs[0])
    } else {
        spec_joined_persist_errors(errs.drop_last()) + ", "@ + spec_persist_error_message(
            errs.last(),
        )
    }
}

/// The message of a task failure.
pub open spec fn spec_task_err_message(e: &CrawlTaskError) -> Seq<char> {
    match e {
        CrawlTaskError::CrawlerFailed(ce) => "failed to crawl: "@ + spec_error_message(ce@),
        CrawlTaskError::PersistFailed { persist_errors, .. } => "failed to persist: "@
            + spec_joined_persist_errors(persist_errors.deep_view()),
    }
}

impl CrawlTaskError {
    /// The numeric code of this failure.
    pub fn err_code(&self) -> (r: u16)
        ensures
            r == spec_task_err_code(self),
    {
        match self {
            CrawlTaskError::CrawlerFailed(ce) => ce.err_code(),
            CrawlTaskError::PersistFailed { .. } => 1000,
        }
    }

    /// The short label of this failure.
    pub fn err_label(&self) -> (r: &'static str)
        ensures
            r@ == spec_task_err_label(self),
    {
        match self {
            CrawlTaskError::CrawlerFailed(ce) => ce.description(),
            CrawlTaskError::PersistFailed { .. } => "persist failed",
        }
    }

    /// The message of this failure.
    pub fn to_message(&self) -> (r: String)
        ensures
            r@ == spec_task_err_message(self),
    {
        match self {
            CrawlTaskError::CrawlerFailed(ce) => {
                let mut out = String::new();
                out.append("failed to crawl: ");
                let m = ce.to_message();
                out.append(m.as_str());
                out
            },
            CrawlTaskError::PersistFailed { persist_errors, .. } => {
                let mut out = String::new();
                out.append("failed to persist: ");
                let ghost errs = persist_errors.deep_view();
                let mut i: usize = 0;
                proof {
                    assert(errs.subrange(0, 0) =~= Seq::<SpecPersistError>::empty());
                    assert(out@ =~= "failed to persist: "@ + spec_joined_persist_errors(
                        errs.subrange(0, 0),
                    ));
                }
                while i < persist_errors.len()
                    invariant
                        errs == persist_errors.deep_view(),
                        errs.len() == persist_errors@.len(),
                        i <= persist_errors@.len(),
                        out@ == "failed to persist: "@ + spec_joined_persist_errors(
                            errs.subrange(0, i as int),
                        ),
                    decreases persist_errors@.len() - i,
                {
                    if i > 0 {
                        out.append(", ");
                    }
                    let m = persist_errors[i].to_message();
                    out.append(m.as_str());
                    proof {
                        let upto = errs.subrange(0, i + 1);
                        assert(upto.drop_last() =~= errs.subrange(0, i as int));
                        assert(upto.last() == errs[i as int]);
                        assert(errs[i as int] == persist_errors@[i as int]@);
                        assert(out@ =~= "failed to persist: "@ + spec_joined_persist_errors(
                            upto,
                        ));
                    }
                    i += 1;
                }
                proof {
                    assert(errs.subrange(0, errs.len() as int) =~= errs);
                }
                out
            },
        }
    }
}

/// The sink failures among a task's per-sink outcomes, in sink order.
pub open spec fn spec_persist_failures(rs: Seq<Result<(), PersistError>>) -> Seq<SpecPersistError>
    decreases rs.len(),
{
    if rs.len() == 0 {
        Seq::empty()
    } else {
        let rest = spec_persist_failures(rs.drop_last());
        match rs.last() {
            Ok(_) => rest,
            Err(e) => rest.push(e@),
        }
    }
}

proof fn lemma_persist_failures_bound(rs: Seq<Result<(), PersistError>>)
    ensures
        spec_persist_failures(rs).len() <= rs.len(),
    decreases rs.len(),
{
    if rs.len() > 0 {
        lemma_persist_failures_bound(rs.drop_last());
    }
}

impl RavenCrawlTask {
    /// Settles a task from what its fetch and its per-sink writes
    /// produced: a fetch failure fails the task; otherwise the task
    /// succeeds exactly when fewer sinks failed than were configured,
    /// and the sink failures ride along either way.
    pub fn classify_outcome(
        self,
        crawler_result: Result<CrawlerResult, CrawlerError>,
        persist_results: Vec<Result<(), PersistError>>,
        persist_duration_millis: u64,
        total_duration_millis: u64,
    ) -> (r: Result<TaskSuccess, TaskFailed>)
        requires
            crawler_result is Ok ==> persist_results@.len() == self.persist_methods@.len(),
        ensures
            r is Ok <==> crawler_result is Ok && spec_persist_failures(persist_results@).len()
                < self.persist_methods@.len(),
            match r {
                Ok(s) => crawler_result matches Ok(cr) && s.task == self
                    && s.total_duration_millis == total_duration_millis && s.result.crawler_result
                    == cr && s.result.persist_duration_millis == persist_duration_millis
                    && s.result.persist_errors.deep_view() == spec_persist_failures(
                    persist_results@,
                ),
                Err(f) => f.task == self && f.total_duration_millis == total_duration_millis && (
                match crawler_result {
                    Err(ce) => f.result matches CrawlTaskError::CrawlerFailed(e) && e == ce,
                    Ok(cr) => f.result matches CrawlTaskError::PersistFailed {
                        crawler_result: fcr,
                        persist_errors: fe,
                        persist_duration_millis: fd,
                    } && fcr == cr && fe.deep_view() == spec_persist_failures(persist_results@)
                        && fd == persist_duration_millis,
                }),
            },
    {
        let ghost rsv = persist_results@;
        match crawler_result {
            Err(ce) => Err(
                CrawlerTaskResult {
                    task: self,
                    total_duration_millis,
                    result: CrawlTaskError::CrawlerFailed(ce),
                },
            ),
            Ok(cr) => {
                let mut persist_errors: Vec<PersistError> = Vec::new();
                let mut i: usize = 0;
                let total = persist_results.len();
                let mut persist_results = persist_results;
                proof {
                    assert(rsv.subrange(0, 0) =~= Seq::<Result<(), PersistError>>::empty());
                    assert(persist_errors.deep_view() =~= spec_persist_failures(
                        rsv.subrange(0, 0),
                    ));
                }
                while i < total
                    invariant
                        total == rsv.len(),
                        i <= total,
                        persist_results@ == rsv.subrange(i as int, total as int),
                        persist_errors.deep_view() == spec_persist_failures(
                            rsv.subrange(0, i as int),
                        ),
                    decreases total - i,
                {
                    proof {
                        assert(persist_results@[0] == rsv[i as int]);
                    }
                    let ghost preve = persist_errors.deep_view();
                    let head = persist_results.remove(0);
                    match head {
                        Ok(_) => (),
                        Err(e) => {
                            let ghost ev = e@;
                            persist_errors.push(e);
                            proof {
                                assert(persist_errors.deep_view().len() == preve.len() + 1);
                                assert(persist_errors.deep_view()[preve.len() as int] == ev);
                            }
                        },
                    }
                    proof {
                        let upto = rsv.subrange(0, i + 1);
                        assert(upto.drop_last() =~= rsv.subrange(0, i as int));
                        assert(upto.last() == rsv[i as int]);
                        assert forall|x: int|
                            0 <= x < preve.len() implies persist_errors.deep_view()[x]
                            == preve[x] by {}
                        assert(persist_errors.deep_view() =~= spec_persist_failures(upto));
                        assert(persist_results@ =~= rsv.subrange(i + 1, total as int));
                    }
                    i += 1;
                }
                proof {
                    assert(rsv.subrange(0, total as int) =~= rsv);
                    lemma_persist_failures_bound(rsv);
                }
                let all_failed = persist_errors.len() == total;
                if all_failed && self.persist_methods.len() == total {
                    Err(
                        CrawlerTaskResult {
                            task: self,
                            total_duration_millis,
                            result: CrawlTaskError::PersistFailed {
                                crawler_result: cr,
                                persist_errors,
                                persist_duration_millis,
                            },
                        },
                    )
                } else {
                    Ok(
                        CrawlerTaskResult {
                            task: self,
                            total_duration_millis,
                            result: CrawlTaskSuccess {
                                persist_duration_millis,
                                crawler_result: cr,
                                persist_errors,
                            },
                        },
                    )
                }
            },
        }
    }
}

} // verus!
