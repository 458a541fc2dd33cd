use vstd::prelude::*;
use vstd::string::*;

use crate::persist::PersistMethod;
use crate::request::CrawlerRequest;
use crate::result::{
    result_view, spec_result_code, spec_result_message, CrawlerError, CrawlerResult,
    SpecCrawlerError, SpecCrawlerResult,
};
use crate::strutil::{clone_pairs, spec_dec_string, u64_to_string};
use crate::task::{
    spec_task_err_code, spec_task_err_label, spec_task_err_message, CrawlTaskError,
    RavenCrawlTask, TaskFailed, TaskSuccess,
};
use crate::timefmt::{format_timestamp, now_timestamp, strftime_of, Timestamp};

verus! {

/// Relies on the hostname crate's `get` (with a random fallback name):
/// nothing is promised of the machine's name.
#[verifier::external_body]
pub(crate) fn get_hostname() -> (r: String) {
    hostname::get().ok().and_then(|h| h.into_string().ok()).unwrap_or_else(
        || format!("unknown_host_{}", rand::random::<u16>()),
    )
}

/// The index a fetch metric goes to: the crawl date under the crawler
/// prefix, or the bare prefix when the date cannot be formatted.
pub open spec fn spec_crawler_index_name(date: Timestamp) -> Seq<char> {
    match strftime_of("raven-crawler-%Y-%m-%d"@, date.millis, date.offset_seconds) {
        Some(s) => s,
        None => "raven-crawler"@,
    }
}

/// The index a task metric goes to: the record date under the task
/// prefix, or the bare prefix when the date cannot be formatted.
pub open spec fn spec_task_index_name(date: Timestamp) -> Seq<char> {
    match strftime_of("raven-task-metrics-%Y-%m-%d"@, date.millis, date.offset_seconds) {
        Some(s) => s,
        None => "raven-task-metrics"@,
    }
}

fn crawler_index_name(date: Timestamp) -> (r: String)
    ensures
        r@ == spec_crawler_index_name(date),
{
    match format_timestamp("raven-crawler-%Y-%m-%d", date) {
        Some(s) => s,
        None => String::from_str("raven-crawler"),
    }
}

fn task_index_name(date: Timestamp) -> (r: String)
    ensures
        r@ == spec_task_index_name(date),
{
    match format_timestamp("raven-task-metrics-%Y-%m-%d", date) {
        Some(s) => s,
        None => String::from_str("raven-task-metrics"),
    }
}

/// The request duration a fetch metric records: the elapsed time of the
/// result it carries; for a timeout, the configured budget; none for an
/// unclassified failure.
pub open spec fn spec_metric_duration(r: Result<SpecCrawlerResult, SpecCrawlerError>) -> Option<
    u64,
> {
    match r {
        Ok(s) => Some(s.mills_takes_to_complete_to_request),
        Err(SpecCrawlerError::ClientError(c)) => Some(c.mills_takes_to_complete_to_request),
        Err(SpecCrawlerError::ServerError(c)) => Some(c.mills_takes_to_complete_to_request),
        Err(SpecCrawlerError::TimeoutError { timeout_second, .. }) => Some(timeout_second as u64),
        Err(SpecCrawlerError::CharsetConversionError { crawler_result, .. }) => Some(
            crawler_result.mills_takes_to_complete_to_request,
        ),
        Err(SpecCrawlerError::OtherError { .. }) => None,
    }
}

/// The retry count a fetch metric records; an unclassified failure
/// records none happened.
pub open spec fn spec_metric_retry(r: Result<SpecCrawlerResult, SpecCrawlerError>) -> u8 {
    match r {
        Ok(s) => s.retry_count,
        Err(SpecCrawlerError::ClientError(c)) => c.retry_count,
        Err(SpecCrawlerError::ServerError(c)) => c.retry_count,
        Err(SpecCrawlerError::TimeoutError { retry_count, .. }) => retry_count,
        Err(SpecCrawlerError::CharsetConversionError { crawler_result, .. }) => {
            crawler_result.retry_count
        },
        Err(SpecCrawlerError::OtherError { .. }) => 0,
    }
}

/// The crawl date a fetch metric records: the result's own date where it
/// carries one, else the record's instant.
pub open spec fn spec_metric_date(
    r: Result<SpecCrawlerResult, SpecCrawlerError>,
    now: Timestamp,
) -> Timestamp {
    match r {
        Ok(s) => s.crawl_date,
        Err(SpecCrawlerError::ClientError(c)) => c.crawl_date,
        Err(SpecCrawlerError::ServerError(c)) => c.crawl_date,
        Err(SpecCrawlerError::TimeoutError { .. }) => now,
        Err(SpecCrawlerError::CharsetConversionError { crawler_result, .. }) => {
            crawler_result.crawl_date
        },
        Err(SpecCrawlerError::OtherError { .. }) => now,
    }
}

/// One fetch's metric record, bound for the search backend.
#[derive(Debug, PartialEq)]
pub struct CrawlerMetrics {
    pub crawler_name: String,
    pub result_code: u16,
    pub result_message: String,
    pub request_duration_millis: Option<u64>,
    pub error_detail: Option<String>,
    pub request: CrawlerRequest,
    pub retry_count: u8,
    pub crawled_date: Timestamp,
    pub hostname: String,
    pub index_name: String,
}

impl CrawlerMetrics {
    /// Builds the record of one fetch, dated and named explicitly.
    pub fn new_at(
        crawler_name: &str,
        request: CrawlerRequest,
        result: &Result<CrawlerResult, CrawlerError>,
        now: Timestamp,
        hostname: String,
    ) -> (r: CrawlerMetrics)
        ensures
            r.crawler_name@ == crawler_name@,
            r.result_code == spec_result_code(result_view(result)),
            r.result_message@ == spec_result_message(result_view(result)),
            r.request_duration_millis == spec_metric_duration(result_view(result)),
            result is Ok ==> r.error_detail is None,
            result matches Err(e) ==> r.error_detail matches Some(d) && d@
                == crate::result::spec_error_message(e@),
            r.request == request,
            r.retry_count == spec_metric_retry(result_view(result)),
            r.crawled_date == spec_metric_date(result_view(result), now),
            r.hostname == hostname,
            r.index_name@ == spec_crawler_index_name(spec_metric_date(result_view(result), now)),
    {
        let result_code = crate::result::get_result_code(result);
        let result_message = crate::result::get_result_message(result);
        let request_duration_millis: Option<u64> = match result {
            Ok(s) => Some(s.mills_takes_to_complete_to_request),
            Err(CrawlerError::ClientError(c)) => Some(c.mills_takes_to_complete_to_request),
            Err(CrawlerError::ServerError(c)) => Some(c.mills_takes_to_complete_to_request),
            Err(CrawlerError::TimeoutError { timeout_second, .. }) => Some(
                *timeout_second as u64,
            ),
            Err(CrawlerError::CharsetConversionError { crawler_result, .. }) => Some(
                crawler_result.mills_takes_to_complete_to_request,
            ),
            Err(CrawlerError::OtherError { .. }) => None,
        };
        let retry_count: u8 = match result {
            Ok(s) => s.retry_count,
            Err(CrawlerError::ClientError(c)) => c.retry_count,
            Err(CrawlerError::ServerError(c)) => c.retry_count,
            Err(CrawlerError::TimeoutError { retry_count, .. }) => *retry_count,
            Err(CrawlerError::CharsetConversionError { crawler_result, .. }) => {
                crawler_result.retry_count
            },
            Err(CrawlerError::OtherError { .. }) => 0,
        };
        let crawled_date: Timestamp = match result {
            Ok(s) => s.crawl_date,
            Err(CrawlerError::ClientError(c)) => c.crawl_date,
            Err(CrawlerError::ServerError(c)) => c.crawl_date,
            Err(CrawlerError::TimeoutError { .. }) => now,
            Err(CrawlerError::CharsetConversionError { crawler_result, .. }) => {
                crawler_result.crawl_date
            },
            Err(CrawlerError::OtherError { .. }) => now,
        };
        let error_detail: Option<String> = match result {
            Ok(_) => None,
            Err(e) => Some(e.to_message()),
        };
        let index_name = crawler_index_name(crawled_date);
        CrawlerMetrics {
            crawler_name: crawler_name.to_owned(),
            result_code,
            result_message,
            request_duration_millis,
            error_detail,
            request,
            retry_count,
            crawled_date,
            hostname,
            index_name,
        }
    }

    /// Builds the record of one fetch, dated now on this machine.
    pub fn new(
        crawler_name: &str,
        request: CrawlerRequest,
        result: &Result<CrawlerResult, CrawlerError>,
    ) -> (r: CrawlerMetrics)
        ensures
            r.crawler_name@ == crawler_name@,
            r.result_code == spec_result_code(result_view(result)),
            r.result_message@ == spec_result_message(result_view(result)),
            r.request_duration_millis == spec_metric_duration(result_view(result)),
            result matches Err(e) ==> r.error_detail matches Some(d) && d@
                == crate::result::spec_error_message(e@),
            result is Ok ==> r.error_detail is None,
            r.request == request,
            r.retry_count == spec_metric_retry(result_view(result)),
    {
        let now = now_timestamp();
        let hostname = get_hostname();
        Self::new_at(crawler_name, request, result, now, hostname)
    }

    /// The index this record goes to.
    pub fn elastic_search_index_name(&self) -> (r: &str)
        ensures
            r@ == self.index_name@,
    {
        self.index_name.as_str()
    }

    /// The document type name of fetch metrics.
    pub fn elastic_search_typename() -> (r: &'static str)
        ensures
            r@ == "raven-crawler-metrics"@,
    {
        "raven-crawler-metrics"
    }
}

/// One task's metric record, bound for the search backend.
#[derive(Debug, PartialEq)]
pub struct RavenCrawlTaskMetrics {
    pub total_duration_millis: u64,
    pub name: String,
    pub date: Timestamp,
    pub crawler_duration_millis: Option<u64>,
    pub persist_duration_millis: Option<u64>,
    pub result_code: u16,
    pub result_label: &'static str,
    pub result_detail: String,
    pub task: RavenCrawlTask,
    pub es_index_name: String,
}

/// The fetch duration a task metric records; a timeout records its
/// budget in milliseconds.
pub open spec fn spec_task_metric_crawler_duration(r: &Result<TaskSuccess, TaskFailed>) -> Option<
    u64,
> {
    match r {
        Ok(s) => Some(s.result.crawler_result@.mills_takes_to_complete_to_request),
        Err(f) => match &f.result {
            CrawlTaskError::CrawlerFailed(ce) => match ce@ {
                SpecCrawlerError::ClientError(c) => Some(c.mills_takes_to_complete_to_request),
                SpecCrawlerError::ServerError(c) => Some(c.mills_takes_to_complete_to_request),
                SpecCrawlerError::TimeoutError { timeout_second, .. } => Some(
                    (timeout_second as u64 * 1000) as u64,
                ),
                SpecCrawlerError::CharsetConversionError { crawler_result, .. } => Some(
                    crawler_result.mills_takes_to_complete_to_request,
                ),
                SpecCrawlerError::OtherError { .. } => None,
            },
            CrawlTaskError::PersistFailed { crawler_result, .. } => Some(
                crawler_result@.mills_takes_to_complete_to_request,
            ),
        },
    }
}

/// The persist duration a task metric records: the dispatcher time the
/// outcome carries.
pub open spec fn spec_task_metric_persist_duration(r: &Result<TaskSuccess, TaskFailed>) -> Option<
    u64,
> {
    match r {
        Ok(s) => Some(s.result.persist_duration_millis),
        Err(f) => match &f.result {
            CrawlTaskError::CrawlerFailed(_) => None,
            CrawlTaskError::PersistFailed { persist_duration_millis, .. } => Some(
                *persist_duration_millis,
            ),
        },
    }
}

impl RavenCrawlTaskMetrics {
    /// Builds the record of one task outcome, dated explicitly.
    pub fn new_at(name: &str, result: &Result<TaskSuccess, TaskFailed>, now: Timestamp) -> (r:
        RavenCrawlTaskMetrics)
        ensures
            r.name@ == name@,
            r.date == now,
            r.total_duration_millis == match result {
                Ok(s) => s.total_duration_millis,
                Err(f) => f.total_duration_millis,
            },
            r.result_code == match result {
                Ok(_) => 0,
                Err(f) => spec_task_err_code(&f.result),
            },
            r.result_label@ == match result {
                Ok(_) => "success"@,
                Err(f) => spec_task_err_label(&f.result),
            },
            r.result_detail@ == match result {
                Ok(_) => "success"@,
                Err(f) => spec_task_err_message(&f.result),
            },
            r.crawler_duration_millis == spec_task_metric_crawler_duration(result),
            r.persist_duration_millis == spec_task_metric_persist_duration(result),
            r.task@ == match result {
                Ok(s) => s.task@,
                Err(f) => f.task@,
            },
            r.es_index_name@ == spec_task_index_name(now),
    {
        let result_code: u16 = match result {
            Ok(_) => 0,
            Err(f) => f.result.err_code(),
        };
        let result_label: &'static str = match result {
            Ok(_) => "success",
            Err(f) => f.result.err_label(),
        };
        let result_detail: String = match result {
            Ok(_) => String::from_str("success"),
            Err(f) => f.result.to_message(),
        };
        let task: RavenCrawlTask = match result {
            Ok(s) => task_dup(&s.task),
            Err(f) => task_dup(&f.task),
        };
        let crawler_duration_millis: Option<u64> = match result {
            Ok(s) => Some(s.result.crawler_result.mills_takes_to_complete_to_request),
            Err(f) => match &f.result {
                CrawlTaskError::CrawlerFailed(ce) => match ce {
                    CrawlerError::ClientError(c) => Some(c.mills_takes_to_complete_to_request),
                    CrawlerError::ServerError(c) => Some(c.mills_takes_to_complete_to_request),
                    CrawlerError::TimeoutError { timeout_second, .. } => Some(
                        *timeout_second as u64 * 1000,
                    ),
                    CrawlerError::CharsetConversionError { crawler_result, .. } => Some(
                        crawler_result.mills_takes_to_complete_to_request,
                    ),
                    CrawlerError::OtherError { .. } => None,
                },
                CrawlTaskError::PersistFailed { crawler_result, .. } => Some(
                    crawler_result.mills_takes_to_complete_to_request,
                ),
            },
        };
        let persist_duration_millis: Option<u64> = match result {
            Ok(s) => Some(s.result.persist_duration_millis),
            Err(f) => match &f.result {
                CrawlTaskError::CrawlerFailed(_) => None,
                CrawlTaskError::PersistFailed { persist_duration_millis, .. } => Some(
                    *persist_duration_millis,
                ),
            },
        };
        let total_duration_millis: u64 = match result {
            Ok(s) => s.total_duration_millis,
            Err(f) => f.total_duration_millis,
        };
        let es_index_name = task_index_name(now);
        RavenCrawlTaskMetrics {
            total_duration_millis,
            name: name.to_owned(),
            date: now,
            crawler_duration_millis,
            persist_duration_millis,
            result_code,
            result_label,
            result_detail,
            task,
            es_index_name,
        }
    }

    /// Builds the record of one task outcome, dated now.
    pub fn new(name: &str, result: &Result<TaskSuccess, TaskFailed>) -> (r: RavenCrawlTaskMetrics)
        ensures
            r.name@ == name@,
            r.total_duration_millis == match result {
                Ok(s) => s.total_duration_millis,
                Err(f) => f.total_duration_millis,
            },
            r.result_code == match result {
                Ok(_) => 0,
                Err(f) => spec_task_err_code(&f.result),
            },
            r.result_label@ == match result {
                Ok(_) => "success"@,
                Err(f) => spec_task_err_label(&f.result),
            },
            r.result_detail@ == match result {
                Ok(_) => "success"@,
                Err(f) => spec_task_err_message(&f.result),
            },
            r.crawler_duration_millis == spec_task_metric_crawler_duration(result),
            r.persist_duration_millis == spec_task_metric_persist_duration(result),
            r.task@ == match result {
                Ok(s) => s.task@,
                Err(f) => f.task@,
            },
    {
        let now = now_timestamp();
        Self::new_at(name, result, now)
    }

    /// The index this record goes to.
    pub fn elastic_search_index_name(&self) -> (r: &str)
        ensures
            r@ == self.es_index_name@,
    {
        self.es_index_name.as_str()
    }

    /// The document type name of task metrics.
    pub fn elastic_search_typename() -> (r: &'static str)
        ensures
            r@ == "raven-task-metrics"@,
    {
        "raven-task-metrics"
    }
}

/// Copies a request, field by field.
fn request_dup(req: &CrawlerRequest) -> (r: CrawlerRequest)
    ensures
        r@ == req@,
{
    CrawlerRequest {
        url: req.url.clone(),
        method: req.method,
        header: clone_pairs(&req.header),
        encoding_setting: req.encoding_setting,
        timeout: req.timeout,
        max_retry: req.max_retry,
        query_params: clone_pairs(&req.query_params),
        body_params: clone_pairs(&req.body_params),
        sleep: req.sleep,
    }
}

/// Copies a task, field by field.
fn task_dup(task: &RavenCrawlTask) -> (r: RavenCrawlTask)
    ensures
        r@ == task@,
{
    let mut sinks: Vec<PersistMethod> = Vec::new();
    let mut i: usize = 0;
    while i < task.persist_methods.len()
        invariant
            i <= task.persist_methods@.len(),
            sinks.deep_view() =~= task.persist_methods.deep_view().subrange(0, i as int),
        decreases task.persist_methods@.len() - i,
    {
        let ghost prev = sinks.deep_view();
        let dup = match &task.persist_methods[i] {
            PersistMethod::LocalFile { file_path } => PersistMethod::LocalFile {
                file_path: file_path.clone(),
            },
            PersistMethod::AmazonS3 { region, bucket_name, object_key } => {
                PersistMethod::AmazonS3 {
                    region: region.clone(),
                    bucket_name: bucket_name.clone(),
                    object_key: object_key.clone(),
                }
            },
        };
        sinks.push(dup);
        proof {
            assert(sinks.deep_view().len() == prev.len() + 1);
            assert(sinks.deep_view()[prev.len() as int]
                == task.persist_methods.deep_view()[i as int]);
            assert forall|x: int| 0 <= x < prev.len() implies sinks.deep_view()[x]
                == prev[x] by {}
            assert(sinks.deep_view() =~= task.persist_methods.deep_view().subrange(0, i + 1));
        }
        i += 1;
    }
    proof {
        let full = task.persist_methods.deep_view();
        assert(full.subrange(0, full.len() as int) =~= full);
    }
    RavenCrawlTask { request: request_dup(&task.request), persist_methods: sinks }
}

/// The fetch outcome a task outcome's metric reports: the fetch error
/// where the fetch failed, else the fetch result the outcome carries.
pub open spec fn spec_metric_source(r: &Result<TaskSuccess, TaskFailed>) -> Result<
    SpecCrawlerResult,
    SpecCrawlerError,
> {
    match r {
        Ok(s) => Ok(s.result.crawler_result@),
        Err(f) => match &f.result {
            CrawlTaskError::CrawlerFailed(e) => Err(e@),
            CrawlTaskError::PersistFailed { crawler_result, .. } => Ok(crawler_result@),
        },
    }
}

/// Builds the fetch metric of a task outcome: a fetch failure records
/// its error, and any outcome that carries a fetch result records it.
pub fn to_crawler_metrics(crawler_name: &str, result: Result<TaskSuccess, TaskFailed>) -> (r:
    CrawlerMetrics)
    ensures
        r.crawler_name@ == crawler_name@,
        r.result_code == spec_result_code(spec_metric_source(&result)),
        r.result_message@ == spec_result_message(spec_metric_source(&result)),
        r.request_duration_millis == spec_metric_duration(spec_metric_source(&result)),
        r.retry_count == spec_metric_retry(spec_metric_source(&result)),
        r.request@ == match &result {
            Ok(s) => s.task.request@,
            Err(f) => f.task.request@,
        },
{
    match result {
        Ok(success) => CrawlerMetrics::new(
            crawler_name,
            success.task.request,
            &Ok(success.result.crawler_result),
        ),
        Err(fail) => match fail.result {
            CrawlTaskError::CrawlerFailed(crawler_fail) => CrawlerMetrics::new(
                crawler_name,
                fail.task.request,
                &Err(crawler_fail),
            ),
            CrawlTaskError::PersistFailed { crawler_result, .. } => CrawlerMetrics::new(
                crawler_name,
                fail.task.request,
                &Ok(crawler_result),
            ),
        },
    }
}

/// An index-template creation failure, reported and then ignored.
#[derive(Debug, Eq, PartialEq, Clone)]
pub struct CreateEsIndexTemplateError(pub String);

/// What the run summary reports: how many tasks ran, how many failed,
/// and how many sink writes failed inside otherwise successful tasks.
#[derive(Debug, PartialEq, Eq, Structural, Clone, Copy)]
pub struct RunSummary {
    pub task_count: u64,
    pub failure_count: u64,
    pub persist_error_count: u64,
}

/// The failed outcomes among the results.
pub open spec fn spec_failure_count(results: Seq<Result<TaskSuccess, TaskFailed>>) -> int
    decreases results.len(),
{
    if results.len() == 0 {
        0
    } else {
        spec_failure_count(results.drop_last()) + if results.last() is Err {
            1int
        } else {
            0int
        }
    }
}

/// The sink failures recorded inside successful outcomes.
pub open spec fn spec_persist_error_count(results: Seq<Result<TaskSuccess, TaskFailed>>) -> int
    decreases results.len(),
{
    if results.len() == 0 {
        0
    } else {
        spec_persist_error_count(results.drop_last()) + match results.last() {
            Ok(s) => s.result.persist_errors@.len() as int,
            Err(_) => 0,
        }
    }
}

/// Counts what the run summary reports; the counters saturate rather
/// than wrap.
pub fn summarize_results(results: &Vec<Result<TaskSuccess, TaskFailed>>) -> (r: RunSummary)
    ensures
        r.task_count == results@.len(),
        r.failure_count == spec_failure_count(results@),
        r.persist_error_count <= spec_persist_error_count(results@),
        spec_persist_error_count(results@) <= u64::MAX ==> r.persist_error_count
            == spec_persist_error_count(results@),
{
    let mut failure_count: u64 = 0;
    let mut persist_error_count: u64 = 0;
    let mut i: usize = 0;
    proof {
        lemma_failure_count_bounds(results@);
        assert(results@.subrange(0, 0) =~= Seq::<Result<TaskSuccess, TaskFailed>>::empty());
    }
    while i < results.len()
        invariant
            i <= results@.len(),
            failure_count == spec_failure_count(results@.subrange(0, i as int)),
            persist_error_count <= spec_persist_error_count(results@.subrange(0, i as int)),
            spec_persist_error_count(results@.subrange(0, i as int)) <= u64::MAX
                ==> persist_error_count == spec_persist_error_count(
                results@.subrange(0, i as int),
            ),
        decreases results@.len() - i,
    {
        let ghost upto = results@.subrange(0, i + 1);
        proof {
            assert(upto.drop_last() =~= results@.subrange(0, i as int));
            assert(upto.last() == results@[i as int]);
            lemma_failure_count_bounds(upto);
            lemma_persist_count_nonneg(results@.subrange(0, i as int));
        }
        match &results[i] {
            Ok(s) => {
                persist_error_count = persist_error_count.saturating_add(
                    s.result.persist_errors.len() as u64,
                );
            },
            Err(_) => {
                failure_count = failure_count + 1;
            },
        }
        i += 1;
    }
    proof {
        assert(results@.subrange(0, results@.len() as int) =~= results@);
    }
    RunSummary { task_count: results.len() as u64, failure_count, persist_error_count }
}

/// The body of the run summary notification: crawler name, hostname,
/// start datetime, total duration in whole seconds, and the summary
/// counts.
pub open spec fn spec_run_summary_message(
    name: Seq<char>,
    hostname: Seq<char>,
    start_datetime: Seq<char>,
    total_duration_millis: u64,
    summary: RunSummary,
) -> Seq<char> {
    "\n        crawler name:        "@ + name + "\n        crawler hostname:    "@ + hostname
        + "\n        start datetime:      "@ + start_datetime
        + "\n        total duration:      "@ + spec_dec_string((total_duration_millis / 1000) as nat)
        + " seconds"@ + "\n        failure task num:    "@ + spec_dec_string(
        summary.task_count as nat,
    ) + "\n        failure request num: "@ + spec_dec_string(summary.failure_count as nat)
        + "\n        output failure num:  "@ + spec_dec_string(summary.persist_error_count as nat)
        + " "@
}

/// Builds the run summary notification body.
pub fn run_summary_message(
    name: &str,
    hostname: &str,
    start_datetime: &str,
    total_duration_millis: u64,
    summary: RunSummary,
) -> (r: String)
    ensures
        r@ == spec_run_summary_message(
            name@,
            hostname@,
            start_datetime@,
            total_duration_millis,
            summary,
        ),
{
    let mut out = String::new();
    out.append("\n        crawler name:        ");
    out.append(name);
    out.append("\n        crawler hostname:    ");
    out.append(hostname);
    out.append("\n        start datetime:      ");
    out.append(start_datetime);
    out.append("\n        total duration:      ");
    let seconds = u64_to_string(total_duration_millis / 1000);
    out.append(seconds.as_str());
    out.append(" seconds");
    out.append("\n        failure task num:    ");
    let tasks = u64_to_string(summary.task_count);
    out.append(tasks.as_str());
    out.append("\n        failure request num: ");
    let failures = u64_to_string(summary.failure_count);
    out.append(failures.as_str());
    out.append("\n        output failure num:  ");
    let persist = u64_to_string(summary.persist_error_count);
    out.append(persist.as_str());
    out.append(" ");
    proof {
        assert(out@ =~= spec_run_summary_message(
            name@,
            hostname@,
            start_datetime@,
            total_duration_millis,
            summary,
        ));
    }
    out
}

proof fn lemma_failure_count_bounds(results: Seq<Result<TaskSuccess, TaskFailed>>)
    ensures
        0 <= spec_failure_count(results) <= results.len(),
    decreases results.len(),
{
    if results.len() > 0 {
        lemma_failure_count_bounds(results.drop_last());
    }
}

proof fn lemma_persist_count_nonneg(results: Seq<Result<TaskSuccess, TaskFailed>>)
    ensures
        spec_persist_error_count(results) >= 0,
    decreases results.len(),
{
    if results.len() > 0 {
        lemma_persist_count_nonneg(results.drop_last());
    }
}

} // verus!
