use raven::config::NotifyMethod;
use raven::logger::LogLevel;
use raven::metrics::{run_summary_message, summarize_results, CrawlerMetrics, RavenCrawlTaskMetrics};
use raven::mime::Mime;
use raven::persist::{PersistError, PersistMethod};
use raven::request::{create_query_strings, CrawlerRequest, Method};
use raven::result::{CrawlerError, CrawlerResult};
use raven::task::{CrawlTaskError, RavenCrawlTask, TaskFailed, TaskSuccess};
use raven::timefmt::Timestamp;

fn at() -> Timestamp {
    Timestamp { millis: 1_700_000_000_000, offset_seconds: 0 }
}

fn request() -> CrawlerRequest {
    CrawlerRequest {
        url: "http://localhost/1".to_owned(),
        method: Method::Get,
        header: Vec::new(),
        encoding_setting: None,
        timeout: 1,
        max_retry: 0,
        query_params: Vec::new(),
        body_params: Vec::new(),
        sleep: None,
    }
}

fn crawler_result() -> CrawlerResult {
    CrawlerResult {
        response_status: 200,
        response_header: Vec::new(),
        response_body: b"payload".to_vec(),
        mills_takes_to_complete_to_request: 42,
        retry_count: 0,
        response_content_type: Mime::ApplicationOctetStream,
        crawl_date: at(),
    }
}

fn two_sink_task() -> RavenCrawlTask {
    RavenCrawlTask {
        request: request(),
        persist_methods: vec![
            PersistMethod::LocalFile { file_path: "/tmp/out.html".to_owned() },
            PersistMethod::AmazonS3 {
                region: "ap-northeast-1".to_owned(),
                bucket_name: "bucket".to_owned(),
                object_key: "key".to_owned(),
            },
        ],
    }
}

#[test]
fn partial_persist_failure_is_still_a_success() {
    // local write succeeds, the S3 put fails: the outcome is a success
    // carrying the one sink failure
    let task = two_sink_task();
    let persist_results: Vec<Result<(), PersistError>> = vec![
        Ok(()),
        Err(PersistError::FailedToPutToS3("bucket unreachable".to_owned())),
    ];
    let outcome = task.classify_outcome(Ok(crawler_result()), persist_results, 5, 50);
    let success = outcome.unwrap();
    assert_eq!(
        success.result.persist_errors,
        vec![PersistError::FailedToPutToS3("bucket unreachable".to_owned())]
    );
    assert_eq!(success.result.persist_duration_millis, 5);
    assert_eq!(success.total_duration_millis, 50);
}

#[test]
fn all_sinks_failing_fails_the_task() {
    let task = two_sink_task();
    let persist_results: Vec<Result<(), PersistError>> = vec![
        Err(PersistError::FailedToWriteLocalFile("disk full".to_owned())),
        Err(PersistError::FailedToPutToS3("bucket unreachable".to_owned())),
    ];
    let outcome = task.classify_outcome(Ok(crawler_result()), persist_results, 5, 50);
    let failed = match outcome {
        Err(f) => f,
        Ok(_) => panic!("every sink failed, the task must fail"),
    };
    match failed.result {
        CrawlTaskError::PersistFailed { persist_errors, persist_duration_millis, .. } => {
            assert_eq!(persist_errors.len(), 2);
            assert_eq!(persist_duration_millis, 5);
        }
        other => panic!("expected a persist failure, got {:?}", other),
    }
}

#[test]
fn crawler_failure_fails_the_task() {
    let task = two_sink_task();
    let err = CrawlerError::TimeoutError { timeout_second: 1, retry_count: 0 };
    let outcome = task.classify_outcome(Err(err.clone()), Vec::new(), 0, 9);
    let failed = outcome.unwrap_err();
    assert_eq!(failed.result, CrawlTaskError::CrawlerFailed(err));
    assert_eq!(failed.total_duration_millis, 9);
}

#[test]
fn error_codes_and_labels() {
    let cr = crawler_result;
    let cases: Vec<(CrawlerError, u16, &str)> = vec![
        (CrawlerError::ClientError(cr()), 400, "client error"),
        (CrawlerError::ServerError(cr()), 500, "server error"),
        (CrawlerError::TimeoutError { timeout_second: 3, retry_count: 2 }, 600, "timeout"),
        (
            CrawlerError::CharsetConversionError {
                error_detail: "broken".to_owned(),
                crawler_result: cr(),
            },
            700,
            "charset conversion failed",
        ),
        (CrawlerError::OtherError { error_detail: "boom".to_owned() }, 800, "other error"),
    ];
    for (err, code, label) in cases {
        assert_eq!(err.err_code(), code);
        assert_eq!(err.description(), label);
    }
    assert_eq!(
        CrawlerError::TimeoutError { timeout_second: 3, retry_count: 2 }.to_message(),
        "request timeout: 3 seconds (retry: 2)".to_owned()
    );
    assert_eq!(
        CrawlerError::ClientError(cr()).to_message(),
        "client_error: payload".to_owned()
    );
}

#[test]
fn task_error_codes_and_labels() {
    let persist = CrawlTaskError::PersistFailed {
        crawler_result: crawler_result(),
        persist_errors: vec![
            PersistError::FailedToWriteLocalFile("a".to_owned()),
            PersistError::FailedToPutToS3("b".to_owned()),
        ],
        persist_duration_millis: 1,
    };
    assert_eq!(persist.err_code(), 1000);
    assert_eq!(persist.err_label(), "persist failed");
    assert_eq!(
        persist.to_message(),
        "failed to persist: failed to write to local file: a, failed to put to s3: b".to_owned()
    );
    let crawl = CrawlTaskError::CrawlerFailed(CrawlerError::OtherError {
        error_detail: "boom".to_owned(),
    });
    assert_eq!(crawl.err_code(), 800);
    assert_eq!(crawl.to_message(), "failed to crawl: unexpected error: boom".to_owned());
}

fn success_outcome(persist_errors: Vec<PersistError>) -> Result<TaskSuccess, TaskFailed> {
    let task = two_sink_task();
    let results: Vec<Result<(), PersistError>> = vec![Ok(()), Ok(())];
    let mut outcome = task.classify_outcome(Ok(crawler_result()), results, 5, 50).unwrap();
    outcome.result.persist_errors = persist_errors;
    Ok(outcome)
}

fn failed_outcome() -> Result<TaskSuccess, TaskFailed> {
    let task = two_sink_task();
    let err = CrawlerError::OtherError { error_detail: "boom".to_owned() };
    Err(task.classify_outcome(Err(err), Vec::new(), 0, 9).unwrap_err())
}

#[test]
fn run_summary_counts_failures_and_persist_errors() {
    let results = vec![
        success_outcome(vec![]),
        success_outcome(vec![PersistError::FailedToPutToS3("x".to_owned())]),
        failed_outcome(),
    ];
    let summary = summarize_results(&results);
    assert_eq!(summary.task_count, 3);
    assert_eq!(summary.failure_count, 1);
    assert_eq!(summary.persist_error_count, 1);
}

#[test]
fn metrics_record_codes_and_messages() {
    let ok: Result<CrawlerResult, CrawlerError> = Ok(crawler_result());
    let m = CrawlerMetrics::new_at("crawler", request(), &ok, at(), "host".to_owned());
    assert_eq!(m.result_code, 200);
    assert_eq!(m.result_message, "success".to_owned());
    assert_eq!(m.request_duration_millis, Some(42));
    assert_eq!(m.retry_count, 0);
    assert_eq!(m.error_detail, None);
    assert_eq!(m.hostname, "host".to_owned());
    assert_eq!(m.index_name, "raven-crawler-2023-11-14".to_owned());

    let err: Result<CrawlerResult, CrawlerError> =
        Err(CrawlerError::TimeoutError { timeout_second: 7, retry_count: 3 });
    let m = CrawlerMetrics::new_at("crawler", request(), &err, at(), "host".to_owned());
    assert_eq!(m.result_code, 600);
    assert_eq!(m.request_duration_millis, Some(7));
    assert_eq!(m.retry_count, 3);
    assert_eq!(
        m.error_detail,
        Some("request timeout: 7 seconds (retry: 3)".to_owned())
    );
}

#[test]
fn task_metrics_record_outcome() {
    let outcome = success_outcome(vec![]);
    let m = RavenCrawlTaskMetrics::new_at("crawler", &outcome, at());
    assert_eq!(m.result_code, 0);
    assert_eq!(m.result_label, "success");
    assert_eq!(m.result_detail, "success".to_owned());
    assert_eq!(m.total_duration_millis, 50);
    assert_eq!(m.es_index_name, "raven-task-metrics-2023-11-14".to_owned());

    let failed = failed_outcome();
    let m = RavenCrawlTaskMetrics::new_at("crawler", &failed, at());
    assert_eq!(m.result_code, 800);
    assert_eq!(m.result_label, "other error");
    assert_eq!(m.result_detail, "failed to crawl: unexpected error: boom".to_owned());
}

#[test]
fn query_strings_join_pairs() {
    let empty: Vec<(String, String)> = Vec::new();
    assert_eq!(create_query_strings(&empty), None);
    let pairs = vec![
        ("a".to_owned(), "1".to_owned()),
        ("b".to_owned(), "2".to_owned()),
    ];
    assert_eq!(create_query_strings(&pairs), Some("a=1&b=2".to_owned()));
}

#[test]
fn log_levels_read_and_print() {
    assert_eq!(LogLevel::from_str("WARN"), Ok(LogLevel::Warn));
    assert_eq!(LogLevel::from_str("trace"), Ok(LogLevel::Trace));
    assert_eq!(LogLevel::Error.to_str(), "error");
    assert_eq!(
        LogLevel::from_str("loud"),
        Err("invalid value for LogLevel: loud".to_owned())
    );
}

#[test]
fn persist_method_file_names() {
    let mut sink = PersistMethod::AmazonS3 {
        region: "r".to_owned(),
        bucket_name: "b".to_owned(),
        object_key: "old".to_owned(),
    };
    assert_eq!(sink.get_file_name(), "old");
    sink.update_file_path("new".to_owned());
    assert_eq!(sink.get_file_name(), "new");
    match sink {
        PersistMethod::AmazonS3 { region, bucket_name, object_key } => {
            assert_eq!(region, "r".to_owned());
            assert_eq!(bucket_name, "b".to_owned());
            assert_eq!(object_key, "new".to_owned());
        }
        PersistMethod::LocalFile { .. } => panic!("the sink kind must be kept"),
    }
}

#[test]
fn single_pair_query_string_has_no_separator() {
    let pairs = vec![("key".to_owned(), "value".to_owned())];
    assert_eq!(create_query_strings(&pairs), Some("key=value".to_owned()));
}

#[test]
fn persist_error_messages() {
    assert_eq!(
        PersistError::FailedToWriteLocalFile("oops".to_owned()).to_message(),
        "failed to write to local file: oops".to_owned()
    );
    assert_eq!(
        PersistError::FailedToPutToS3("oops".to_owned()).to_message(),
        "failed to put to s3: oops".to_owned()
    );
}

#[test]
fn non_utf8_error_bodies_get_a_marker() {
    let mut res = crawler_result();
    res.response_body = vec![0xff, 0xfe, 0x80];
    assert_eq!(
        CrawlerError::ServerError(res).to_message(),
        "server_error: (not utf-8)".to_owned()
    );
}

#[test]
fn notify_level_is_a_minimum() {
    let sink = NotifyMethod::Slack {
        url: "https://hooks.example/x".to_owned(),
        channel: "#ops".to_owned(),
        mention: None,
        level: LogLevel::Info,
    };
    // the configured level is the minimum severity the sink subscribes to
    assert!(sink.matches_level(LogLevel::Info));
    assert!(sink.matches_level(LogLevel::Warn));
    assert!(sink.matches_level(LogLevel::Error));
    assert!(!sink.matches_level(LogLevel::Debug));
    assert!(!sink.matches_level(LogLevel::Trace));

    let strict = NotifyMethod::Slack {
        url: "https://hooks.example/x".to_owned(),
        channel: "#ops".to_owned(),
        mention: None,
        level: LogLevel::Error,
    };
    assert!(strict.matches_level(LogLevel::Error));
    assert!(!strict.matches_level(LogLevel::Info));
}

#[test]
fn task_metric_records_the_persist_duration() {
    let outcome = success_outcome(vec![]);
    let m = RavenCrawlTaskMetrics::new_at("crawler", &outcome, at());
    assert_eq!(m.persist_duration_millis, Some(5));
    assert_eq!(m.crawler_duration_millis, Some(42));
}

#[test]
fn run_summary_message_reports_the_counts() {
    let results = vec![
        success_outcome(vec![PersistError::FailedToPutToS3("x".to_owned())]),
        failed_outcome(),
    ];
    let summary = summarize_results(&results);
    let message = run_summary_message("crawler", "host", "2024-05-06 12:00:00", 7500, summary);
    assert!(message.contains("crawler name:        crawler"));
    assert!(message.contains("crawler hostname:    host"));
    assert!(message.contains("start datetime:      2024-05-06 12:00:00"));
    assert!(message.contains("total duration:      7 seconds"));
    assert!(message.contains("failure task num:    2"));
    assert!(message.contains("failure request num: 1"));
    assert!(message.contains("output failure num:  1"));
}
