use chrono::{Local, TimeZone, Utc};
use raven::config::{
    parse_key_value_map, EsConfig, FileLogConfig, LogConfig, RavenConfig, RavenRequest,
};
use raven::template::TemplateBuilder;
use raven::logger::LogLevel;
use raven::persist::PersistMethod;
use raven::request::Method;
use raven::task::RavenCrawlTask;
use raven::timefmt::Timestamp;

fn test_config(vars: Vec<Vec<(String, Vec<String>)>>, params: Vec<Vec<(String, Vec<String>)>>) -> RavenConfig {
    RavenConfig {
        name: "test_config".to_owned(),
        request: RavenRequest {
            url: "http://test.com/{{id}}".to_owned(),
            method: Method::Get,
            headers: Vec::new(),
            vars,
            encoding: None,
            timeout_in_seconds: 5,
            max_retry: 1,
            params,
            sleep_seconds: None,
        },
        notify: Vec::new(),
        output: vec![PersistMethod::AmazonS3 {
            region: "ap-northeast-1".to_owned(),
            bucket_name: "application".to_owned(),
            object_key: "test/%Y%m%d/{{id}}_{{offset}}_{{limit}}.html".to_owned(),
        }],
        max_threads: 1,
        log: LogConfig {
            file: FileLogConfig { path: "/var/tmp/log".to_owned(), level: LogLevel::Debug },
            elasticsearch: None::<EsConfig>,
        },
    }
}

fn expansion_inputs() -> (Vec<Vec<(String, Vec<String>)>>, Vec<Vec<(String, Vec<String>)>>) {
    let var: Vec<(String, Vec<String>)> =
        vec![("id".to_owned(), vec!["1".to_owned(), "2".to_owned()])];

    let param_1: Vec<(String, Vec<String>)> = vec![
        ("offset".to_owned(), vec!["0".to_owned()]),
        ("limit".to_owned(), vec!["100".to_owned()]),
    ];

    let param_2: Vec<(String, Vec<String>)> = vec![
        ("offset".to_owned(), vec!["100".to_owned(), "300".to_owned()]),
        ("limit".to_owned(), vec!["200".to_owned()]),
    ];

    (vec![var], vec![param_1, param_2])
}

fn check_expansion(tasks: Vec<RavenCrawlTask>, now_y_m_d: &str) {
    let expected_url = vec![
        "http://test.com/1".to_owned(),
        "http://test.com/2".to_owned(),
    ];

    let expected_object_keys = vec![
        format!("test/{}/{}_{}_{}.html", now_y_m_d, "1", "0", "100"),
        format!("test/{}/{}_{}_{}.html", now_y_m_d, "2", "0", "100"),
        format!("test/{}/{}_{}_{}.html", now_y_m_d, "1", "100", "200"),
        format!("test/{}/{}_{}_{}.html", now_y_m_d, "1", "300", "200"),
        format!("test/{}/{}_{}_{}.html", now_y_m_d, "2", "100", "200"),
        format!("test/{}/{}_{}_{}.html", now_y_m_d, "2", "300", "200"),
    ];

    assert_eq!(tasks.len(), 6);
    for task in tasks.iter() {
        assert_eq!(task.request.method, Method::Get);
        assert_eq!(task.request.header.len(), 0);
        assert_eq!(task.request.encoding_setting, None);
        assert_eq!(task.request.timeout, 5);
        assert_eq!(task.request.max_retry, 1);
        assert_eq!(task.request.body_params.len(), 0);
        assert_eq!(expected_url.contains(&task.request.url), true);
        let file_name = match &task.persist_methods[0] {
            PersistMethod::LocalFile { .. } => panic!("must not be LocalFile."),
            PersistMethod::AmazonS3 { object_key, .. } => object_key,
        };
        assert_eq!(expected_object_keys.contains(file_name), true);
    }
}

#[test]
fn create_request_from_config_test() {
    let (vars, params) = expansion_inputs();
    let raven_config = test_config(vars, params);

    let now_y_m_d = Local::now().format("%Y%m%d").to_string();
    let result: Result<Vec<RavenCrawlTask>, String> = raven_config.create_crawler_tasks();

    assert_eq!(result.is_ok(), true);
    check_expansion(result.unwrap(), &now_y_m_d);
}

#[test]
fn expansion_with_fixed_date() {
    // with today = 2024-05-06 the six tasks carry the six expected keys
    let (vars, params) = expansion_inputs();
    let raven_config = test_config(vars, params);

    let instant = Utc.with_ymd_and_hms(2024, 5, 6, 12, 0, 0).unwrap();
    let now = Timestamp { millis: instant.timestamp_millis() as u64, offset_seconds: 0 };
    let tasks = raven_config.create_crawler_tasks_at(now).unwrap();
    check_expansion(tasks, "20240506");
}

#[test]
fn task_count_is_cross_product_of_lists() {
    let (vars, params) = expansion_inputs();
    let raven_config = test_config(vars, params);
    // vars_list has 2 maps, params_list has 1 + 2 maps
    let tasks = raven_config.create_crawler_tasks().unwrap();
    assert_eq!(tasks.len(), 2 * 3);
}

#[test]
fn missing_key_aborts_expansion() {
    let (vars, _) = expansion_inputs();
    let mut raven_config = test_config(vars, Vec::new());
    raven_config.request.url = "http://test.com/{{absent}}".to_owned();
    raven_config.output = vec![PersistMethod::LocalFile { file_path: path_stub() }];
    let result = raven_config.create_crawler_tasks();
    assert_eq!(result, Err("could not find value: absent".to_owned()));
}

fn path_stub() -> String {
    "/tmp/out.html".to_owned()
}

#[test]
fn empty_url_template_is_rejected() {
    let (vars, params) = expansion_inputs();
    let mut raven_config = test_config(vars, params);
    raven_config.request.url = "".to_owned();
    let result = raven_config.create_crawler_tasks();
    assert_eq!(
        result,
        Err("failed to parse template string: ".to_owned())
    );
}

#[test]
fn parse_key_value_map_test() {
    let now_y_m_d = Local::now().format("%Y-%m-%d");
    let test_map: Vec<(String, Vec<String>)> = vec![
        ("name".to_owned(), vec!["tsuboshy".to_owned(), "sato".to_owned()]),
        ("event_date".to_owned(), vec!["2019-04-1[1..2]".to_owned()]),
        ("test_date".to_owned(), vec!["%Y-%m-%d".to_owned()]),
    ];

    let results: Vec<Vec<(String, String)>> = parse_key_value_map(&test_map).unwrap();

    let expected: Vec<Vec<(String, String)>> = vec![
        vec![
            ("name".to_owned(), "tsuboshy".to_owned()),
            ("event_date".to_owned(), "2019-04-11".to_owned()),
            ("test_date".to_owned(), now_y_m_d.to_string()),
        ],
        vec![
            ("name".to_owned(), "tsuboshy".to_owned()),
            ("event_date".to_owned(), "2019-04-12".to_owned()),
            ("test_date".to_owned(), now_y_m_d.to_string()),
        ],
        vec![
            ("name".to_owned(), "sato".to_owned()),
            ("event_date".to_owned(), "2019-04-11".to_owned()),
            ("test_date".to_owned(), now_y_m_d.to_string()),
        ],
        vec![
            ("name".to_owned(), "sato".to_owned()),
            ("event_date".to_owned(), "2019-04-12".to_owned()),
            ("test_date".to_owned(), now_y_m_d.to_string()),
        ],
    ];
    assert_eq!(expected.len(), results.len());
    for result_map in results {
        let mut matched = false;
        for expected_map in &expected {
            let mut same = true;
            for pair in &result_map {
                if !expected_map.contains(pair) {
                    same = false;
                }
            }
            if same && result_map.len() == expected_map.len() {
                matched = true;
            }
        }
        if !matched {
            panic!("result_map is not expected!: {:?}", result_map);
        }
    }
}

#[test]
fn parse_key_value_map_and_template_parser_test() {
    let now_y_m_d = Local::now().format("%Y-%m-%d").to_string();

    let builder = TemplateBuilder::new("https://application/{{a}}/{{b}}/{{c}}");

    let map: Vec<(String, Vec<String>)> = vec![
        ("a".to_owned(), vec!["a1".to_owned(), "a2".to_owned()]),
        ("b".to_owned(), vec!["b[1..2]".to_owned()]),
        ("c".to_owned(), vec!["c1-%Y-%m-%d".to_owned()]),
    ];

    let expected = vec![
        ["https://application/a1/b1/c1-", &now_y_m_d].concat(),
        ["https://application/a1/b2/c1-", &now_y_m_d].concat(),
        ["https://application/a2/b1/c1-", &now_y_m_d].concat(),
        ["https://application/a2/b2/c1-", &now_y_m_d].concat(),
    ];

    let parsed_map_list = parse_key_value_map(&map).unwrap();
    assert_eq!(parsed_map_list.len(), expected.len());

    for parsed in parsed_map_list {
        let embedded = builder.build_string(&parsed).unwrap();
        assert!(expected.contains(&embedded));
    }
}

#[test]
fn params_win_over_vars_on_shared_keys() {
    let vars: Vec<Vec<(String, Vec<String>)>> =
        vec![vec![("id".to_owned(), vec!["from-var".to_owned()])]];
    let params: Vec<Vec<(String, Vec<String>)>> =
        vec![vec![("id".to_owned(), vec!["from-param".to_owned()])]];
    let mut raven_config = test_config(vars, params);
    raven_config.output = vec![PersistMethod::LocalFile { file_path: path_stub() }];
    let tasks = raven_config.create_crawler_tasks().unwrap();
    assert_eq!(tasks.len(), 1);
    assert_eq!(tasks[0].request.url, "http://test.com/from-param");
}
