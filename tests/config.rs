use website_status_checker::args::{
    gather_urls, is_url_line, parse_args, parse_args_with, same_text, url_lines, Options,
    UrlSource,
};
use website_status_checker::config::{Config, ConfigError, Flag, DEFAULT_TIMEOUT_SECS};

fn args(list: &[&str]) -> Vec<String> {
    list.iter().map(|s| s.to_string()).collect()
}

#[test]
fn config_accepts_valid_values() {
    let c = Config::new(vec!["https://a".to_string()], 2, 1, 3).unwrap();
    assert_eq!(c.urls, vec!["https://a".to_string()]);
    assert_eq!((c.worker_count, c.timeout_secs, c.retry_count), (2, 1, 3));
}

#[test]
fn config_without_urls_is_refused() {
    assert_eq!(Config::new(vec![], 0, 0, 0), Err(ConfigError::NoUrls));
}

#[test]
fn zero_workers_is_refused_before_any_probe() {
    let probes = std::cell::Cell::new(0);
    let stub = |_: &str| probes.set(probes.get() + 1);
    match Config::new(vec!["https://a".to_string()], 0, 5, 0) {
        Ok(c) => c.urls.iter().for_each(|u| stub(u)),
        Err(e) => assert_eq!(e, ConfigError::NoWorkers),
    }
    assert_eq!(probes.get(), 0);
}

#[test]
fn zero_timeout_is_refused() {
    assert_eq!(Config::new(vec!["https://a".to_string()], 1, 0, 0), Err(ConfigError::ZeroTimeout));
}

#[test]
fn defaults_apply_without_options() {
    let o = parse_args_with(&args(&["prog", "https://a", "https://b"]), 4).unwrap();
    assert_eq!(
        o,
        Options {
            sources: vec![
                UrlSource::Url("https://a".to_string()),
                UrlSource::Url("https://b".to_string())
            ],
            workers: 4,
            timeout_secs: DEFAULT_TIMEOUT_SECS,
            retries: 0,
        }
    );
}

#[test]
fn options_take_their_values() {
    let o = parse_args_with(
        &args(&[
            "prog", "--workers", "3", "x", "--timeout", "+12", "--file", "list.txt", "--retries",
            "2", "--workers", "8",
        ]),
        1,
    )
    .unwrap();
    assert_eq!(o.workers, 8);
    assert_eq!(o.timeout_secs, 12);
    assert_eq!(o.retries, 2);
    assert_eq!(
        o.sources,
        vec![UrlSource::Url("x".to_string()), UrlSource::File("list.txt".to_string())]
    );
}

#[test]
fn command_line_without_urls_is_refused() {
    assert_eq!(parse_args_with(&args(&["prog"]), 2), Err(ConfigError::NoUrls));
    assert_eq!(parse_args_with(&args(&[]), 2), Err(ConfigError::NoUrls));
    assert_eq!(parse_args_with(&args(&["prog", "--workers", "2"]), 2), Err(ConfigError::NoUrls));
}

#[test]
fn zero_workers_on_the_command_line_is_refused() {
    assert_eq!(
        parse_args_with(&args(&["prog", "https://a", "--workers", "0"]), 4),
        Err(ConfigError::NoWorkers)
    );
    assert_eq!(parse_args_with(&args(&["prog", "https://a"]), 0), Err(ConfigError::NoWorkers));
    assert_eq!(parse_args(&args(&["prog", "https://a", "--workers", "0"])), Err(ConfigError::NoWorkers));
}

#[test]
fn zero_timeout_on_the_command_line_is_refused() {
    assert_eq!(
        parse_args_with(&args(&["prog", "https://a", "--timeout", "0"]), 4),
        Err(ConfigError::ZeroTimeout)
    );
}

#[test]
fn url_file_alone_is_a_source() {
    let o = parse_args_with(&args(&["prog", "--file", "sites.txt"]), 1).unwrap();
    assert_eq!(o.sources, vec![UrlSource::File("sites.txt".to_string())]);
}

#[test]
fn machine_default_gives_at_least_one_worker() {
    let o = parse_args(&args(&["prog", "https://a"])).unwrap();
    assert!(o.workers >= 1);
}

#[test]
fn file_urls_take_the_file_position() {
    let sources = vec![
        UrlSource::Url("https://a".to_string()),
        UrlSource::File("one.txt".to_string()),
        UrlSource::Url("https://a".to_string()),
        UrlSource::File("empty.txt".to_string()),
        UrlSource::Url("https://z".to_string()),
    ];
    let file_lines = vec![
        vec![],
        args(&["# list", " https://b ", "", "https://c"]),
        vec![],
        args(&["#only a comment"]),
        vec![],
    ];
    assert_eq!(
        gather_urls(&sources, &file_lines),
        args(&["https://a", "https://b", "https://c", "https://a", "https://z"])
    );
}

#[test]
fn files_without_urls_leave_the_run_empty() {
    let sources = vec![UrlSource::File("empty.txt".to_string())];
    let urls = gather_urls(&sources, &vec![args(&["", "# none"])]);
    assert!(urls.is_empty());
    assert_eq!(Config::new(urls, 1, 1, 0), Err(ConfigError::NoUrls));
}

#[test]
fn option_without_value_is_refused() {
    assert_eq!(parse_args_with(&args(&["p", "--file"]), 1), Err(ConfigError::MissingValue(Flag::File)));
    assert_eq!(parse_args_with(&args(&["p", "--workers"]), 1), Err(ConfigError::MissingValue(Flag::Workers)));
    assert_eq!(parse_args_with(&args(&["p", "--timeout"]), 1), Err(ConfigError::MissingValue(Flag::Timeout)));
    assert_eq!(parse_args_with(&args(&["p", "--retries"]), 1), Err(ConfigError::MissingValue(Flag::Retries)));
}

#[test]
fn unparsable_numbers_are_refused() {
    assert_eq!(parse_args_with(&args(&["p", "--workers", "four"]), 1), Err(ConfigError::InvalidNumber(Flag::Workers)));
    assert_eq!(parse_args_with(&args(&["p", "--timeout", "-1"]), 1), Err(ConfigError::InvalidNumber(Flag::Timeout)));
    assert_eq!(parse_args_with(&args(&["p", "--retries", " 1"]), 1), Err(ConfigError::InvalidNumber(Flag::Retries)));
    assert_eq!(parse_args_with(&args(&["p", "--timeout", "18446744073709551616"]), 1), Err(ConfigError::InvalidNumber(Flag::Timeout)));
    assert_eq!(parse_args_with(&args(&["p", "--timeout", "+"]), 1), Err(ConfigError::InvalidNumber(Flag::Timeout)));
}

#[test]
fn largest_timeout_is_accepted() {
    let o = parse_args_with(&args(&["p", "u", "--timeout", "18446744073709551615"]), 1).unwrap();
    assert_eq!(o.timeout_secs, u64::MAX);
}

#[test]
fn explicit_workers_override_machine_default() {
    let o = parse_args(&args(&["p", "--workers", "6", "u"])).unwrap();
    assert_eq!(o.workers, 6);
    assert_eq!(o.sources, vec![UrlSource::Url("u".to_string())]);
}

#[test]
fn url_list_lines_are_trimmed_and_filtered() {
    let lines = args(&["  https://a.example  ", "", "   ", "# comment", "\thttps://b.example\r", "  #x"]);
    assert_eq!(url_lines(&lines), args(&["https://a.example", "https://b.example"]));
}

#[test]
fn url_line_test() {
    assert!(is_url_line("https://a"));
    assert!(!is_url_line(""));
    assert!(!is_url_line("#https://a"));
}

#[test]
fn text_comparison() {
    assert!(same_text("--file", "--file"));
    assert!(!same_text("--file", "--files"));
    assert!(!same_text("--fila", "--file"));
    assert!(same_text("", ""));
}
