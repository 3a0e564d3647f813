use drone_lab::logs::Level;
use drone_lab::logs::Log;
use drone_lab::logs::LogTracker;
use drone_lab::metrics::Command;
use drone_lab::metrics::Metric;
use drone_lab::metrics::parse_args;
use drone_lab::monitor;
use drone_lab::sysco::check_key_arguments;
use drone_lab::sysco::SyscoError;
use drone_lab::system_log::filter_error_logs;
use drone_lab::system_log::parse_log_line;
use drone_lab::system_log::Order;
use drone_lab::system_log::SystemLog;
use drone_lab::timing::Stopwatch;
use drone_lab::tools::max_of;
use drone_lab::tools::xml_element;
use drone_lab::servers::Server;
use drone_lab::utility::Utility;
use drone_lab::utility::UtilityAction;
use drone_lab::validation::illegal_chars;
use drone_lab::validation::is_digits_only;
use drone_lab::validation::min_length;

#[test]
fn min_length_test() {
    let validator = Box::new(min_length(10));
    let input = "Jan Claud Van D@me!";
    assert!(validator(input));
}

#[test]
fn only_digits_test() {
    let validator = Box::new(is_digits_only());
    let input = "12345";
    assert!(validator(input));
}

#[test]
fn illegal_chars_test() {
    let validator = Box::new(illegal_chars(vec!['=', ';']));
    let input = "Select * from Products; 1=1; Select * from sys";
    assert!(validator(input));
}

#[test]
fn validators_pass_clean_input() {
    assert!(!min_length(10)("short"));
    assert!(!is_digits_only()("12a45"));
    assert!(!illegal_chars(vec!['=', ';'])("Select all"));
}

#[test]
fn xml_test() {
    let attributes = vec![
        ("id".to_string(), "1".to_string()),
        ("title".to_string(), "Pacman 1983".to_string()),
        ("rate".to_string(), "9.6".to_string()),
    ];
    let data = xml_element("game", &attributes);
    assert_eq!(
        data,
        "<game id=\"1\" title=\"Pacman 1983\" rate=\"9.6\" />".to_string()
    );
}

#[test]
fn xml_without_attributes() {
    let data = xml_element("game", &vec![]);
    assert_eq!(data, "<game  />".to_string());
}

#[test]
fn wt_with_test() {
    let watch = Stopwatch::start();
    let mut total = 0;
    for i in 1..100 {
        total += i;
    }
    let duration = watch.elapsed_nanos();
    println!("Total execution time: {} ns", duration);
    let sum = total;
    assert_eq!(sum, 4950);
}

#[test]
fn wt_test() {
    let watch = Stopwatch::start();
    let mut total = 0;
    for i in 1..100 {
        total += i;
    }
    let duration = watch.elapsed_nanos();
    println!("Total execution time: {} ns", duration);
    let sum = total;
    assert_eq!(sum, 4950);
}

#[test]
fn test_max_macro() {
    assert_eq!(max_of(&vec![1]), 1);
    assert_eq!(max_of(&vec![2, 7]), 7);
    assert_eq!(max_of(&vec![10, 0, 6, 19, 20, 3, 2, 7]), 20);
    assert_eq!(max_of(&vec![-8, -5, -3, -99]), -3);
}

#[test]
fn log_renders_level_and_explanation() {
    let log = Log::new(Level::Warn, "Too many request".to_string());
    assert_eq!(log.render(), "WARN:Too many request");
    assert_eq!(Level::Info.label(), "INFO");
    assert_eq!(Level::Error.label(), "ERROR");
}

#[test]
fn log_tracker_counts_by_level() {
    let mut tracker = LogTracker::new();
    tracker.record(&Log::new(Level::Error, "Bad request HTTP 400".to_string()));
    tracker.record(&Log::new(Level::Warn, "Too many request".to_string()));
    tracker.record(&Log::new(Level::Error, "Authorization error".to_string()));
    tracker.record(&Log::new(Level::Info, "User request accepted".to_string()));
    assert_eq!(tracker.errors, 2);
    assert_eq!(tracker.warnings, 1);
    assert_eq!(tracker.infos, 1);
}

fn sample_logs() -> Vec<SystemLog> {
    let lines = [
        (10001, "DEBUG", "Application started"),
        (10002, "WARN", "Too many request"),
        (10003, "ERROR", "Bad request HTTP 400"),
        (10004, "INFO", "User request accepted"),
        (10005, "ERROR", "Authorization error"),
        (10006, "ERROR", "Malicious request"),
        (10007, "INFO", "Payment process has been completed"),
    ];
    lines
        .iter()
        .map(|(id, level, desc)| SystemLog::new(*id, level.to_string(), desc.to_string()))
        .collect()
}

#[test]
fn filter_takes_first_three_errors() {
    let logs = sample_logs();
    let errors = filter_error_logs(&logs, 3, Order::Ascending);
    let ids: Vec<u32> = errors.iter().map(|l| l.id).collect();
    assert_eq!(ids, vec![10003, 10005, 10006]);
}

#[test]
fn filter_honours_the_count() {
    let logs = sample_logs();
    assert_eq!(filter_error_logs(&logs, 2, Order::Descending).len(), 2);
    assert_eq!(filter_error_logs(&logs, 10, Order::Ascending).len(), 3);
    assert_eq!(filter_error_logs(&logs, 0, Order::Ascending).len(), 0);
}

#[test]
fn filter_uppercases_the_level() {
    let logs = vec![
        SystemLog::new(1, "error".to_string(), "lower case level".to_string()),
        SystemLog::new(2, "Error".to_string(), "mixed case level".to_string()),
    ];
    assert_eq!(filter_error_logs(&logs, 5, Order::Ascending).len(), 2);
}

fn args(items: &[&str]) -> Vec<String> {
    items.iter().map(|s| s.to_string()).collect()
}

#[test]
fn collector_command_parses() {
    let parsed: Command =
        parse_args(&args(&["collector", "kind", "cpu", "count", "100", "period", "2"]))
            .expect("well-formed command line");
    assert_eq!(parsed.count, 100);
    assert_eq!(parsed.period, 2);
    assert_eq!(parsed.metric, Metric::Cpu);
}

#[test]
fn collector_command_defaults_and_kinds() {
    let parsed =
        parse_args(&args(&["collector", "kind", "MEM", "count", "x", "period", "999"])).unwrap();
    assert_eq!(parsed.count, 20);
    assert_eq!(parsed.period, 1);
    assert_eq!(parsed.metric, Metric::Memory);
    let both =
        parse_args(&args(&["collector", "kind", "all", "count", "5", "period", "3"])).unwrap();
    assert_eq!(both.metric, Metric::Both);
}

#[test]
fn collector_command_rejections() {
    assert_eq!(parse_args(&args(&["collector"])), Err("Wrong number of arguments".to_string()));
    assert_eq!(
        parse_args(&args(&["collector", "sort", "cpu", "count", "1", "period", "1"])),
        Err("Invalid kind".to_string())
    );
    assert_eq!(
        parse_args(&args(&["collector", "kind", "cpu", "total", "1", "period", "1"])),
        Err("Invalid count".to_string())
    );
    assert_eq!(
        parse_args(&args(&["collector", "kind", "cpu", "count", "1", "each", "1"])),
        Err("Invalid period".to_string())
    );
}

#[test]
fn metric_names() {
    assert_eq!(Metric::Cpu.to_string(), "CPU");
    assert_eq!(Metric::Memory.to_string(), "Memory");
    assert_eq!(Metric::Both.to_string(), "Cpu and Memory");
}

#[test]
fn cpu_levels_band_correctly() {
    assert_eq!(monitor::classify_cpu_usage(10), monitor::Level::NORMAL);
    assert_eq!(monitor::classify_cpu_usage(50), monitor::Level::WARM);
    assert_eq!(monitor::classify_cpu_usage(80), monitor::Level::BURNING);
    assert_eq!(monitor::classify_cpu_usage(95), monitor::Level::ALARM);
    assert_eq!(monitor::classify_cpu_usage(120), monitor::Level::UNKNOWN);
}

#[test]
fn utility_recognises_options() {
    assert_eq!(Utility::run("-env"), Ok(UtilityAction::ShowEnvironment));
    assert_eq!(Utility::run("-w"), Ok(UtilityAction::ShowWorkingDirectory));
    assert_eq!(Utility::run("-usr"), Ok(UtilityAction::ShowUser));
    assert_eq!(Utility::run("help"), Ok(UtilityAction::ShowHelp));
}

#[test]
fn utility_rejects_unknown_commands() {
    let result = Utility::run("dir");
    let error = result.expect_err("dir is not a command");
    assert_eq!(error.message(), "Invalid Command. 'dir' is invalid.");
}

#[test]
fn key_argument_count_is_checked() {
    assert!(check_key_arguments(&args(&["sysco", "-var", "PATH"])).is_ok());
    let short = check_key_arguments(&args(&["sysco", "-var"]));
    assert!(matches!(short, Err(SyscoError::WrongArgumentCount)));
}

#[test]
fn server_report_is_exact() {
    let tree = Server::Node(
        "Root Server".to_string(),
        Box::new(Server::Node(
            "Primary Server Green".to_string(),
            Box::new(Server::Empty),
            Box::new(Server::Empty),
        )),
        Box::new(Server::Empty),
    );
    assert_eq!(
        tree.render(),
        "Server: Root Server\n  Primary: Server: Primary Server Green\n  Primary: None\n  Backup: None\n  Backup: None"
    );
}

#[test]
fn command_description_is_exact() {
    let parsed =
        parse_args(&args(&["collector", "kind", "cpu", "count", "100", "period", "2"])).unwrap();
    assert_eq!(parsed.describe(), "Metric CPU Count : 100 Period : 2 secs");
}

#[test]
fn log_line_parses_exactly() {
    let log = parse_log_line("10003|ERROR|Bad request HTTP 400").expect("well-formed line");
    assert_eq!(log.id, 10003);
    assert_eq!(log.level, "ERROR");
    assert_eq!(log.description, "Bad request HTTP 400");
}

#[test]
fn bad_log_lines_are_rejected() {
    assert!(parse_log_line("10003|ERROR").is_none());
    assert!(parse_log_line("x|ERROR|desc").is_none());
    assert!(parse_log_line("no pipes at all").is_none());
}
