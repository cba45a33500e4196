use wsta::args::get_profile;
use wsta::dispatch::{Action, Outbound};
use wsta::frame_size::FrameSizeError;
use wsta::headers::{Header, HeaderPlan};
use wsta::ingest::FramingMode;
use wsta::log::Logger;
use wsta::options::Options;
use wsta::program::{plan_run, OptionsError, Plan};

fn strings(items: &[&str]) -> Vec<String> {
    items.iter().map(|item| String::from(*item)).collect()
}

#[test]
fn run_without_url_is_turned_down() {
    let options = Options::new();
    assert_eq!(plan_run(&options), Err(OptionsError::MissingUrl));
    let mut options = Options::new();
    options.binary_mode = true;
    options.binary_frame_size = String::from("nonsense");
    assert_eq!(plan_run(&options), Err(OptionsError::MissingUrl));
}

#[test]
fn bad_frame_size_is_turned_down_in_binary_mode() {
    let mut options = Options::new();
    options.url = String::from("ws://example.com");
    options.binary_mode = true;
    options.binary_frame_size = String::from("0");
    assert_eq!(plan_run(&options), Err(OptionsError::FrameSize(FrameSizeError::Zero)));
    options.binary_frame_size = String::from("12 bytes");
    assert_eq!(plan_run(&options), Err(OptionsError::FrameSize(FrameSizeError::InvalidDigit)));
    options.binary_frame_size = String::new();
    assert_eq!(plan_run(&options), Err(OptionsError::FrameSize(FrameSizeError::Empty)));
    options.binary_frame_size = String::from("99999999999999999999999999999999999999999");
    assert_eq!(plan_run(&options), Err(OptionsError::FrameSize(FrameSizeError::TooLarge)));
    options.binary_mode = false;
    assert!(plan_run(&options).is_ok());
}

#[test]
fn plain_run() {
    let mut options = Options::new();
    options.url = String::from("ws://example.com");
    assert_eq!(
        plan_run(&options),
        Ok(Plan {
            login: false,
            headers: HeaderPlan { accepted: Vec::new(), rejected: Vec::new() },
            framing: FramingMode::Text,
            startup: Vec::new(),
        })
    );
}

#[test]
fn full_run() {
    let mut options = Options::new();
    options.url = String::from("wss://example.com/socket");
    options.login_url = String::from("https://example.com/login");
    options.echo = true;
    options.headers = strings(&["Origin: http://example.com", "bad header"]);
    options.messages = strings(&["hello"]);
    options.binary_mode = true;
    assert_eq!(
        plan_run(&options),
        Ok(Plan {
            login: true,
            headers: HeaderPlan {
                accepted: vec![Header {
                    name: String::from("Origin"),
                    value: b" http://example.com".to_vec(),
                }],
                rejected: strings(&["bad header"]),
            },
            framing: FramingMode::Binary(256),
            startup: vec![
                Action::Echo(String::from("> hello")),
                Action::Send(Outbound::Text(String::from("hello"))),
            ],
        })
    );
}

#[test]
fn profile_is_the_argument_behind_the_flag() {
    assert_eq!(
        get_profile(&strings(&["wsta", "-P", "work", "ws://example.com"])),
        Some(String::from("work"))
    );
    assert_eq!(
        get_profile(&strings(&["wsta", "ws://example.com", "-P", "home"])),
        Some(String::from("home"))
    );
    assert_eq!(
        get_profile(&strings(&["wsta", "-P", "first", "-P", "second"])),
        Some(String::from("first"))
    );
    assert_eq!(get_profile(&strings(&["wsta", "-P", "-P"])), Some(String::from("-P")));
}

#[test]
fn no_profile() {
    assert_eq!(get_profile(&strings(&[])), None);
    assert_eq!(get_profile(&strings(&["wsta", "ws://example.com"])), None);
    assert_eq!(get_profile(&strings(&["wsta", "-p", "5"])), None);
    assert_eq!(get_profile(&strings(&["wsta", "-P"])), None);
    assert_eq!(get_profile(&strings(&["wsta", "-P=work", "x"])), None);
    assert_eq!(get_profile(&strings(&["wsta", "--P", "x"])), None);
}

#[test]
fn logger_writes_up_to_its_level() {
    let mut logger = Logger::new(0);
    assert_eq!(logger.get_log_level(), 0);
    assert!(logger.logs(0));
    assert!(!logger.logs(1));
    logger.set_log_level(3);
    assert_eq!(logger.get_log_level(), 3);
    assert!(logger.logs(1));
    assert!(logger.logs(3));
    assert!(!logger.logs(4));
    assert_eq!(logger, Logger::new(3));
}
