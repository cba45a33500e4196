use config::error::ConfigErrorKind;
use config::reader::from_str;
use config::types::Config;

use wsta::conf::{
    get_bool, get_str, get_str_or, get_vec, read_conf_file, strings_among, ConfFailure, ConfFile,
};
use wsta::options::Options;

const DUMMY_CONF: &str = "login_cookie_name = \"testing\";\nheaders=[\"Foo:Bar\"];";

fn read(text: &str) -> ConfFile {
    read_conf_file(Some(from_str(text).map_err(|error| match error.kind {
        ConfigErrorKind::IoError => ConfFailure::Io,
        ConfigErrorKind::ParseError => ConfFailure::Syntax(error.to_string()),
    })))
}

fn parsed(text: &str) -> Config {
    match read(text) {
        ConfFile::Parsed(config) => config,
        other => panic!("Could not read config file: {:?}", other),
    }
}

#[test]
fn configfile_is_read() {
    let conf = parsed(DUMMY_CONF);
    let result: &str = conf
        .lookup_str("login_cookie_name")
        .expect("Could not find login_cookie_name in the config file");
    assert_eq!(result, "testing");
    assert_eq!(get_str(&conf, "login_cookie_name"), "testing");
}

#[test]
fn get_vec_works() {
    let conf = parsed(DUMMY_CONF);

    let key_name = "headers";
    let result = get_vec(&conf, &key_name);
    assert_eq!(result, vec!["Foo:Bar"]);

    let key_name = "ricepudding";
    let result = get_vec(&conf, &key_name);
    assert_eq!(result, Vec::<String>::new());
}

#[test]
fn missing_file_is_in_order() {
    assert!(matches!(read_conf_file(None), ConfFile::Missing));
}

#[test]
fn unreadable_file_is_in_order() {
    assert!(matches!(read_conf_file(Some(Err(ConfFailure::Io))), ConfFile::Missing));
}

#[test]
fn syntax_error_is_told() {
    match read_conf_file(Some(Err(ConfFailure::Syntax(String::from("line 3"))))) {
        ConfFile::Invalid(description) => assert_eq!(description, "line 3"),
        other => panic!("no syntax error: {:?}", other),
    }
    match read("headers = [\"Foo:Bar\"") {
        ConfFile::Invalid(description) => assert!(!description.is_empty()),
        other => panic!("parsed: {:?}", other),
    }
    assert!(matches!(read("windows=NO\n"), ConfFile::Invalid(_)));
}

#[test]
fn empty_file_sets_nothing() {
    let conf = parsed("");
    assert_eq!(get_str(&conf, "login_url"), "");
    assert!(!get_bool(&conf, "echo"));
    assert_eq!(get_vec(&conf, "headers"), Vec::<String>::new());
}

#[test]
fn strings_and_their_defaults() {
    let conf = parsed("login_url = \"http://example.com/login\";\necho = true;\nsize = 12;");
    assert_eq!(get_str(&conf, "login_url"), "http://example.com/login");
    assert_eq!(get_str_or(&conf, "login_url", "fallback"), "http://example.com/login");
    assert_eq!(get_str(&conf, "missing"), "");
    assert_eq!(get_str_or(&conf, "missing", "fallback"), "fallback");
    assert_eq!(get_str(&conf, "echo"), "");
    assert_eq!(get_str_or(&conf, "size", "256"), "256");
}

#[test]
fn booleans_and_their_default() {
    let conf = parsed("echo = true;\nbinary_mode = false;\nfollow_redirect = \"true\";");
    assert!(get_bool(&conf, "echo"));
    assert!(!get_bool(&conf, "binary_mode"));
    assert!(!get_bool(&conf, "follow_redirect"));
    assert!(!get_bool(&conf, "missing"));
}

#[test]
fn lists_keep_their_strings_in_order() {
    let conf = parsed(
        "headers = [\"A: 1\", \"B: 2\", \"A: 3\"];\nmixed = (\"x\", 1, true, \"y\", [\"z\"]);\n\
         numbers = [1, 2, 3];\nname = \"scalar\";\nempty = [];\ngroup = { headers = [\"inner\"]; };",
    );
    assert_eq!(get_vec(&conf, "headers"), vec!["A: 1", "B: 2", "A: 3"]);
    assert_eq!(get_vec(&conf, "numbers"), Vec::<String>::new());
    assert_eq!(get_vec(&conf, "name"), Vec::<String>::new());
    assert_eq!(get_vec(&conf, "empty"), Vec::<String>::new());
    assert_eq!(get_vec(&conf, "mixed"), Vec::<String>::new());
    assert_eq!(get_vec(&conf, "group"), Vec::<String>::new());
    assert_eq!(get_vec(&conf, "group.headers"), vec!["inner"]);
    assert_eq!(get_vec(&conf, "headers.[0]"), Vec::<String>::new());
}

#[test]
fn options_with_nothing_configured() {
    let options = Options::new();
    assert_eq!(options.verbosity, 0);
    assert_eq!(options.url, "");
    assert_eq!(options.login_url, "");
    assert!(!options.follow_redirect);
    assert!(!options.echo);
    assert!(!options.print_headers);
    assert_eq!(options.headers, Vec::<String>::new());
    assert_eq!(options.messages, Vec::<String>::new());
    assert_eq!(options.ping_interval, None);
    assert!(!options.binary_mode);
    assert_eq!(options.binary_frame_size, "256");
}

#[test]
fn options_from_a_configuration() {
    let conf = parsed(
        "url = \"ws://ignored\";\nlogin_url = \"https://example.com/login\";\n\
         follow_redirect = true;\necho = true;\nprint_headers = true;\n\
         headers = [\"Origin: http://example.com\"];\nmessages = [\"one\", \"two\"];\n\
         ping_interval = 5;\nverbosity = 3;\nbinary_mode = true;\nbinary_frame_size = \"1024\";",
    );
    let options = Options::build_from_config(&conf);
    assert_eq!(options.verbosity, 0);
    assert_eq!(options.url, "");
    assert_eq!(options.login_url, "https://example.com/login");
    assert!(options.follow_redirect);
    assert!(options.echo);
    assert!(options.print_headers);
    assert_eq!(options.headers, vec!["Origin: http://example.com"]);
    assert_eq!(options.messages, vec!["one", "two"]);
    assert_eq!(options.ping_interval, None);
    assert!(options.binary_mode);
    assert_eq!(options.binary_frame_size, "1024");
}

#[test]
fn options_from_an_empty_configuration() {
    let options = Options::build_from_config(&parsed(""));
    assert_eq!(options.login_url, "");
    assert!(!options.follow_redirect);
    assert!(!options.echo);
    assert!(!options.print_headers);
    assert_eq!(options.headers, Vec::<String>::new());
    assert_eq!(options.messages, Vec::<String>::new());
    assert!(!options.binary_mode);
    assert_eq!(options.binary_frame_size, "256");
}

#[test]
fn only_the_strings_of_an_array_are_kept() {
    let elements = vec![
        Some(String::from("first")),
        None,
        Some(String::new()),
        None,
        None,
        Some(String::from("last")),
    ];
    assert_eq!(strings_among(&elements), vec!["first", "", "last"]);
    assert_eq!(strings_among(&vec![None, None]), Vec::<String>::new());
    assert_eq!(strings_among(&Vec::new()), Vec::<String>::new());
}
