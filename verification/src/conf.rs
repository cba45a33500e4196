//! Reading settings from a configuration file.
//!
//! The file is read and parsed by the `config` crate into a `Config`, which
//! is opaque here. Its content is known through [`settings`] alone, and only
//! the three lookups below reach into it.

use vstd::prelude::*;
use vstd::string::*;
use config::types::{Config, ScalarValue, Value};
use crate::text::string_views;

verus! {

/// `config::types::Config`: a parsed configuration. Nothing inside it is
/// visible here.
#[verifier::external_type_specification]
#[verifier::external_body]
pub struct ExConfig(Config);

/// A value found in a configuration, as far as this library reads it.
pub enum Setting {
    /// A boolean scalar.
    Boolean(bool),
    /// A string scalar.
    Text(Seq<char>),
    /// An array. An element that is a string scalar stands as its text, any
    /// other element as `None`.
    Array(Seq<Option<Seq<char>>>),
    /// Anything else: a number, a list, a group.
    Other,
}

/// What a configuration holds: for each path on which `Config::lookup` finds
/// a value, that value. A path is a list of setting names and indices,
/// separated by dots.
pub uninterp spec fn settings(config: Config) -> Map<Seq<char>, Setting>;

/// Why the configuration file gave no configuration.
#[derive(Debug, PartialEq, Eq)]
pub enum ConfFailure {
    /// The file could not be opened or read.
    Io,
    /// The file has a syntax error, described by this text.
    Syntax(String),
}

/// What the configuration file comes to.
#[derive(Debug)]
pub enum ConfFile {
    /// There is no file to take settings from. That is in order: the
    /// built-in defaults apply.
    Missing,
    /// The file holds this configuration.
    Parsed(Config),
    /// The file has a syntax error, described by this text. That is fatal.
    Invalid(String),
}

/// What a lookup of an array found.
enum ArrayLookup {
    /// The path leads to no value.
    Missing,
    /// The path leads to an array with these elements, each a string or not.
    Array(Vec<Option<String>>),
    /// The path leads to a value that is no array.
    NotArray,
}

/// The views of the elements of an array, in the same order.
pub open spec fn element_views(elements: Seq<Option<String>>) -> Seq<Option<Seq<char>>> {
    elements.map_values(
        |element: Option<String>|
            match element {
                Some(text) => Some(text@),
                None => None,
            },
    )
}

/// The string at `key`, or `default` where `key` leads to no string.
pub open spec fn text_setting(config: Config, key: Seq<char>, default: Seq<char>) -> Seq<char> {
    if settings(config).contains_key(key) && settings(config)[key] is Text {
        settings(config)[key]->Text_0
    } else {
        default
    }
}

/// The boolean at `key`, or `default` where `key` leads to no boolean.
pub open spec fn boolean_setting(config: Config, key: Seq<char>, default: bool) -> bool {
    if settings(config).contains_key(key) && settings(config)[key] is Boolean {
        settings(config)[key]->Boolean_0
    } else {
        default
    }
}

/// The strings among `elements`, in the same order.
pub open spec fn texts_among(elements: Seq<Option<Seq<char>>>) -> Seq<Seq<char>>
    decreases elements.len(),
{
    if elements.len() == 0 {
        Seq::empty()
    } else {
        let before = texts_among(elements.drop_last());
        match elements.last() {
            Some(text) => before.push(text),
            None => before,
        }
    }
}

/// The list of strings at `key`: the strings of the array that `key` leads
/// to, in order; empty where `key` leads to no array.
pub open spec fn list_setting(config: Config, key: Seq<char>) -> Seq<Seq<char>> {
    if settings(config).contains_key(key) && settings(config)[key] is Array {
        texts_among(settings(config)[key]->Array_0)
    } else {
        Seq::empty()
    }
}

/// `Config::lookup_str_or` of the `config` crate: the string scalar that the
/// path leads to, and `default` where the path leads to nothing or to a value
/// that is no string.
#[verifier::external_body]
fn lookup_str_or(config: &Config, key: &str, default: &str) -> (value: String)
    ensures
        value@ == text_setting(*config, key@, default@),
{
    config.lookup_str_or(key, default).to_string()
}

/// `Config::lookup_boolean_or` of the `config` crate: the boolean scalar that
/// the path leads to, and `default` where the path leads to nothing or to a
/// value that is no boolean.
#[verifier::external_body]
fn lookup_boolean_or(config: &Config, key: &str, default: bool) -> (value: bool)
    ensures
        value == boolean_setting(*config, key@, default),
{
    config.lookup_boolean_or(key, default)
}

/// `Config::lookup` of the `config` crate, for a path that should lead to an
/// array: whether the path leads to a value, whether that value is an array,
/// and the elements of the array, each handed out as its text if it is a
/// string scalar.
#[verifier::external_body]
fn lookup_array(config: &Config, key: &str) -> (found: ArrayLookup)
    ensures
        match found {
            ArrayLookup::Missing => !settings(*config).contains_key(key@),
            ArrayLookup::Array(elements) => settings(*config).contains_key(key@) && settings(
                *config,
            )[key@] == Setting::Array(element_views(elements@)),
            ArrayLookup::NotArray => settings(*config).contains_key(key@) && !(settings(
                *config,
            )[key@] is Array),
        },
{
    match config.lookup(key) {
        None => ArrayLookup::Missing,
        Some(Value::Array(elements)) => ArrayLookup::Array(
            elements.iter().map(|element| match element {
                Value::Svalue(ScalarValue::Str(text)) => Some(text.clone()),
                _ => None,
            }).collect(),
        ),
        Some(_) => ArrayLookup::NotArray,
    }
}

/// Decides what the configuration file comes to. `read` is `None` where no
/// file was found, and else what reading and parsing the file gave. A file
/// that is not there or cannot be read is in order; a syntax error is not.
pub fn read_conf_file(read: Option<Result<Config, ConfFailure>>) -> (file: ConfFile)
    ensures
        file == match read {
            None => ConfFile::Missing,
            Some(Err(ConfFailure::Io)) => ConfFile::Missing,
            Some(Err(ConfFailure::Syntax(description))) => ConfFile::Invalid(description),
            Some(Ok(config)) => ConfFile::Parsed(config),
        },
{
    match read {
        None => ConfFile::Missing,
        Some(Err(ConfFailure::Io)) => ConfFile::Missing,
        Some(Err(ConfFailure::Syntax(description))) => ConfFile::Invalid(description),
        Some(Ok(config)) => ConfFile::Parsed(config),
    }
}

/// The string at `key`; the empty string where there is none.
pub fn get_str(config: &Config, key: &str) -> (value: String)
    ensures
        value@ == text_setting(*config, key@, Seq::empty()),
{
    let value = lookup_str_or(config, key, "");
    proof {
        reveal_strlit("");
        assert(""@ =~= Seq::<char>::empty());
    }
    value
}

/// The string at `key`; `default` where there is none.
pub fn get_str_or(config: &Config, key: &str, default: &str) -> (value: String)
    ensures
        value@ == text_setting(*config, key@, default@),
{
    lookup_str_or(config, key, default)
}

/// The boolean at `key`; `false` where there is none.
pub fn get_bool(config: &Config, key: &str) -> (value: bool)
    ensures
        value == boolean_setting(*config, key@, false),
{
    lookup_boolean_or(config, key, false)
}

/// The strings among the elements of an array, in the same order; the
/// elements that are no strings are left out.
pub fn strings_among(elements: &Vec<Option<String>>) -> (values: Vec<String>)
    ensures
        string_views(values@) == texts_among(element_views(elements@)),
{
    let mut values: Vec<String> = Vec::new();
    let ghost views = element_views(elements@);
    let mut i: usize = 0;
    assert(string_views(values@) =~= texts_among(views.take(0)));
    while i < elements.len()
        invariant
            i <= elements.len(),
            views == element_views(elements@),
            string_views(values@) == texts_among(views.take(i as int)),
        decreases elements.len() - i,
    {
        let ghost before = string_views(values@);
        proof {
            assert(views.take(i + 1).drop_last() =~= views.take(i as int));
            assert(views.take(i + 1).last() == views[i as int]);
        }
        match &elements[i] {
            Some(text) => {
                values.push(text.clone());
                assert(string_views(values@) =~= before.push(text@));
            },
            None => {},
        }
        i += 1;
    }
    assert(views.take(i as int) =~= views);
    values
}

/// The list of strings at `key`: the string elements of the array there, in
/// order, with every other element left out; empty where `key` leads to
/// nothing or to a value that is no array.
pub fn get_vec(config: &Config, key: &str) -> (values: Vec<String>)
    ensures
        string_views(values@) == list_setting(*config, key@),
{
    match lookup_array(config, key) {
        ArrayLookup::Array(elements) => strings_among(&elements),
        _ => {
            let values: Vec<String> = Vec::new();
            assert(string_views(values@) =~= Seq::<Seq<char>>::empty());
            values
        },
    }
}

} // verus!
