//! The options that a run is started with.

use vstd::prelude::*;
use vstd::string::*;
use config::types::Config;
use crate::conf::{boolean_setting, get_bool, get_str, get_str_or, get_vec, list_setting, text_setting};
use crate::text::string_views;

verus! {

/// The options of one run. Once the run has started they do not change.
#[derive(Debug)]
pub struct Options {
    /// How much is logged: 0 nothing, 1 errors, 2 debugging, 3 tracing,
    /// 4 and above binary data too.
    pub verbosity: u8,
    /// The WebSocket URL to connect to.
    pub url: String,
    /// A URL to fetch with GET before connecting, for a session cookie;
    /// empty for none.
    pub login_url: String,
    /// Whether redirects are followed when fetching the login URL.
    pub follow_redirect: bool,
    /// Whether outgoing frames are mirrored on standard output, behind `> `.
    pub echo: bool,
    /// Whether the headers of every HTTP exchange are printed.
    pub print_headers: bool,
    /// Headers to add to the handshake request, each as `Key: Value`.
    pub headers: Vec<String>,
    /// Messages to send right after connecting.
    pub messages: Vec<String>,
    /// The seconds between two heartbeats; `None` for no heartbeat.
    pub ping_interval: Option<u64>,
    /// Whether local input is read as bytes and sent in binary frames.
    pub binary_mode: bool,
    /// The number of bytes in a binary frame, in decimal.
    pub binary_frame_size: String,
}

/// The frame size that is used where none is configured.
pub open spec fn default_frame_size() -> Seq<char> {
    seq!['2', '5', '6']
}

impl Options {
    /// The options with nothing configured.
    pub fn new() -> (options: Options)
        ensures
            options.verbosity == 0,
            options.url@ == Seq::<char>::empty(),
            options.login_url@ == Seq::<char>::empty(),
            !options.follow_redirect,
            !options.echo,
            !options.print_headers,
            options.headers@ == Seq::<String>::empty(),
            options.messages@ == Seq::<String>::empty(),
            options.ping_interval is None,
            !options.binary_mode,
            options.binary_frame_size@ == default_frame_size(),
    {
        proof {
            reveal_strlit("256");
            assert("256"@ =~= default_frame_size());
        }
        Options {
            url: String::new(),
            login_url: String::new(),
            follow_redirect: false,
            echo: false,
            verbosity: 0,
            print_headers: false,
            headers: Vec::new(),
            messages: Vec::new(),
            ping_interval: None,
            binary_mode: false,
            binary_frame_size: String::from_str("256"),
        }
    }

    /// The options with what a configuration file sets. The URL, the
    /// verbosity and the heartbeat interval are never taken from the file.
    pub fn build_from_config(config: &Config) -> (options: Options)
        ensures
            options.verbosity == 0,
            options.url@ == Seq::<char>::empty(),
            options.login_url@ == text_setting(*config, "login_url"@, Seq::empty()),
            options.follow_redirect == boolean_setting(*config, "follow_redirect"@, false),
            options.echo == boolean_setting(*config, "echo"@, false),
            options.print_headers == boolean_setting(*config, "print_headers"@, false),
            string_views(options.headers@) == list_setting(*config, "headers"@),
            string_views(options.messages@) == list_setting(*config, "messages"@),
            options.ping_interval is None,
            options.binary_mode == boolean_setting(*config, "binary_mode"@, false),
            options.binary_frame_size@ == text_setting(
                *config,
                "binary_frame_size"@,
                default_frame_size(),
            ),
    {
        proof {
            reveal_strlit("256");
            assert("256"@ =~= default_frame_size());
        }
        Options {
            url: String::new(),
            login_url: get_str(config, "login_url"),
            follow_redirect: get_bool(config, "follow_redirect"),
            echo: get_bool(config, "echo"),
            verbosity: 0,
            print_headers: get_bool(config, "print_headers"),
            headers: get_vec(config, "headers"),
            messages: get_vec(config, "messages"),
            ping_interval: None,
            binary_mode: get_bool(config, "binary_mode"),
            binary_frame_size: get_str_or(config, "binary_frame_size", "256"),
        }
    }
}

} // verus!
