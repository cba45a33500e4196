//! The decisions of a run, from the options to the first tick.
//!
//! A run connects, logs in if a login URL is configured, adds the configured
//! headers to the handshake request, shakes hands, sends the messages given
//! at startup and then relays frames until a fatal condition ends it. The
//! caller does the connecting and the sending; what is decided on the way is
//! decided here.

use vstd::prelude::*;
use vstd::string::*;
use crate::dispatch::{action_views, send_messages, startup_actions, Action};
use crate::exit::Fatal;
use crate::frame_size::FrameSizeError;
use crate::headers::{
    accepted_headers,
    add_headers_to_request,
    header_views,
    rejected_headers,
    HeaderPlan,
};
use crate::http::{CookiePair, LoginOutcome};
use crate::ingest::{framing_mode_of, select_framing_mode, FramingMode};
use crate::options::Options;
use crate::text::string_views;

verus! {

/// Why the options cannot start a run.
#[derive(Debug, Clone, Copy, PartialEq, Eq)]
pub enum OptionsError {
    /// No URL to connect to.
    MissingUrl,
    /// Binary mode with a frame size that is no positive number.
    FrameSize(FrameSizeError),
}

/// What a run does before its first tick.
#[derive(Debug, PartialEq, Eq)]
pub struct Plan {
    /// Whether the login URL is fetched before the handshake.
    pub login: bool,
    /// The headers for the handshake request, and the strings turned down.
    pub headers: HeaderPlan,
    /// How local input is cut into frames.
    pub framing: FramingMode,
    /// What is sent, and mirrored, right after the handshake.
    pub startup: Vec<Action>,
}

/// Whether the options can start a run, and if not, why: the URL is looked
/// at first, the frame size after it.
pub open spec fn config_check(options: Options) -> Result<FramingMode, OptionsError> {
    if options.url@.len() == 0 {
        Err(OptionsError::MissingUrl)
    } else {
        match framing_mode_of(options.binary_mode, options.binary_frame_size@) {
            Ok(mode) => Ok(mode),
            Err(error) => Err(OptionsError::FrameSize(error)),
        }
    }
}

/// Lays out a run from its options, or says why they cannot start one. This
/// is settled before anything is connected or read.
pub fn plan_run(options: &Options) -> (plan: Result<Plan, OptionsError>)
    ensures
        match plan {
            Ok(plan) => {
                &&& config_check(*options) == Ok::<FramingMode, OptionsError>(plan.framing)
                &&& plan.login == (options.login_url@.len() > 0)
                &&& header_views(plan.headers.accepted@) == accepted_headers(
                    string_views(options.headers@),
                )
                &&& string_views(plan.headers.rejected@) == rejected_headers(
                    string_views(options.headers@),
                )
                &&& action_views(plan.startup@) == startup_actions(
                    string_views(options.messages@),
                    options.echo,
                )
            },
            Err(error) => config_check(*options) == Err::<FramingMode, OptionsError>(error),
        },
{
    if options.url.as_str().is_empty() {
        return Err(OptionsError::MissingUrl);
    }
    let framing = match select_framing_mode(
        options.binary_mode,
        options.binary_frame_size.as_str(),
    ) {
        Ok(mode) => mode,
        Err(error) => {
            return Err(OptionsError::FrameSize(error));
        },
    };
    Ok(
        Plan {
            login: !options.login_url.as_str().is_empty(),
            headers: add_headers_to_request(&options.headers),
            framing,
            startup: send_messages(&options.messages, options.echo),
        },
    )
}

/// Decides how the run goes on after the login step: with the session
/// cookie, or not at all. Without the cookie the handshake cannot succeed,
/// so both ways of having none are fatal.
pub fn require_cookie(outcome: LoginOutcome) -> (cookie: Result<CookiePair, Fatal>)
    ensures
        match outcome {
            LoginOutcome::Cookie(found) => cookie == Ok::<CookiePair, Fatal>(found),
            _ => cookie == Err::<CookiePair, Fatal>(Fatal::Authentication),
        },
{
    match outcome {
        LoginOutcome::Cookie(found) => Ok(found),
        _ => Err(Fatal::Authentication),
    }
}

} // verus!
