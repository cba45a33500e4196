//! What the receiver does with what comes in.

use vstd::prelude::*;
use vstd::utf8::{decode_utf8, valid_utf8};
use crate::exit::Fatal;

verus! {

/// What is written to standard output for one inbound frame.
#[derive(Debug, PartialEq, Eq)]
pub enum Printed {
    /// This text, followed by a line break.
    Line(String),
    /// These bytes, unmodified.
    Raw(Vec<u8>),
}

/// What a [`Printed`] holds, as mathematics.
pub enum PrintedView {
    /// This text, followed by a line break.
    Line(Seq<char>),
    /// These bytes, unmodified.
    Raw(Seq<u8>),
}

impl View for Printed {
    type V = PrintedView;

    open spec fn view(&self) -> PrintedView {
        match self {
            Printed::Line(text) => PrintedView::Line(text@),
            Printed::Raw(bytes) => PrintedView::Raw(bytes@),
        }
    }
}

/// What the receiving half of the connection handed over.
#[derive(Debug, PartialEq, Eq)]
pub enum Received {
    /// A frame with this payload.
    Message(Vec<u8>),
    /// No more data is available: the remote end closed the stream.
    NoDataAvailable,
    /// Any other error of the transport.
    Failed,
}

/// What the receiver does next.
#[derive(Debug, PartialEq, Eq)]
pub enum ReceiverStep {
    /// Write this to standard output and go on receiving.
    Print(Printed),
    /// Tell the operator and end the process; nothing more is sent.
    Exit(Fatal),
}

/// What is shown for a payload: its text if it is valid UTF-8, else the
/// bytes as they are.
pub open spec fn shown(payload: Seq<u8>) -> PrintedView {
    if valid_utf8(payload) {
        PrintedView::Line(decode_utf8(payload))
    } else {
        PrintedView::Raw(payload)
    }
}

/// `String::from_utf8` of std, with the error dropped: the text that the
/// bytes encode if they are valid UTF-8, and nothing otherwise.
#[verifier::external_body]
fn string_from_utf8(bytes: Vec<u8>) -> (text: Option<String>)
    ensures
        text is Some <==> valid_utf8(bytes@),
        text matches Some(decoded) ==> decoded@ == decode_utf8(bytes@),
{
    String::from_utf8(bytes).ok()
}

/// Decides how an inbound payload is shown on standard output.
pub fn message_to_stdout(payload: Vec<u8>) -> (printed: Printed)
    ensures
        printed@ == shown(payload@),
{
    match string_from_utf8(payload.clone()) {
        Some(text) => Printed::Line(text),
        None => Printed::Raw(payload),
    }
}

/// Decides what the receiver does with what the connection handed over: a
/// frame is shown; the end of the stream and any other error end the process.
pub fn receive_step(received: Received) -> (step: ReceiverStep)
    ensures
        match received {
            Received::Message(payload) => step matches ReceiverStep::Print(printed) && printed@
                == shown(payload@),
            Received::NoDataAvailable => step == ReceiverStep::Exit(Fatal::StreamClosed),
            Received::Failed => step == ReceiverStep::Exit(Fatal::Receive),
        },
{
    match received {
        Received::Message(payload) => ReceiverStep::Print(message_to_stdout(payload)),
        Received::NoDataAvailable => ReceiverStep::Exit(Fatal::StreamClosed),
        Received::Failed => ReceiverStep::Exit(Fatal::Receive),
    }
}

} // verus!
