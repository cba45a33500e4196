//! Turning what was read from local input into frames.
//!
//! Reading blocks and may fail, so the caller reads; the functions here take
//! what a read returned and decide what, if anything, goes into the queue.

use vstd::prelude::*;
use vstd::string::*;
use crate::frame_data::{FrameData, Payload};
use crate::frame_size::{frame_size_of, parse_frame_size, FrameSizeError};
use crate::queue::FrameQueue;
use crate::text::{blank, chars_of, echo_line, echoed, is_blank, trim_line_end, trimmed_len};

verus! {

/// The milliseconds that the ingestor pauses between two reads, so that a
/// closed or empty input does not keep the processor busy.
pub const INGEST_PAUSE_MILLIS: u64 = 50;

/// Why a read from local input returned no data.
#[derive(Debug, Clone, Copy, PartialEq, Eq)]
pub enum ReadFailure {
    /// The input ended.
    EndOfStream,
    /// The input is not valid UTF-8.
    InvalidData,
    /// Any other I/O error.
    Other,
}

/// How local input is cut into frames; chosen once, at startup.
#[derive(Debug, Clone, Copy, PartialEq, Eq)]
pub enum FramingMode {
    /// One frame for each line that is not blank.
    Text,
    /// One frame for each read of up to this many bytes.
    Binary(usize),
}

/// What one read from local input leads to.
#[derive(Debug, PartialEq, Eq)]
pub enum Ingest {
    /// A frame to append to the queue, and the line to mirror on standard
    /// output if outbound text is echoed.
    Frame { frame: FrameData, echo: Option<String> },
    /// Nothing to send and nothing to report.
    Nothing,
    /// The read failed: report it and go on with the next read.
    Failed(ReadFailure),
}

/// What an [`Ingest`] holds, as mathematics.
pub enum IngestView {
    /// A frame of this payload, and the echoed line if there is one.
    Frame { payload: Payload, echo: Option<Seq<char>> },
    /// Nothing to send and nothing to report.
    Nothing,
    /// A failed read to report.
    Failed(ReadFailure),
}

impl View for Ingest {
    type V = IngestView;

    open spec fn view(&self) -> IngestView {
        match self {
            Ingest::Frame { frame, echo } => IngestView::Frame {
                payload: frame@,
                echo: match echo {
                    Some(line) => Some(line@),
                    None => None,
                },
            },
            Ingest::Nothing => IngestView::Nothing,
            Ingest::Failed(failure) => IngestView::Failed(*failure),
        }
    }
}

/// What is left to tell the operator once a read has been dealt with.
#[derive(Debug, PartialEq, Eq)]
pub struct Report {
    /// The line to mirror on standard output, if any.
    pub echo: Option<String>,
    /// The failed read to report, if any.
    pub failure: Option<ReadFailure>,
}

impl View for Report {
    type V = (Option<Seq<char>>, Option<ReadFailure>);

    open spec fn view(&self) -> (Option<Seq<char>>, Option<ReadFailure>) {
        (
            match self.echo {
                Some(line) => Some(line@),
                None => None,
            },
            self.failure,
        )
    }
}

/// The queue once a read has been dealt with: longer by the frame that the
/// read led to, unchanged if it led to none.
pub open spec fn queue_after(pending: Seq<Payload>, step: IngestView) -> Seq<Payload> {
    match step {
        IngestView::Frame { payload, .. } => pending.push(payload),
        _ => pending,
    }
}

/// What is left to tell the operator once a read has been dealt with.
pub open spec fn report_after(step: IngestView) -> (Option<Seq<char>>, Option<ReadFailure>) {
    match step {
        IngestView::Frame { echo, .. } => (echo, None),
        IngestView::Nothing => (None, None),
        IngestView::Failed(failure) => (None, Some(failure)),
    }
}

/// What the outcome of reading one line leads to.
pub open spec fn line_read(read: Result<String, ReadFailure>, echo: bool) -> IngestView {
    match read {
        Ok(line) => line_ingest(line@, echo),
        Err(failure) => failed_read(failure),
    }
}

/// What the outcome of reading into `buf` leads to.
pub open spec fn chunk_read(buf: Seq<u8>, read: Result<usize, ReadFailure>) -> IngestView {
    match read {
        Ok(count) => chunk_ingest(buf, count as nat),
        Err(failure) => failed_read(failure),
    }
}

/// What a failed read leads to: the end of the input is no error, anything
/// else is reported.
pub open spec fn failed_read(failure: ReadFailure) -> IngestView {
    match failure {
        ReadFailure::EndOfStream => IngestView::Nothing,
        _ => IngestView::Failed(failure),
    }
}

/// What a line of text leads to: a blank line gives no frame; any other line
/// gives a text frame of the line without its trailing line terminators.
pub open spec fn line_ingest(line: Seq<char>, echo: bool) -> IngestView {
    if blank(line) {
        IngestView::Nothing
    } else {
        IngestView::Frame {
            payload: Payload::Text(trim_line_end(line)),
            echo: if echo {
                Some(echoed(trim_line_end(line)))
            } else {
                None
            },
        }
    }
}

/// What a read of `count` bytes into `buf` leads to: the bytes that were read
/// and no others, or nothing if none were read.
pub open spec fn chunk_ingest(buf: Seq<u8>, count: nat) -> IngestView {
    let filled = if count <= buf.len() {
        count
    } else {
        buf.len()
    };
    if filled == 0 {
        IngestView::Nothing
    } else {
        IngestView::Frame { payload: Payload::Binary(buf.take(filled as int)), echo: None }
    }
}

/// The framing mode that the options select, or the reason why the
/// configured frame size is turned down. The frame size counts in binary
/// mode only.
pub open spec fn framing_mode_of(binary_mode: bool, frame_size: Seq<char>) -> Result<
    FramingMode,
    FrameSizeError,
> {
    if binary_mode {
        match frame_size_of(frame_size) {
            Ok(size) => Ok(FramingMode::Binary(size as usize)),
            Err(error) => Err(error),
        }
    } else {
        Ok(FramingMode::Text)
    }
}

/// Selects the framing mode at startup.
pub fn select_framing_mode(binary_mode: bool, frame_size: &str) -> (mode: Result<
    FramingMode,
    FrameSizeError,
>)
    ensures
        mode == framing_mode_of(binary_mode, frame_size@),
{
    if binary_mode {
        match parse_frame_size(frame_size) {
            Ok(size) => Ok(FramingMode::Binary(size)),
            Err(error) => Err(error),
        }
    } else {
        Ok(FramingMode::Text)
    }
}

/// Decides what to do with the outcome of reading one line in text mode.
pub fn ingest_line(read: Result<String, ReadFailure>, echo: bool) -> (step: Ingest)
    ensures
        step@ == line_read(read, echo),
        read matches Ok(line) && blank(line@) ==> step@ == IngestView::Nothing,
{
    match read {
        Ok(line) => {
            let chars = chars_of(line.as_str());
            if is_blank(&chars) {
                Ingest::Nothing
            } else {
                let kept = trimmed_len(&chars);
                let payload = line.as_str().substring_char(0, kept);
                let mirrored = if echo {
                    Some(echo_line(payload))
                } else {
                    None
                };
                let text = String::from_str(payload);
                assert(line@.subrange(0, kept as int) =~= line@.take(kept as int));
                Ingest::Frame { frame: FrameData::from_utf8(text), echo: mirrored }
            }
        },
        Err(failure) => match failure {
            ReadFailure::EndOfStream => Ingest::Nothing,
            _ => Ingest::Failed(failure),
        },
    }
}

/// Decides what to do with the outcome of reading into `buf` in binary mode.
/// `read` is the number of bytes that the read put at the start of `buf`.
pub fn ingest_chunk(buf: Vec<u8>, read: Result<usize, ReadFailure>) -> (step: Ingest)
    ensures
        step@ == chunk_read(buf@, read),
        read is Ok && 0 < read->Ok_0 <= buf@.len() ==> step@ == (IngestView::Frame {
            payload: Payload::Binary(buf@.take(read->Ok_0 as int)),
            echo: None,
        }),
        read is Ok && 0 < read->Ok_0 <= buf@.len() ==> (step@ matches IngestView::Frame {
            payload: Payload::Binary(bytes),
            ..
        } && bytes.len() == read->Ok_0),
{
    match read {
        Ok(count) => {
            let ghost whole = buf@;
            let mut buf = buf;
            if count < buf.len() {
                buf.truncate(count);
            }
            assert(buf@ =~= whole.take(buf@.len() as int));
            if buf.len() == 0 {
                Ingest::Nothing
            } else {
                Ingest::Frame { frame: FrameData::from_binary_buffer(buf), echo: None }
            }
        },
        Err(failure) => match failure {
            ReadFailure::EndOfStream => Ingest::Nothing,
            _ => Ingest::Failed(failure),
        },
    }
}

/// Puts the frame that a read led to, if any, behind the frames that are
/// waiting, and hands back what is left to tell the operator.
fn enqueue(stdin_buffer: &mut FrameQueue, step: Ingest) -> (report: Report)
    ensures
        final(stdin_buffer)@ == queue_after(old(stdin_buffer)@, step@),
        report@ == report_after(step@),
{
    match step {
        Ingest::Frame { frame, echo } => {
            stdin_buffer.append(frame);
            Report { echo, failure: None }
        },
        Ingest::Nothing => Report { echo: None, failure: None },
        Ingest::Failed(failure) => Report { echo: None, failure: Some(failure) },
    }
}

/// Deals with the outcome of reading one line in text mode: a line that is
/// not blank is queued as a text frame, without its trailing line
/// terminators. A blank line, and an empty one, leaves the queue as it is.
pub fn read_as_utf8(
    stdin_buffer: &mut FrameQueue,
    read: Result<String, ReadFailure>,
    echo: bool,
) -> (report: Report)
    ensures
        final(stdin_buffer)@ == queue_after(old(stdin_buffer)@, line_read(read, echo)),
        report@ == report_after(line_read(read, echo)),
        read matches Ok(line) && blank(line@) ==> final(stdin_buffer)@ == old(stdin_buffer)@,
{
    let step = ingest_line(read, echo);
    enqueue(stdin_buffer, step)
}

/// Deals with the outcome of reading into `buf` in binary mode: the bytes
/// that were read are queued as one binary frame. A read that stopped short
/// of the end of `buf` gives a frame of the bytes read and no others; a read
/// of no bytes leaves the queue as it is.
pub fn read_as_binary(
    stdin_buffer: &mut FrameQueue,
    buf: Vec<u8>,
    read: Result<usize, ReadFailure>,
) -> (report: Report)
    ensures
        final(stdin_buffer)@ == queue_after(old(stdin_buffer)@, chunk_read(buf@, read)),
        report@ == report_after(chunk_read(buf@, read)),
        read is Ok && 0 < read->Ok_0 <= buf@.len() ==> final(stdin_buffer)@ == old(
            stdin_buffer,
        )@.push(Payload::Binary(buf@.take(read->Ok_0 as int))) && buf@.take(
            read->Ok_0 as int,
        ).len() == read->Ok_0,
{
    let step = ingest_chunk(buf, read);
    enqueue(stdin_buffer, step)
}

} // verus!
