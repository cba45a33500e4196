//! The unit of data exchanged over the connection.

use vstd::prelude::*;

verus! {

/// What a frame carries, as mathematics: text or bytes.
pub enum Payload {
    /// The characters of a text frame.
    Text(Seq<char>),
    /// The bytes of a binary frame.
    Binary(Seq<u8>),
}

/// A frame of either UTF-8 text or raw bytes, never both and never neither.
#[derive(Debug, PartialEq, Eq)]
pub enum FrameData {
    /// A text payload.
    Utf8(String),
    /// A binary payload.
    Binary(Vec<u8>),
}

impl View for FrameData {
    type V = Payload;

    open spec fn view(&self) -> Payload {
        match self {
            FrameData::Utf8(text) => Payload::Text(text@),
            FrameData::Binary(bytes) => Payload::Binary(bytes@),
        }
    }
}

impl FrameData {
    /// Wraps a text payload.
    pub fn from_utf8(utf8: String) -> (frame: FrameData)
        ensures
            frame == FrameData::Utf8(utf8),
            frame@ == Payload::Text(utf8@),
    {
        FrameData::Utf8(utf8)
    }

    /// Wraps a binary payload.
    pub fn from_binary_buffer(binary: Vec<u8>) -> (frame: FrameData)
        ensures
            frame == FrameData::Binary(binary),
            frame@ == Payload::Binary(binary@),
    {
        FrameData::Binary(binary)
    }

    /// Whether the frame carries text.
    pub fn is_utf8(&self) -> (text: bool)
        ensures
            text == (self@ is Text),
    {
        match self {
            FrameData::Utf8(_) => true,
            FrameData::Binary(_) => false,
        }
    }
}

} // verus!
