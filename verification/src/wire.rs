//! What travels between the chat's server and its pages.

use vstd::prelude::*;
use vstd::utf8::*;

verus! {

/// One message on the connection between a page and the server.
#[derive(Debug)]
pub enum Frame {
    /// A message that holds text.
    Text(String),
    /// A message that holds bytes.
    Binary(Vec<u8>),
    /// Any other message: one that keeps the connection alive or closes it.
    Control,
}

/// What a `Frame` holds.
pub enum FrameView {
    Text(Seq<char>),
    Binary(Seq<u8>),
    Control,
}

impl View for Frame {
    type V = FrameView;

    open spec fn view(&self) -> FrameView {
        match self {
            Frame::Text(text) => FrameView::Text(text@),
            Frame::Binary(bytes) => FrameView::Binary(bytes@),
            Frame::Control => FrameView::Control,
        }
    }
}

/// Calls `std::str::from_utf8` and copies the text that it hands back.
///
/// Trusted: bytes that are valid UTF-8 give the text that they encode, all
/// other bytes give nothing.
#[verifier::external_body]
pub(crate) fn text_of_bytes(bytes: &[u8]) -> (r: Option<String>)
    ensures
        r is Some <==> valid_utf8(bytes@),
        r matches Some(text) ==> text@ == decode_utf8(bytes@),
{
    match std::str::from_utf8(bytes) {
        Ok(text) => Some(text.to_owned()),
        Err(_) => None,
    }
}

/// The text that a frame brings to a page: that of a text message, that
/// which the bytes of a binary message encode, and none where they encode
/// none or the frame is of another sort.
pub open spec fn incoming_text(frame: FrameView) -> Option<Seq<char>> {
    match frame {
        FrameView::Text(text) => Some(text),
        FrameView::Binary(bytes) => if valid_utf8(bytes) {
            Some(decode_utf8(bytes))
        } else {
            None
        },
        FrameView::Control => None,
    }
}

/// The text that a frame brings to a page.
pub fn decode_frame(frame: Frame) -> (r: Option<String>)
    ensures
        r matches Some(text) ==> incoming_text(frame@) == Some(text@),
        r is None ==> incoming_text(frame@) is None,
{
    match frame {
        Frame::Text(text) => Some(text),
        Frame::Binary(bytes) => text_of_bytes(bytes.as_slice()),
        Frame::Control => None,
    }
}

} // verus!
