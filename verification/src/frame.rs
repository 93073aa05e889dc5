//! What a socket reads and writes: frames of the WebSocket protocol, of which
//! only binary frames carry data for the user.

use vstd::prelude::*;

use crate::error::WsError;

verus! {

/// The status code and the reason of a close frame.
#[derive(Debug, PartialEq, Eq)]
pub struct CloseInfo {
    pub code: u16,
    pub reason: String,
}

/// A WebSocket message, as the protocol delivers it.
#[derive(Debug)]
pub enum Frame {
    Text(String),
    Binary(Vec<u8>),
    Ping(Vec<u8>),
    Pong(Vec<u8>),
    Close(Option<CloseInfo>),
    /// A raw frame, with its payload.
    Raw(Vec<u8>),
}

impl Frame {
    /// The data of a binary frame; none for every other frame.
    pub open spec fn binary_data(self) -> Option<Seq<u8>> {
        match self {
            Frame::Binary(data) => Some(data@),
            _ => None,
        }
    }
}

/// What the reader of a socket sees of one poll of the WebSocket stream:
/// the end of the stream stays the end, an error is passed on, a binary
/// frame gives its data, and any other frame ends the stream.
pub open spec fn received(item: Option<Result<Frame, WsError>>) -> Option<Result<Seq<u8>, WsError>> {
    match item {
        None => None,
        Some(Err(e)) => Some(Err(e)),
        Some(Ok(frame)) => match frame.binary_data() {
            Some(data) => Some(Ok(data)),
            None => None,
        },
    }
}

/// The view of what a reader receives.
pub open spec fn received_view(item: Option<Result<Vec<u8>, WsError>>) -> Option<Result<Seq<u8>, WsError>> {
    match item {
        None => None,
        Some(Err(e)) => Some(Err(e)),
        Some(Ok(data)) => Some(Ok(data@)),
    }
}

/// Turns one item of the WebSocket stream into one item of the socket's stream.
pub fn incoming_payload(item: Option<Result<Frame, WsError>>) -> (r: Option<Result<Vec<u8>, WsError>>)
    ensures
        received_view(r) == received(item),
{
    match item {
        None => None,
        Some(Err(e)) => Some(Err(e)),
        Some(Ok(Frame::Binary(data))) => Some(Ok(data)),
        Some(Ok(_)) => None,
    }
}

/// The frame that carries data written to a socket: always a binary frame.
pub fn outgoing_frame(data: Vec<u8>) -> (f: Frame)
    ensures
        f matches Frame::Binary(d) && d@ == data@,
{
    Frame::Binary(data)
}

/// What is written to a socket is what its peer reads: the frame that carries
/// written data comes out of the peer's stream as exactly that data.
pub proof fn lemma_written_data_is_read(data: Seq<u8>, frame: Frame)
    requires
        frame matches Frame::Binary(d) && d@ == data,
    ensures
        received(Some(Ok(frame))) == Some(Ok::<Seq<u8>, WsError>(data)),
{
}

/// A frame that is not binary ends the stream of the socket that reads it,
/// an error is passed on unchanged, and the data a reader is handed is seen
/// as exactly its bytes.
pub proof fn lemma_only_binary_frames_continue(frame: Frame, e: WsError)
    ensures
        received(Some(Ok(frame))) is None <==> !(frame is Binary),
        received(Some(Err::<Frame, WsError>(e))) == Some(Err::<Seq<u8>, WsError>(e)),
        received(None) is None,
        forall|data: Vec<u8>| received_view(Some(Ok(data))) == Some(Ok::<Seq<u8>, WsError>(data@)),
        received_view(Some(Err(e))) == Some(Err::<Seq<u8>, WsError>(e)),
        received_view(None) is None,
{
}

} // verus!
