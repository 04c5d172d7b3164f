//! What a WebSocket source makes of each frame it receives.
//!
//! Connecting, sending and receiving are left to the caller, which hands each
//! received frame here and acts on the answer.
use vstd::prelude::*;

verus! {

/// Where a WebSocket source connects, and what it sends once connected.
pub struct WebSocketConfig {
    pub url: String,
    /// Sent as a text frame right after connecting, where given.
    pub subscription_message: Option<String>,
    pub headers: Option<Vec<(String, String)>>,
}

/// What the connection gave on one receive.
pub enum WsFrame {
    /// A text frame.
    Text(String),
    /// A binary frame.
    Binary(Vec<u8>),
    /// A close frame.
    Close,
    /// A ping, a pong, or a raw frame.
    Control,
    /// The connection reported an error.
    Failed,
    /// The stream of frames ended.
    Ended,
}

/// What the source does with a received frame.
pub enum WsAction {
    /// Hand these bytes on as the next message.
    Deliver(Vec<u8>),
    /// Ignore the frame and receive the next one.
    Skip,
    /// There are no more messages.
    Finish,
    /// Report the connection's error as the next message.
    Fail,
}

/// A text frame is delivered as the UTF-8 bytes of its text and a binary frame
/// as its bytes; a close frame or the end of the stream finishes; pings, pongs
/// and raw frames are skipped; an error is reported.
pub fn frame_action(frame: WsFrame) -> (r: WsAction)
    ensures
        match frame {
            WsFrame::Text(t) => r matches WsAction::Deliver(b) && b@ == vstd::utf8::encode_utf8(t@),
            WsFrame::Binary(d) => r matches WsAction::Deliver(b) && b@ == d@,
            WsFrame::Close => r is Finish,
            WsFrame::Control => r is Skip,
            WsFrame::Failed => r is Fail,
            WsFrame::Ended => r is Finish,
        },
{
    match frame {
        WsFrame::Text(t) => WsAction::Deliver(t.as_str().as_bytes_vec()),
        WsFrame::Binary(d) => WsAction::Deliver(d),
        WsFrame::Close => WsAction::Finish,
        WsFrame::Control => WsAction::Skip,
        WsFrame::Failed => WsAction::Fail,
        WsFrame::Ended => WsAction::Finish,
    }
}

} // verus!
