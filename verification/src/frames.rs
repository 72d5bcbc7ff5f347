//! Inbound frame interpretation.  After the upgrade, a binary frame carries
//! raw terminal bytes, a text frame either carries a resize command or is
//! literal keyboard input, and a close frame ends the connection.  This
//! module decides, for each frame, what the relay must do; the surrounding
//! process performs the decided action.

use vstd::prelude::*;
use vstd::string::StrSliceExecFns;
use vstd::string::StringSliceAdditionalSpecFns;
use vstd::utf8::encode_utf8;
use crate::resize::{is_resize_command, is_resize_prefixed, parse_resize, resize_request};

verus! {

/// A frame received from the network peer, reduced to what the relay
/// distinguishes: payload-bearing frames, the close frame, and the
/// transport's own control frames.
pub enum InboundFrame {
    /// A binary frame of raw terminal bytes.
    Binary(Vec<u8>),
    /// A text frame: a resize command or literal input.
    Text(String),
    /// The peer closed the connection.
    Close,
    /// A transport control frame with no meaning to the relay.
    Control,
}

/// What the relay must do with one inbound frame.
pub enum InboundAction {
    /// Write these bytes to the pseudo-terminal verbatim, then flush.
    WriteAndFlush(Vec<u8>),
    /// Resize the pseudo-terminal to this many columns and rows.
    Resize(u16, u16),
    /// Do nothing: a malformed resize command or a transport control frame.
    Ignore,
    /// Tear the connection down.
    Shutdown,
}

/// The decision the relay owes for a frame: binary payloads and plain text
/// reach the terminal byte-for-byte (text as its UTF-8 bytes), a well-formed
/// resize command becomes exactly one resize, a resize-prefixed frame that
/// is malformed is dropped without writing anything, and a close frame ends
/// the connection.
pub open spec fn inbound_decision_ok(frame: InboundFrame, action: InboundAction) -> bool {
    match frame {
        InboundFrame::Binary(data) => match action {
            InboundAction::WriteAndFlush(bytes) => bytes@ == data@,
            _ => false,
        },
        InboundFrame::Text(text) => {
            if is_resize_prefixed(text@) {
                match resize_request(text@) {
                    Some((cols, rows)) => action == InboundAction::Resize(cols, rows),
                    None => action == InboundAction::Ignore,
                }
            } else {
                match action {
                    InboundAction::WriteAndFlush(bytes) => bytes@ == encode_utf8(text@),
                    _ => false,
                }
            }
        },
        InboundFrame::Close => action == InboundAction::Shutdown,
        InboundFrame::Control => action == InboundAction::Ignore,
    }
}

/// Decides what the relay does with one inbound frame.
pub fn inbound_action(frame: InboundFrame) -> (action: InboundAction)
    ensures
        inbound_decision_ok(frame, action),
{
    match frame {
        InboundFrame::Binary(data) => InboundAction::WriteAndFlush(data),
        InboundFrame::Text(text) => {
            if is_resize_command(text.as_str()) {
                match parse_resize(text.as_str()) {
                    Some((cols, rows)) => InboundAction::Resize(cols, rows),
                    None => InboundAction::Ignore,
                }
            } else {
                InboundAction::WriteAndFlush(text.as_str().as_bytes_vec())
            }
        },
        InboundFrame::Close => InboundAction::Shutdown,
        InboundFrame::Control => InboundAction::Ignore,
    }
}

} // verus!
