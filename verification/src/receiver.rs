//! Between the session and the keyer: turns what the session gave into the
//! messages of a frame.

use crate::auth::data_view;
use crate::frame::{decode_frame, decode_spec, frame_messages, messages_of, FrameError, MessageRCV};
use vstd::prelude::*;

verus! {

/// What the bytes of one message of the session mean to the keyer.
pub open spec fn decode_messages_spec(bytes: Seq<u8>) -> Result<Seq<MessageRCV>, FrameError> {
    match decode_spec(bytes) {
        Ok(frame) => Ok(frame_messages(frame)),
        Err(e) => Err(e),
    }
}

/// What one read of the session gives the keyer: nothing where the session
/// had nothing or gave what is no frame, the end of the session where it
/// failed, and else the messages of the frame.
pub open spec fn on_read_spec(outcome: Option<Seq<u8>>) -> Option<Seq<MessageRCV>> {
    match outcome {
        None => Some(seq![MessageRCV::SessionClosed]),
        Some(bytes) => if bytes.len() == 0 {
            None
        } else {
            match decode_messages_spec(bytes) {
                Ok(msgs) => Some(msgs),
                Err(_) => None,
            }
        },
    }
}

/// The receiving end of the frames.
pub struct WkReceiver {
    session_closed: bool,
}

impl WkReceiver {
    /// Whether the session has ended or the receiver was stopped.
    pub closed spec fn is_closed(&self) -> bool {
        self.session_closed
    }

    /// A receiver on an open session.
    pub fn new() -> (r: Self)
        ensures
            !r.is_closed(),
    {
        WkReceiver { session_closed: false }
    }

    /// The messages of one frame.
    pub fn decode(buf: &[u8]) -> (r: Result<Vec<MessageRCV>, FrameError>)
        ensures
            match r {
                Ok(msgs) => decode_messages_spec(buf@) == Ok::<Seq<MessageRCV>, FrameError>(msgs@),
                Err(e) => decode_messages_spec(buf@) == Err::<Seq<MessageRCV>, FrameError>(e),
            },
    {
        match decode_frame(buf) {
            Ok(frame) => Ok(messages_of(&frame)),
            Err(e) => Err(e),
        }
    }

    /// Takes what one read of the session gave: `Some` with the bytes that
    /// were read, which are none where nothing waited, and `None` where the
    /// read failed. A failed read closes the receiver; a closed receiver
    /// stays closed.
    pub fn on_read(&mut self, outcome: Option<&[u8]>) -> (msgs: Option<Vec<MessageRCV>>)
        ensures
            final(self).is_closed() == (old(self).is_closed() || outcome is None),
            match msgs {
                Some(m) => on_read_spec(data_view(outcome)) == Some(m@),
                None => on_read_spec(data_view(outcome)) is None,
            },
    {
        match outcome {
            None => {
                self.session_closed = true;
                let mut msgs: Vec<MessageRCV> = Vec::new();
                msgs.push(MessageRCV::SessionClosed);
                Some(msgs)
            },
            Some(bytes) => {
                if bytes.len() == 0 {
                    None
                } else {
                    match Self::decode(bytes) {
                        Ok(msgs) => Some(msgs),
                        Err(_) => None,
                    }
                }
            },
        }
    }

    /// Stops the receiver for good.
    pub fn stop(&mut self)
        ensures
            final(self).is_closed(),
    {
        self.session_closed = true;
    }

    /// Stops the receiver for good.
    pub fn close(&mut self)
        ensures
            final(self).is_closed(),
    {
        self.session_closed = true;
    }

    pub fn closed(&self) -> (b: bool)
        ensures
            b == self.is_closed(),
    {
        self.session_closed
    }
}

/// Of this many malformed frames in a row, one is written to the log.
pub const PROTOCOL_LOG_EVERY: u32 = 100;

/// Counts the frames that were dropped as malformed, and says which of them
/// are worth a line in the log.
#[derive(Clone, Copy, Debug, PartialEq, Eq, Structural)]
pub struct ProtocolErrorLog {
    pub count: u32,
}

impl ProtocolErrorLog {
    /// A log that has seen nothing.
    pub fn new() -> (l: Self)
        ensures
            l.count == 0,
    {
        ProtocolErrorLog { count: 0 }
    }

    /// Counts one more malformed frame and tells whether it is to be
    /// logged: the first is, and then every hundredth. The count starts over
    /// at 2^32.
    pub fn record(&mut self) -> (due: bool)
        ensures
            due == (old(self).count % PROTOCOL_LOG_EVERY == 0),
            final(self).count == if old(self).count == u32::MAX {
                0
            } else {
                (old(self).count + 1) as u32
            },
    {
        let due = self.count % PROTOCOL_LOG_EVERY == 0;
        self.count = self.count.wrapping_add(1);
        due
    }
}

} // verus!
