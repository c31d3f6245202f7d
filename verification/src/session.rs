//! The ping session: state for one echo exchange per interval — a
//! fixed identifier, a wrapping 16-bit sequence counter, and the tick
//! of the most recent send — together with the decision of what to
//! report for each inbound datagram. Sending, receiving and sleeping
//! belong to the transport collaborator around this library.

use crate::icmp::{
    new_echo_request, spec_encode, spec_parse, IcmpData, IcmpError, IcmpMessageType, IcmpView,
};
use vstd::prelude::*;

verus! {

/// What the session reports of one inbound datagram.
#[derive(Debug, Clone, Copy, PartialEq, Eq, Structural)]
pub enum ReplyClass {
    /// An echo response: report the round trip, with the sequence
    /// number the datagram carried.
    EchoReply { seq_no: u16 },
    /// Any other defined message: report its type, no round trip.
    OtherMessage { message_type: IcmpMessageType },
    /// Bytes that did not decode: report the notice and go on.
    Malformed { error: IcmpError },
}

/// The view of an echo request built from session state, before its
/// checksum is computed.
pub open spec fn request_view(identifier: u16, seq_no: u16, payload: Seq<u8>) -> IcmpView {
    IcmpView {
        message_type: IcmpMessageType::EchoRequest,
        chksum: 0,
        identifier,
        seq_no,
        message: payload,
    }
}

/// The state one running session owns.
pub struct PingSession {
    /// The identifier chosen once per run, written into every request.
    pub identifier: u16,
    /// The sequence number the next request will carry; wraps at
    /// 65535 back to 0.
    pub seq_no: u16,
    /// The tick at which the most recent request was handed to the
    /// transport, in whatever unit the caller's clock counts.
    pub last_send_ticks: u64,
}

impl PingSession {
    /// A fresh session: sequence counter at zero, nothing sent yet.
    pub fn new(identifier: u16) -> (s: Self)
        ensures
            s.identifier == identifier,
            s.seq_no == 0,
            s.last_send_ticks == 0,
    {
        PingSession { identifier, seq_no: 0, last_send_ticks: 0 }
    }

    /// Encodes the next echo request with the session's identifier,
    /// current sequence number and the given payload, records the
    /// send tick, and steps the counter — 65535 wraps to 0.
    pub fn next_request(&mut self, payload: Vec<u8>, now_ticks: u64) -> (r: Vec<u8>)
        ensures
            r@ == spec_encode(request_view(old(self).identifier, old(self).seq_no, payload@)),
            final(self).identifier == old(self).identifier,
            final(self).seq_no == (old(self).seq_no + 1) % 0x10000,
            final(self).last_send_ticks == now_ticks,
    {
        let message = new_echo_request(payload, self.identifier, self.seq_no);
        let encoded = message.encode();
        self.seq_no = if self.seq_no == 0xFFFF {
            0
        } else {
            self.seq_no + 1
        };
        self.last_send_ticks = now_ticks;
        encoded
    }

    /// The ticks elapsed since the recorded send; zero if the given
    /// clock reading lies before it.
    pub fn ticks_since_send(&self, now_ticks: u64) -> (r: u64)
        ensures
            r == (if now_ticks >= self.last_send_ticks {
                now_ticks - self.last_send_ticks
            } else {
                0
            }),
    {
        if now_ticks >= self.last_send_ticks {
            now_ticks - self.last_send_ticks
        } else {
            0
        }
    }

    /// Decodes one inbound datagram and decides the report: the round
    /// trip for an echo response, an informational line for any other
    /// defined message, a notice for bytes that do not decode. The
    /// sequence number is reported as received, not checked against
    /// the one just sent.
    pub fn classify_reply(data: &[u8]) -> (r: ReplyClass)
        ensures
            r == (match spec_parse(data@) {
                Ok(v) => if v.message_type == IcmpMessageType::EchoResponse {
                    ReplyClass::EchoReply { seq_no: v.seq_no }
                } else {
                    ReplyClass::OtherMessage { message_type: v.message_type }
                },
                Err(e) => ReplyClass::Malformed { error: e },
            }),
    {
        match IcmpData::parse(data) {
            Ok(d) => {
                let message_type = *d.get_type();
                match message_type {
                    IcmpMessageType::EchoResponse => ReplyClass::EchoReply {
                        seq_no: d.get_seq_no(),
                    },
                    _ => ReplyClass::OtherMessage { message_type },
                }
            },
            Err(e) => ReplyClass::Malformed { error: e },
        }
    }
}

} // verus!
