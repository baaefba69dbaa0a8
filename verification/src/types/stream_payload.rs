//! Stream payloads multiplexed between peers and clients.

use crate::text::spec_dec;
use crate::text::u64_to_string;
use vstd::prelude::*;
use vstd::string::StrSliceExecFns;
use vstd::string::StringExecFns;

verus! {

/// One frame of a multiplexed stream.
#[derive(Debug, Clone)]
pub enum StreamPayload {
    ProxyPayload(ProxyPayload),
    VPNPayload(VPNPayload),
    HealthCheck(HealthCheck),
}

/// A VPN data frame.
#[derive(Debug, Clone)]
pub struct VPNPayload {}

/// A keep-alive frame.
#[derive(Debug, Clone)]
pub struct HealthCheck {}

/// Where a stream originated.
#[derive(Debug, Clone)]
pub struct StreamOrigin {
    pub origin_topic: String,
    /// for multiplex purpose, destination may process data sent by origin;
    /// returned outcome is sent back along stream_id
    pub stream_id: u64,
    /// max duration that the stream will last
    pub duration: u64,
}

/// A proxied data frame with its origin.
#[derive(Debug, Clone)]
pub struct ProxyPayload {
    pub origin: StreamOrigin,
    pub payload: Vec<u8>,
}

impl ProxyPayload {
    /// The transfer identifier of this frame's stream: origin topic and
    /// stream number joined by a colon.
    pub fn stream_tx_id(&self) -> (r: String)
        ensures
            r@ == self.origin.origin_topic@ + ":"@ + spec_dec(self.origin.stream_id as nat),
    {
        let n = u64_to_string(self.origin.stream_id);
        self.origin.origin_topic.clone().concat(":").concat(n.as_str())
    }

    /// Renders the transfer log line for this frame, quoting the first ten
    /// characters of the topic (all of it when shorter); the caller hands
    /// the line to its logger.
    pub fn print_payload(&self, outgoing: bool) -> (r: String)
        ensures
            r@ == (if outgoing {
                ">>>|out|>>> origin_topic="@
            } else {
                "<<<|inn|<<< origin_topic="@
            }) + self.origin.origin_topic@.subrange(
                0,
                if self.origin.origin_topic@.len() < 10 {
                    self.origin.origin_topic@.len() as int
                } else {
                    10
                },
            ) + " stream_id="@ + spec_dec(self.origin.stream_id as nat) + " len="@ + spec_dec(
                self.payload@.len() as nat,
            ),
    {
        let head: &str = if outgoing {
            ">>>|out|>>> origin_topic="
        } else {
            "<<<|inn|<<< origin_topic="
        };
        let chars = self.origin.origin_topic.as_str().unicode_len();
        let quoted = if chars < 10 {
            chars
        } else {
            10
        };
        let topic = self.origin.origin_topic.as_str().substring_char(0, quoted);
        let sid = u64_to_string(self.origin.stream_id);
        let len = u64_to_string(self.payload.len() as u64);
        String::from_str(head).concat(topic).concat(" stream_id=").concat(sid.as_str()).concat(
            " len=",
        ).concat(len.as_str())
    }
}

} // verus!
