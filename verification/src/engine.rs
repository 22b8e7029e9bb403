//! The rules of the request engine: what a request is made of, how the
//! body of a response is gathered chunk by chunk, and what a finished or a
//! failed mission reports. Sending and receiving are left to the caller.

use crate::app::HttpMethod;
use crate::json::{display_text, format_body};
use crate::telemetry::MissionTelemetry;
use std::time::Duration;
use vstd::prelude::*;
use vstd::utf8::{decode_utf8, valid_utf8};

verus! {

/// The text that `String::from_utf8_lossy` makes of a sequence of bytes.
pub uninterp spec fn lossy_text(bytes: Seq<u8>) -> Seq<char>;

/// `String::from_utf8_lossy`: decodes the bytes as UTF-8 and never fails.
/// Bytes that are valid UTF-8 give the text they encode; any other bytes
/// give a text in which U+FFFD stands for what could not be decoded.
#[verifier::external_body]
fn decode_lossy(bytes: &[u8]) -> (text: String)
    ensures
        text@ == lossy_text(bytes@),
        valid_utf8(bytes@) ==> text@ == decode_utf8(bytes@),
        !valid_utf8(bytes@) ==> text@.contains('\u{FFFD}'),
{
    String::from_utf8_lossy(bytes).into_owned()
}

/// A request as it is handed to the engine.
#[derive(Debug)]
pub struct RequestDraft {
    pub method: HttpMethod,
    pub url: String,
    /// The body to send, if any.
    pub body: Option<String>,
    /// The header text, one header per line.
    pub raw_headers: String,
}

/// Why a mission failed.
#[derive(Debug, Clone, Copy, PartialEq, Eq, Structural)]
pub enum MissionFailure {
    /// The request could not be sent, or no response head came back.
    Connection,
    /// Reading the body of the response failed part-way.
    Stream,
}

/// What the engine reports of a mission: exactly one of these per mission.
#[derive(Debug)]
pub enum EngineEvent {
    /// The mission ran to its end: its measurements and the text to show.
    Completed(MissionTelemetry, String),
    /// The mission failed, with the reason in words.
    Error(String),
}

/// The status shown for a mission that failed.
pub const FAILURE_STATUS: u16 = 500;

/// The status shown for a body that was refused before sending.
pub const VALIDATION_STATUS: u16 = 400;

impl MissionFailure {
    /// The reason in words.
    pub open spec fn message_text(self) -> Seq<char> {
        match self {
            MissionFailure::Connection => "Failed to connect"@,
            MissionFailure::Stream => "Stream error"@,
        }
    }

    /// The reason in words.
    pub fn message(&self) -> (m: String)
        ensures
            m@ == self.message_text(),
    {
        match self {
            MissionFailure::Connection => "Failed to connect".to_owned(),
            MissionFailure::Stream => "Stream error".to_owned(),
        }
    }
}

/// The body of a response while it is being received: the status that came
/// with the head, and the bytes read so far.
#[derive(Debug)]
pub struct ResponseBody {
    pub status: u16,
    pub bytes: Vec<u8>,
}

/// The text of a body: its bytes decoded as UTF-8 without failing, then
/// laid out as JSON where the text is JSON.
pub open spec fn body_text(bytes: Seq<u8>) -> Seq<char> {
    display_text(lossy_text(bytes))
}

impl ResponseBody {
    /// Starts receiving: the head has come with `status`, no byte yet.
    pub fn begin(status: u16) -> (body: Self)
        ensures
            body.status == status,
            body.bytes@ == Seq::<u8>::empty(),
    {
        ResponseBody { status, bytes: Vec::new() }
    }

    /// Takes in the next chunk of the body.
    pub fn push_chunk(&mut self, chunk: &[u8])
        ensures
            final(self).status == old(self).status,
            final(self).bytes@ == old(self).bytes@ + chunk@,
    {
        self.bytes.extend_from_slice(chunk);
        proof {
            assert(self.bytes@ =~= old(self).bytes@ + chunk@);
        }
    }

    /// The number of bytes received so far.
    pub fn size_bytes(&self) -> (n: u64)
        ensures
            n == self.bytes@.len(),
    {
        self.bytes.len() as u64
    }

    /// Ends receiving: the measurements of the mission, with the three
    /// durations as the caller measured them, and the text of the body.
    pub fn finish(self, connect_to_first_byte: Duration, transfer: Duration, total: Duration) -> (r:
        (MissionTelemetry, String))
        ensures
            r.0.dns_handshake_ttfb == connect_to_first_byte,
            r.0.transfer == transfer,
            r.0.total == total,
            r.0.size_bytes == self.bytes@.len(),
            r.0.status == self.status,
            r.1@ == body_text(self.bytes@),
    {
        let size_bytes = self.size_bytes();
        let decoded = decode_lossy(self.bytes.as_slice());
        let text = format_body(decoded);
        (
            MissionTelemetry {
                dns_handshake_ttfb: connect_to_first_byte,
                transfer,
                total,
                size_bytes,
                status: self.status,
            },
            text,
        )
    }
}

/// Decodes the bytes of a body as UTF-8; what is no UTF-8 is replaced, so
/// this never fails.
pub fn decode_body(bytes: &[u8]) -> (text: String)
    ensures
        text@ == lossy_text(bytes@),
        valid_utf8(bytes@) ==> text@ == decode_utf8(bytes@),
        !valid_utf8(bytes@) ==> text@.contains('\u{FFFD}'),
{
    decode_lossy(bytes)
}

/// Turns the outcome of a mission into the one event that reports it.
pub fn mission_event(outcome: Result<(MissionTelemetry, String), MissionFailure>) -> (event:
    EngineEvent)
    ensures
        match outcome {
            Ok(done) => event matches EngineEvent::Completed(t, text) && t == done.0 && text
                == done.1,
            Err(failure) => event matches EngineEvent::Error(m) && m@ == failure.message_text(),
        },
{
    match outcome {
        Ok(done) => EngineEvent::Completed(done.0, done.1),
        Err(failure) => EngineEvent::Error(failure.message()),
    }
}

} // verus!
