//! The wire envelope: `{opcode, sequence?, event_name?, payload}`.
//!
//! Every frame on the socket is an envelope carrying an integer opcode,
//! a sequence number and an event name (both only on dispatch-class
//! frames), and an opcode-specific payload. This module pins down which
//! opcodes exist, what a well-formed envelope of each class looks like,
//! and what the client's own outbound frames carry. Turning envelope text
//! into these plain parts and back is the transport layer's concern.

use vstd::prelude::*;
use vstd::string::StringExecFns;

verus! {

/// Every opcode the protocol knows.
#[derive(Debug, Clone, Copy, PartialEq, Eq, Structural)]
pub enum Opcode {
    /// A server-pushed event; carries a sequence number and an event name.
    Dispatch,
    /// A liveness ping, client to server (or demanded by the server).
    Heartbeat,
    /// The client authenticates a fresh session.
    Identify,
    /// The client updates its presence.
    PresenceUpdate,
    /// The client moves in or out of voice.
    VoiceStateUpdate,
    /// The client resumes a prior session.
    Resume,
    /// The server asks the client to reconnect.
    Reconnect,
    /// The server declares the session invalid.
    InvalidSession,
    /// The server's first frame: carries the heartbeat interval.
    Hello,
    /// The server acknowledges a liveness ping.
    HeartbeatAck,
}

/// The wire number of each opcode.
pub open spec fn spec_opcode_value(op: Opcode) -> u8 {
    match op {
        Opcode::Dispatch => 0,
        Opcode::Heartbeat => 1,
        Opcode::Identify => 2,
        Opcode::PresenceUpdate => 3,
        Opcode::VoiceStateUpdate => 4,
        Opcode::Resume => 6,
        Opcode::Reconnect => 7,
        Opcode::InvalidSession => 9,
        Opcode::Hello => 10,
        Opcode::HeartbeatAck => 11,
    }
}

/// The opcode a wire number names, if any.
pub open spec fn spec_opcode_of(v: u8) -> Option<Opcode> {
    if v == 0 {
        Some(Opcode::Dispatch)
    } else if v == 1 {
        Some(Opcode::Heartbeat)
    } else if v == 2 {
        Some(Opcode::Identify)
    } else if v == 3 {
        Some(Opcode::PresenceUpdate)
    } else if v == 4 {
        Some(Opcode::VoiceStateUpdate)
    } else if v == 6 {
        Some(Opcode::Resume)
    } else if v == 7 {
        Some(Opcode::Reconnect)
    } else if v == 9 {
        Some(Opcode::InvalidSession)
    } else if v == 10 {
        Some(Opcode::Hello)
    } else if v == 11 {
        Some(Opcode::HeartbeatAck)
    } else {
        None
    }
}

impl Opcode {
    /// The wire number of the opcode.
    pub fn value(&self) -> (r: u8)
        ensures
            r == spec_opcode_value(*self),
    {
        match self {
            Opcode::Dispatch => 0,
            Opcode::Heartbeat => 1,
            Opcode::Identify => 2,
            Opcode::PresenceUpdate => 3,
            Opcode::VoiceStateUpdate => 4,
            Opcode::Resume => 6,
            Opcode::Reconnect => 7,
            Opcode::InvalidSession => 9,
            Opcode::Hello => 10,
            Opcode::HeartbeatAck => 11,
        }
    }

    /// The opcode a wire number names, if any.
    pub fn from_value(v: u8) -> (r: Option<Opcode>)
        ensures
            r == spec_opcode_of(v),
    {
        match v {
            0 => Some(Opcode::Dispatch),
            1 => Some(Opcode::Heartbeat),
            2 => Some(Opcode::Identify),
            3 => Some(Opcode::PresenceUpdate),
            4 => Some(Opcode::VoiceStateUpdate),
            6 => Some(Opcode::Resume),
            7 => Some(Opcode::Reconnect),
            9 => Some(Opcode::InvalidSession),
            10 => Some(Opcode::Hello),
            11 => Some(Opcode::HeartbeatAck),
            _ => None,
        }
    }
}

/// Numbering and naming of opcodes invert each other: every opcode comes
/// back from its own wire number, and a wire number only ever names the
/// opcode it belongs to.
pub proof fn lemma_opcode_round_trip()
    ensures
        forall|op: Opcode| spec_opcode_of(spec_opcode_value(op)) == Some(op),
        forall|v: u8, op: Opcode| spec_opcode_of(v) == Some(op) ==> spec_opcode_value(op) == v,
{
}

/// The envelope fields the transport hands over, before their shape has
/// been checked: the opcode number, and the sequence and event name
/// slots, each of which the wire may leave empty.
#[derive(Debug, Clone, PartialEq)]
pub struct FrameHeader {
    pub opcode: u8,
    pub sequence: Option<u64>,
    pub event_name: Option<String>,
}

/// A well-shaped inbound envelope: the opcode, with the fields its class
/// requires.
#[derive(Debug, Clone, PartialEq)]
pub enum FrameClass {
    /// A dispatch-class frame: sequence and event name are both present.
    Dispatch { sequence: u64, event_name: String },
    /// The server demands an immediate heartbeat.
    HeartbeatRequest,
    /// The server's first frame of a socket.
    Hello,
    /// The server acknowledges a liveness ping.
    HeartbeatAck,
    /// The server asks the client to drop the socket and reconnect.
    Reconnect,
    /// The server declares the session invalid.
    InvalidSession,
}

/// Why an envelope was rejected.
#[derive(Debug, Clone, Copy, PartialEq, Eq, Structural)]
pub enum EnvelopeError {
    /// The opcode number names no opcode the protocol knows.
    UnknownOpcode { opcode: u8 },
    /// A dispatch frame arrived without a sequence number.
    MissingSequence,
    /// A dispatch frame arrived without an event name.
    MissingEventName,
    /// The opcode travels only from client to server.
    ClientOnlyOpcode { opcode: u8 },
}

/// Which frame class a header announces. A header is accepted exactly
/// when its opcode number is known, travels server-to-client, and — for
/// a dispatch frame — both the sequence and the event name are present.
pub open spec fn spec_classify_header(h: FrameHeader) -> Result<FrameClass, EnvelopeError> {
    match spec_opcode_of(h.opcode) {
        None => Err(EnvelopeError::UnknownOpcode { opcode: h.opcode }),
        Some(op) => match op {
            Opcode::Dispatch => match (h.sequence, h.event_name) {
                (Some(sequence), Some(event_name)) => Ok(
                    FrameClass::Dispatch { sequence, event_name },
                ),
                (None, _) => Err(EnvelopeError::MissingSequence),
                (Some(_), None) => Err(EnvelopeError::MissingEventName),
            },
            Opcode::Heartbeat => Ok(FrameClass::HeartbeatRequest),
            Opcode::Hello => Ok(FrameClass::Hello),
            Opcode::HeartbeatAck => Ok(FrameClass::HeartbeatAck),
            Opcode::Reconnect => Ok(FrameClass::Reconnect),
            Opcode::InvalidSession => Ok(FrameClass::InvalidSession),
            _ => Err(EnvelopeError::ClientOnlyOpcode { opcode: h.opcode }),
        },
    }
}

/// Checks the shape of an inbound envelope.
pub fn classify_header(h: FrameHeader) -> (r: Result<FrameClass, EnvelopeError>)
    ensures
        r == spec_classify_header(h),
{
    match Opcode::from_value(h.opcode) {
        None => Err(EnvelopeError::UnknownOpcode { opcode: h.opcode }),
        Some(op) => match op {
            Opcode::Dispatch => match (h.sequence, h.event_name) {
                (Some(sequence), Some(event_name)) => Ok(
                    FrameClass::Dispatch { sequence, event_name },
                ),
                (None, _) => Err(EnvelopeError::MissingSequence),
                (Some(_), None) => Err(EnvelopeError::MissingEventName),
            },
            Opcode::Heartbeat => Ok(FrameClass::HeartbeatRequest),
            Opcode::Hello => Ok(FrameClass::Hello),
            Opcode::HeartbeatAck => Ok(FrameClass::HeartbeatAck),
            Opcode::Reconnect => Ok(FrameClass::Reconnect),
            Opcode::InvalidSession => Ok(FrameClass::InvalidSession),
            _ => Err(EnvelopeError::ClientOnlyOpcode { opcode: h.opcode }),
        },
    }
}

/// The client's own descriptor, sent inside an identify payload. It
/// carries library-chosen constants, never real host telemetry.
#[derive(Debug, Clone, PartialEq)]
pub struct ClientProperties {
    pub os: String,
    pub browser: String,
    pub device: String,
}

/// The identify payload: the bearer token, the declared capabilities,
/// and the client descriptor.
#[derive(Debug, Clone, PartialEq)]
pub struct IdentifyPayload {
    pub token: String,
    pub intents: u64,
    pub properties: ClientProperties,
}

/// Builds the identify payload for a fresh session. The client
/// descriptor is fixed by the library: it never describes the host.
pub fn build_identify_payload(token: String, intents: u64) -> (p: IdentifyPayload)
    ensures
        p.token == token,
        p.intents == intents,
        p.properties.os@ == "other"@,
        p.properties.browser@ == "chorus"@,
        p.properties.device@ == "chorus"@,
{
    IdentifyPayload {
        token,
        intents,
        properties: ClientProperties {
            os: String::from_str("other"),
            browser: String::from_str("chorus"),
            device: String::from_str("chorus"),
        },
    }
}

/// A frame the client sends. Each variant carries exactly what its
/// payload needs; the transport layer turns it into envelope text.
#[derive(Debug, Clone, PartialEq)]
pub enum OutboundFrame {
    /// A liveness ping carrying the last sequence the client saw.
    Heartbeat { sequence: Option<u64> },
    /// Authentication of a fresh session.
    Identify(IdentifyPayload),
    /// Resumption of a prior session from its last sequence.
    Resume { session_id: String, sequence: u64 },
    /// A presence update.
    PresenceUpdate(crate::events::UpdatePresence),
}

impl OutboundFrame {
    /// The opcode of the envelope this frame travels in.
    pub fn opcode(&self) -> (r: Opcode)
        ensures
            r == match *self {
                OutboundFrame::Heartbeat { .. } => Opcode::Heartbeat,
                OutboundFrame::Identify(..) => Opcode::Identify,
                OutboundFrame::Resume { .. } => Opcode::Resume,
                OutboundFrame::PresenceUpdate(..) => Opcode::PresenceUpdate,
            },
    {
        match self {
            OutboundFrame::Heartbeat { .. } => Opcode::Heartbeat,
            OutboundFrame::Identify(..) => Opcode::Identify,
            OutboundFrame::Resume { .. } => Opcode::Resume,
            OutboundFrame::PresenceUpdate(..) => Opcode::PresenceUpdate,
        }
    }
}

} // verus!
