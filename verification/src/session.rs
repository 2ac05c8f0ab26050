//! The gateway session state machine.
//!
//! One value of [`GatewaySession`] owns a connection's whole life:
//! connect, await the hello, identify, run, resume or reconnect, close.
//! Its transition relation is written out as the specification
//! [`spec_step_frame`] (with [`spec_step_tick`], [`spec_step_drop`] and
//! the rest for the non-frame inputs), and every handler is proved to
//! step exactly by that relation. The state machine decides; it never
//! touches a socket itself. Each step hands back the list of
//! [`GatewayAction`]s the surroundings must perform, in order.

use vstd::prelude::*;

use crate::events::{GuildEvents, InteractionCreate, PresenceUpdate};
use crate::heartbeat::HeartbeatState;

verus! {

/// Where a session stands in its life.
#[derive(Debug, Clone, Copy, PartialEq, Eq, Structural)]
pub enum SessionPhase {
    /// The transport is being opened.
    Connecting,
    /// The socket is open; the server's hello is owed.
    AwaitingHello,
    /// The identify frame went out; the ready event is owed.
    Identifying,
    /// The session is established; no dispatch has been processed yet.
    Ready,
    /// Steady state: dispatch frames flow.
    Active,
    /// A prior session is being resumed over a fresh socket.
    Resuming,
    /// Shut down at the caller's request.
    Closed,
    /// Dead beyond recovery.
    Failed,
}

/// A decoded dispatch-class event, as the dispatcher will classify it.
#[derive(Debug, Clone, PartialEq)]
pub enum DispatchPayload {
    /// The session is established; carries the session-resume token.
    Ready { session_id: String },
    /// The server finished replaying missed events after a resume.
    Resumed,
    /// A guild-scoped event.
    Guild(GuildEvents),
    /// A presence update.
    Presence(PresenceUpdate),
    /// An application-command invocation.
    Interaction(InteractionCreate),
    /// An event name this library does not know. Dropped, by design:
    /// servers may grow new event kinds.
    Unknown { event_name: String },
    /// A known event name whose payload would not decode. Reported and
    /// dropped; the session goes on.
    Malformed { event_name: String },
}

/// A typed inbound frame, after the envelope was checked and the payload
/// decoded.
#[derive(Debug, Clone, PartialEq)]
pub enum InboundFrame {
    /// The server's first frame of a socket: the heartbeat interval.
    Hello { heartbeat_interval: u64 },
    /// A server-pushed event with its sequence number.
    Dispatch { sequence: u64, event: DispatchPayload },
    /// The server demands an immediate heartbeat.
    HeartbeatRequest,
    /// The server acknowledges a liveness ping.
    HeartbeatAck,
    /// The server asks the client to reconnect.
    Reconnect,
    /// The server declares the session invalid.
    InvalidSession { resumable: bool },
}

/// Why a session died beyond recovery. Authentication failures are
/// surfaced apart from lost connections: the first is final, the second
/// merely had no resume context to recover with.
#[derive(Debug, Clone, Copy, PartialEq, Eq, Structural)]
pub enum FatalError {
    /// The server broke the protocol (an unlawful first frame).
    ProtocolViolation,
    /// The server rejected the identify: the token is no good.
    AuthenticationFailed,
    /// The server declared the established session invalid beyond resume.
    SessionInvalidated,
    /// The transport was lost with no session id and sequence to resume
    /// from.
    ConnectionLost,
}

/// What one step asks the session's surroundings to do. The state
/// machine decides; the transport and the timer obey.
#[derive(Debug, Clone, PartialEq)]
pub enum GatewayAction {
    /// Start (or restart) the heartbeat loop at this period.
    StartHeartbeat { interval_ms: u64 },
    /// Send an identify frame for a fresh session.
    SendIdentify { token: String, intents: u64 },
    /// Send a resume frame for the prior session.
    SendResume { session_id: String, sequence: u64 },
    /// Send a liveness ping carrying the last sequence seen.
    SendHeartbeat { sequence: Option<u64> },
    /// Hand the event to the external subscriber.
    DeliverEvent(DispatchPayload),
    /// Report a known event whose payload would not decode.
    ReportDecodeError { event_name: String },
    /// Report that the session is dead beyond recovery, and why.
    ReportFatal { error: FatalError },
    /// Drop the socket and open a fresh one; resume if the flag says so.
    ReconnectTransport { resume: bool },
    /// Stop the heartbeat loop.
    StopHeartbeat,
    /// Close the transport for good.
    CloseTransport,
}

/// One logical connection: its phase, its sequence bookkeeping, its
/// resume token, its liveness record, and what it identifies with.
#[derive(Debug, Clone, PartialEq)]
pub struct GatewaySession {
    pub phase: SessionPhase,
    /// The sequence of the last dispatch frame seen, if any.
    pub last_sequence: Option<u64>,
    /// The opaque resume token the server issued at ready time.
    pub session_id: Option<String>,
    /// The liveness record, while a heartbeat schedule is running.
    pub heartbeat: Option<HeartbeatState>,
    /// The bearer token the session identifies with.
    pub token: String,
    /// The capabilities the session declares at identify time.
    pub intents: u64,
}

impl GatewaySession {
    /// A session only ever resumes from a held session id and sequence.
    pub open spec fn wf(&self) -> bool {
        self.phase == SessionPhase::Resuming ==> self.session_id is Some && self.last_sequence
            is Some
    }

    /// A fresh session, about to open its transport.
    pub fn new(token: String, intents: u64) -> (s: GatewaySession)
        ensures
            s == (GatewaySession {
                phase: SessionPhase::Connecting,
                last_sequence: None,
                session_id: None,
                heartbeat: None,
                token,
                intents,
            }),
            s.wf(),
    {
        GatewaySession {
            phase: SessionPhase::Connecting,
            last_sequence: None,
            session_id: None,
            heartbeat: None,
            token,
            intents,
        }
    }
}

/// What delivering one decoded event amounts to: known events go to the
/// subscriber, a malformed payload is reported, an unknown name is
/// dropped with no fuss.
pub open spec fn spec_deliver_actions(event: DispatchPayload) -> Seq<GatewayAction> {
    match event {
        DispatchPayload::Unknown { .. } => Seq::<GatewayAction>::empty(),
        DispatchPayload::Malformed { event_name } => seq![
            GatewayAction::ReportDecodeError { event_name },
        ],
        _ => seq![GatewayAction::DeliverEvent(event)],
    }
}

/// The session after a heartbeat acknowledgement: the ping in flight is
/// accounted for.
pub open spec fn spec_ack(s: GatewaySession) -> GatewaySession {
    GatewaySession {
        heartbeat: match s.heartbeat {
            Some(hb) => Some(HeartbeatState { acked: true, ..hb }),
            None => None,
        },
        ..s
    }
}

/// The session after answering a demand for an immediate heartbeat: the
/// ping goes out carrying the last sequence seen.
pub open spec fn spec_heartbeat_reply(s: GatewaySession, now_ms: u64) -> (
    GatewaySession,
    Seq<GatewayAction>,
) {
    (
        GatewaySession {
            heartbeat: match s.heartbeat {
                Some(hb) => Some(hb.spec_after_send(now_ms)),
                None => None,
            },
            ..s
        },
        seq![GatewayAction::SendHeartbeat { sequence: s.last_sequence }],
    )
}

/// Recovery from a lost transport, a liveness failure or a demanded
/// reconnect: resume is preferred whenever a session id and a sequence
/// are held; without them the session fails. Either way the heartbeat
/// schedule stops, so one failure signals exactly one transition.
pub open spec fn spec_recover(s: GatewaySession) -> (GatewaySession, Seq<GatewayAction>) {
    if s.session_id is Some && s.last_sequence is Some {
        (
            GatewaySession { phase: SessionPhase::Resuming, heartbeat: None, ..s },
            seq![GatewayAction::ReconnectTransport { resume: true }],
        )
    } else {
        (
            GatewaySession { phase: SessionPhase::Failed, heartbeat: None, ..s },
            seq![
                GatewayAction::ReportFatal { error: FatalError::ConnectionLost },
                GatewayAction::CloseTransport,
            ],
        )
    }
}

/// The session after a fatal signal: failed for good, the reason
/// reported, the transport closed.
pub open spec fn spec_fail(s: GatewaySession, error: FatalError) -> (
    GatewaySession,
    Seq<GatewayAction>,
) {
    (
        GatewaySession { phase: SessionPhase::Failed, heartbeat: None, ..s },
        seq![GatewayAction::ReportFatal { error }, GatewayAction::CloseTransport],
    )
}

/// The transition relation of the session state machine, one inbound
/// frame at a time.
///
/// - Awaiting the hello, only a hello is lawful: it starts the heartbeat
///   schedule and sends the identify frame. Any other first frame is a
///   protocol violation and the session fails.
/// - Identifying, the ready event establishes the session and captures
///   the resume token; an invalid-session signal is fatal.
/// - Ready or active, every dispatch frame first stores its sequence as
///   last seen, then is delivered; acknowledgements clear the ping in
///   flight; a demanded reconnect recovers, resume preferred.
/// - Resuming, the fresh socket's hello prompts a resume frame — never
///   an identify; replayed dispatches still advance the sequence; the
///   resume-complete event returns the session to active; a rejected
///   resume falls back to a fresh identify, discarding the held token
///   and sequence.
/// - Closed or failed sessions let no late frame do anything.
pub open spec fn spec_step_frame(s: GatewaySession, f: InboundFrame, now_ms: u64) -> (
    GatewaySession,
    Seq<GatewayAction>,
) {
    match s.phase {
        SessionPhase::Closed | SessionPhase::Failed | SessionPhase::Connecting => (
            s,
            Seq::<GatewayAction>::empty(),
        ),
        SessionPhase::AwaitingHello => match f {
            InboundFrame::Hello { heartbeat_interval } => (
                GatewaySession {
                    phase: SessionPhase::Identifying,
                    heartbeat: Some(
                        HeartbeatState {
                            interval_ms: heartbeat_interval,
                            next_tick_ms: crate::heartbeat::sat_add(now_ms, heartbeat_interval),
                            last_send_ms: now_ms,
                            acked: true,
                        },
                    ),
                    ..s
                },
                seq![
                    GatewayAction::StartHeartbeat { interval_ms: heartbeat_interval },
                    GatewayAction::SendIdentify { token: s.token, intents: s.intents },
                ],
            ),
            _ => spec_fail(s, FatalError::ProtocolViolation),
        },
        SessionPhase::Identifying => match f {
            InboundFrame::Dispatch { sequence, event } => match event {
                DispatchPayload::Ready { session_id } => (
                    GatewaySession {
                        phase: SessionPhase::Ready,
                        last_sequence: Some(sequence),
                        session_id: Some(session_id),
                        ..s
                    },
                    seq![GatewayAction::DeliverEvent(DispatchPayload::Ready { session_id })],
                ),
                _ => (
                    GatewaySession { last_sequence: Some(sequence), ..s },
                    spec_deliver_actions(event),
                ),
            },
            InboundFrame::HeartbeatAck => (spec_ack(s), Seq::<GatewayAction>::empty()),
            InboundFrame::HeartbeatRequest => spec_heartbeat_reply(s, now_ms),
            InboundFrame::Hello { .. } => (s, Seq::<GatewayAction>::empty()),
            InboundFrame::Reconnect => spec_recover(s),
            InboundFrame::InvalidSession { .. } => spec_fail(s, FatalError::AuthenticationFailed),
        },
        SessionPhase::Ready | SessionPhase::Active => match f {
            InboundFrame::Dispatch { sequence, event } => (
                GatewaySession {
                    phase: SessionPhase::Active,
                    last_sequence: Some(sequence),
                    ..s
                },
                spec_deliver_actions(event),
            ),
            InboundFrame::HeartbeatAck => (spec_ack(s), Seq::<GatewayAction>::empty()),
            InboundFrame::HeartbeatRequest => spec_heartbeat_reply(s, now_ms),
            InboundFrame::Hello { .. } => (s, Seq::<GatewayAction>::empty()),
            InboundFrame::Reconnect => spec_recover(s),
            InboundFrame::InvalidSession { resumable } => if resumable {
                spec_recover(s)
            } else {
                spec_fail(s, FatalError::SessionInvalidated)
            },
        },
        SessionPhase::Resuming => match f {
            InboundFrame::Hello { heartbeat_interval } => (
                GatewaySession {
                    heartbeat: Some(
                        HeartbeatState {
                            interval_ms: heartbeat_interval,
                            next_tick_ms: crate::heartbeat::sat_add(now_ms, heartbeat_interval),
                            last_send_ms: now_ms,
                            acked: true,
                        },
                    ),
                    ..s
                },
                seq![
                    GatewayAction::StartHeartbeat { interval_ms: heartbeat_interval },
                    GatewayAction::SendResume {
                        session_id: s.session_id->0,
                        sequence: s.last_sequence->0,
                    },
                ],
            ),
            InboundFrame::Dispatch { sequence, event } => (
                GatewaySession {
                    phase: if event is Resumed {
                        SessionPhase::Active
                    } else {
                        SessionPhase::Resuming
                    },
                    last_sequence: Some(sequence),
                    ..s
                },
                spec_deliver_actions(event),
            ),
            InboundFrame::HeartbeatAck => (spec_ack(s), Seq::<GatewayAction>::empty()),
            InboundFrame::HeartbeatRequest => spec_heartbeat_reply(s, now_ms),
            InboundFrame::Reconnect => (s, seq![GatewayAction::ReconnectTransport { resume: true }]),
            InboundFrame::InvalidSession { .. } => (
                GatewaySession {
                    phase: SessionPhase::Identifying,
                    session_id: None,
                    last_sequence: None,
                    ..s
                },
                seq![GatewayAction::SendIdentify { token: s.token, intents: s.intents }],
            ),
        },
    }
}

/// The transition relation for one timer tick: nothing while no schedule
/// runs or no tick is due; a due tick with the last ping acknowledged
/// sends the next ping; a due tick with the ping still in flight is a
/// liveness failure and recovers, resume preferred.
pub open spec fn spec_step_tick(s: GatewaySession, now_ms: u64) -> (
    GatewaySession,
    Seq<GatewayAction>,
) {
    match s.heartbeat {
        None => (s, Seq::<GatewayAction>::empty()),
        Some(hb) => if !hb.spec_due(now_ms) {
            (s, Seq::<GatewayAction>::empty())
        } else if hb.acked {
            spec_heartbeat_reply(s, now_ms)
        } else {
            spec_recover(s)
        },
    }
}

/// The transition relation for a transport drop: recovery, unless the
/// session is already closed or failed.
pub open spec fn spec_step_drop(s: GatewaySession) -> (GatewaySession, Seq<GatewayAction>) {
    if s.phase == SessionPhase::Closed || s.phase == SessionPhase::Failed {
        (s, Seq::<GatewayAction>::empty())
    } else {
        spec_recover(s)
    }
}

/// The transition relation for a successful connect.
pub open spec fn spec_step_connected(s: GatewaySession) -> GatewaySession {
    if s.phase == SessionPhase::Connecting {
        GatewaySession { phase: SessionPhase::AwaitingHello, ..s }
    } else {
        s
    }
}

/// The transition relation for a caller-requested shutdown: the
/// heartbeat loop stops first, then the transport closes, and no later
/// input moves the session again.
pub open spec fn spec_step_close(s: GatewaySession) -> (GatewaySession, Seq<GatewayAction>) {
    (
        GatewaySession { phase: SessionPhase::Closed, heartbeat: None, ..s },
        seq![GatewayAction::StopHeartbeat, GatewayAction::CloseTransport],
    )
}

/// Builds the action list for one decoded event.
fn deliver_actions(event: DispatchPayload) -> (acts: Vec<GatewayAction>)
    ensures
        acts@ =~= spec_deliver_actions(event),
{
    match event {
        DispatchPayload::Unknown { .. } => Vec::new(),
        DispatchPayload::Malformed { event_name } => {
            let mut acts: Vec<GatewayAction> = Vec::new();
            acts.push(GatewayAction::ReportDecodeError { event_name });
            acts
        },
        other => {
            let mut acts: Vec<GatewayAction> = Vec::new();
            acts.push(GatewayAction::DeliverEvent(other));
            acts
        },
    }
}

impl GatewaySession {
    /// Records a heartbeat acknowledgement.
    fn record_ack(&mut self)
        ensures
            *final(self) == spec_ack(*old(self)),
    {
        match &mut self.heartbeat {
            Some(hb) => hb.acknowledge(),
            None => {},
        }
    }

    /// Sends a liveness ping and books the next tick.
    fn heartbeat_reply(&mut self, now_ms: u64) -> (acts: Vec<GatewayAction>)
        ensures
            *final(self) == spec_heartbeat_reply(*old(self), now_ms).0,
            acts@ =~= spec_heartbeat_reply(*old(self), now_ms).1,
    {
        match &mut self.heartbeat {
            Some(hb) => hb.mark_sent(now_ms),
            None => {},
        }
        let mut acts: Vec<GatewayAction> = Vec::new();
        acts.push(GatewayAction::SendHeartbeat { sequence: self.last_sequence });
        acts
    }

    /// Recovers from a lost transport or liveness failure: resume
    /// preferred, failure otherwise; either way the schedule stops.
    fn recover(&mut self) -> (acts: Vec<GatewayAction>)
        ensures
            *final(self) == spec_recover(*old(self)).0,
            acts@ =~= spec_recover(*old(self)).1,
            final(self).wf(),
    {
        self.heartbeat = None;
        let mut acts: Vec<GatewayAction> = Vec::new();
        if self.session_id.is_some() && self.last_sequence.is_some() {
            self.phase = SessionPhase::Resuming;
            acts.push(GatewayAction::ReconnectTransport { resume: true });
        } else {
            self.phase = SessionPhase::Failed;
            acts.push(GatewayAction::ReportFatal { error: FatalError::ConnectionLost });
            acts.push(GatewayAction::CloseTransport);
        }
        acts
    }

    /// Fails the session on a protocol violation or a fatal signal.
    fn fail(&mut self, error: FatalError) -> (acts: Vec<GatewayAction>)
        ensures
            *final(self) == spec_fail(*old(self), error).0,
            acts@ =~= spec_fail(*old(self), error).1,
            final(self).wf(),
    {
        self.phase = SessionPhase::Failed;
        self.heartbeat = None;
        let mut acts: Vec<GatewayAction> = Vec::new();
        acts.push(GatewayAction::ReportFatal { error });
        acts.push(GatewayAction::CloseTransport);
        acts
    }

    /// Processes one inbound frame: exactly one step of
    /// [`spec_step_frame`].
    pub fn handle_frame(&mut self, f: InboundFrame, now_ms: u64) -> (acts: Vec<GatewayAction>)
        requires
            old(self).wf(),
        ensures
            final(self).wf(),
            *final(self) == spec_step_frame(*old(self), f, now_ms).0,
            acts@ =~= spec_step_frame(*old(self), f, now_ms).1,
    {
        match self.phase {
            SessionPhase::Closed | SessionPhase::Failed | SessionPhase::Connecting => Vec::new(),
            SessionPhase::AwaitingHello => match f {
                InboundFrame::Hello { heartbeat_interval } => {
                    self.phase = SessionPhase::Identifying;
                    self.heartbeat = Some(HeartbeatState::start(heartbeat_interval, now_ms));
                    let mut acts: Vec<GatewayAction> = Vec::new();
                    acts.push(GatewayAction::StartHeartbeat { interval_ms: heartbeat_interval });
                    acts.push(
                        GatewayAction::SendIdentify {
                            token: self.token.clone(),
                            intents: self.intents,
                        },
                    );
                    acts
                },
                _ => self.fail(FatalError::ProtocolViolation),
            },
            SessionPhase::Identifying => match f {
                InboundFrame::Dispatch { sequence, event } => {
                    self.last_sequence = Some(sequence);
                    match event {
                        DispatchPayload::Ready { session_id } => {
                            self.phase = SessionPhase::Ready;
                            self.session_id = Some(session_id.clone());
                            let mut acts: Vec<GatewayAction> = Vec::new();
                            acts.push(
                                GatewayAction::DeliverEvent(
                                    DispatchPayload::Ready { session_id },
                                ),
                            );
                            acts
                        },
                        other => deliver_actions(other),
                    }
                },
                InboundFrame::HeartbeatAck => {
                    self.record_ack();
                    Vec::new()
                },
                InboundFrame::HeartbeatRequest => self.heartbeat_reply(now_ms),
                InboundFrame::Hello { .. } => Vec::new(),
                InboundFrame::Reconnect => self.recover(),
                InboundFrame::InvalidSession { .. } => self.fail(
                    FatalError::AuthenticationFailed,
                ),
            },
            SessionPhase::Ready | SessionPhase::Active => match f {
                InboundFrame::Dispatch { sequence, event } => {
                    self.phase = SessionPhase::Active;
                    self.last_sequence = Some(sequence);
                    deliver_actions(event)
                },
                InboundFrame::HeartbeatAck => {
                    self.record_ack();
                    Vec::new()
                },
                InboundFrame::HeartbeatRequest => self.heartbeat_reply(now_ms),
                InboundFrame::Hello { .. } => Vec::new(),
                InboundFrame::Reconnect => self.recover(),
                InboundFrame::InvalidSession { resumable } => {
                    if resumable {
                        self.recover()
                    } else {
                        self.fail(FatalError::SessionInvalidated)
                    }
                },
            },
            SessionPhase::Resuming => match f {
                InboundFrame::Hello { heartbeat_interval } => {
                    self.heartbeat = Some(HeartbeatState::start(heartbeat_interval, now_ms));
                    let session_id = self.session_id.as_ref().unwrap().clone();
                    let sequence = self.last_sequence.unwrap();
                    let mut acts: Vec<GatewayAction> = Vec::new();
                    acts.push(GatewayAction::StartHeartbeat { interval_ms: heartbeat_interval });
                    acts.push(GatewayAction::SendResume { session_id, sequence });
                    acts
                },
                InboundFrame::Dispatch { sequence, event } => {
                    if matches!(event, DispatchPayload::Resumed) {
                        self.phase = SessionPhase::Active;
                    }
                    self.last_sequence = Some(sequence);
                    deliver_actions(event)
                },
                InboundFrame::HeartbeatAck => {
                    self.record_ack();
                    Vec::new()
                },
                InboundFrame::HeartbeatRequest => self.heartbeat_reply(now_ms),
                InboundFrame::Reconnect => {
                    let mut acts: Vec<GatewayAction> = Vec::new();
                    acts.push(GatewayAction::ReconnectTransport { resume: true });
                    acts
                },
                InboundFrame::InvalidSession { .. } => {
                    self.phase = SessionPhase::Identifying;
                    self.session_id = None;
                    self.last_sequence = None;
                    let mut acts: Vec<GatewayAction> = Vec::new();
                    acts.push(
                        GatewayAction::SendIdentify {
                            token: self.token.clone(),
                            intents: self.intents,
                        },
                    );
                    acts
                },
            },
        }
    }

    /// Processes one timer tick: exactly one step of [`spec_step_tick`].
    pub fn on_tick(&mut self, now_ms: u64) -> (acts: Vec<GatewayAction>)
        requires
            old(self).wf(),
        ensures
            final(self).wf(),
            *final(self) == spec_step_tick(*old(self), now_ms).0,
            acts@ =~= spec_step_tick(*old(self), now_ms).1,
    {
        let (due, acked) = match &self.heartbeat {
            None => {
                return Vec::new();
            },
            Some(hb) => (hb.due(now_ms), hb.acked),
        };
        if !due {
            Vec::new()
        } else if acked {
            self.heartbeat_reply(now_ms)
        } else {
            self.recover()
        }
    }

    /// Reacts to the transport reporting a lost connection: exactly one
    /// step of [`spec_step_drop`].
    pub fn on_transport_drop(&mut self) -> (acts: Vec<GatewayAction>)
        requires
            old(self).wf(),
        ensures
            final(self).wf(),
            *final(self) == spec_step_drop(*old(self)).0,
            acts@ =~= spec_step_drop(*old(self)).1,
    {
        match self.phase {
            SessionPhase::Closed | SessionPhase::Failed => Vec::new(),
            _ => self.recover(),
        }
    }

    /// Reacts to the transport reporting a successful connect.
    pub fn on_connected(&mut self)
        requires
            old(self).wf(),
        ensures
            final(self).wf(),
            *final(self) == spec_step_connected(*old(self)),
    {
        if matches!(self.phase, SessionPhase::Connecting) {
            self.phase = SessionPhase::AwaitingHello;
        }
    }

    /// Shuts the session down at the caller's request. The actions come
    /// in the order the shutdown must happen: stop the heartbeat loop,
    /// then close the transport; the phase is `Closed` before either, so
    /// no late frame can be processed.
    pub fn close(&mut self) -> (acts: Vec<GatewayAction>)
        requires
            old(self).wf(),
        ensures
            final(self).wf(),
            *final(self) == spec_step_close(*old(self)).0,
            acts@ =~= spec_step_close(*old(self)).1,
    {
        self.phase = SessionPhase::Closed;
        self.heartbeat = None;
        let mut acts: Vec<GatewayAction> = Vec::new();
        acts.push(GatewayAction::StopHeartbeat);
        acts.push(GatewayAction::CloseTransport);
        acts
    }
}

/// The session after a whole run of inbound frames, in arrival order.
pub open spec fn spec_run_frames(
    s: GatewaySession,
    frames: Seq<InboundFrame>,
    now_ms: u64,
) -> GatewaySession
    decreases frames.len(),
{
    if frames.len() == 0 {
        s
    } else {
        spec_run_frames(spec_step_frame(s, frames[0], now_ms).0, frames.drop_first(), now_ms)
    }
}

/// Running one more frame after a run is the run followed by one step.
pub proof fn lemma_run_frames_snoc(
    s: GatewaySession,
    frames: Seq<InboundFrame>,
    f: InboundFrame,
    now_ms: u64,
)
    ensures
        spec_run_frames(s, frames.push(f), now_ms) == spec_step_frame(
            spec_run_frames(s, frames, now_ms),
            f,
            now_ms,
        ).0,
    decreases frames.len(),
{
    if frames.len() == 0 {
        assert(frames.push(f)[0] == f);
        assert(frames.push(f).drop_first() =~= Seq::<InboundFrame>::empty());
        assert(spec_run_frames(spec_step_frame(s, f, now_ms).0, Seq::<InboundFrame>::empty(), now_ms)
            == spec_step_frame(s, f, now_ms).0);
    } else {
        assert(frames.push(f)[0] == frames[0]);
        assert(frames.push(f).drop_first() =~= frames.drop_first().push(f));
        lemma_run_frames_snoc(spec_step_frame(s, frames[0], now_ms).0, frames.drop_first(), f, now_ms);
    }
}

/// Sequence bookkeeping, for every run of dispatch frames received in
/// order: after processing the `i`-th frame, the session's last sequence
/// is exactly the sequence that frame carried, and the session is
/// active.
pub proof fn lemma_last_sequence_tracks(
    s: GatewaySession,
    frames: Seq<InboundFrame>,
    now_ms: u64,
    i: int,
)
    requires
        s.phase == SessionPhase::Ready || s.phase == SessionPhase::Active,
        forall|j: int| 0 <= j < frames.len() ==> frames[j] is Dispatch,
        0 <= i < frames.len(),
    ensures
        spec_run_frames(s, frames.take(i + 1), now_ms).phase == SessionPhase::Active,
        spec_run_frames(s, frames.take(i + 1), now_ms).last_sequence == Some(
            frames[i]->Dispatch_sequence,
        ),
    decreases i,
{
    if i == 0 {
        assert(frames.take(1)[0] == frames[0]);
        assert(frames.take(1).drop_first() =~= Seq::<InboundFrame>::empty());
        assert(spec_run_frames(
            spec_step_frame(s, frames[0], now_ms).0,
            Seq::<InboundFrame>::empty(),
            now_ms,
        ) == spec_step_frame(s, frames[0], now_ms).0);
    } else {
        lemma_last_sequence_tracks(s, frames, now_ms, i - 1);
        lemma_run_frames_snoc(s, frames.take(i), frames[i], now_ms);
        assert(frames.take(i + 1) =~= frames.take(i).push(frames[i]));
    }
}

/// A missed acknowledgement moves the session out of ready or active
/// exactly once: the due tick that finds the ping in flight yields one
/// reconnect signal, and the tick after it yields nothing at all.
pub proof fn lemma_missed_ack_transitions_once(s: GatewaySession, now1: u64, now2: u64)
    requires
        s.phase == SessionPhase::Ready || s.phase == SessionPhase::Active,
        s.heartbeat is Some,
        s.heartbeat->0.spec_due(now1),
        !s.heartbeat->0.acked,
        s.session_id is Some,
        s.last_sequence is Some,
    ensures
        spec_step_tick(s, now1).0.phase == SessionPhase::Resuming,
        spec_step_tick(s, now1).1 =~= seq![GatewayAction::ReconnectTransport { resume: true }],
        spec_step_tick(spec_step_tick(s, now1).0, now2).0 == spec_step_tick(s, now1).0,
        spec_step_tick(spec_step_tick(s, now1).0, now2).1 =~= Seq::<GatewayAction>::empty(),
{
}

/// Resume, never identify: a transport drop while a session id and a
/// sequence are held recovers by resuming, and the fresh socket's hello
/// prompts exactly a heartbeat start and a resume frame carrying that
/// very id and sequence.
pub proof fn lemma_drop_resumes_with_prior_session(
    s: GatewaySession,
    sid: String,
    n: u64,
    interval: u64,
    now_ms: u64,
)
    requires
        s.phase == SessionPhase::Active,
        s.session_id == Some(sid),
        s.last_sequence == Some(n),
    ensures
        spec_step_drop(s).0.phase == SessionPhase::Resuming,
        spec_step_drop(s).1 =~= seq![GatewayAction::ReconnectTransport { resume: true }],
        spec_step_frame(
            spec_step_drop(s).0,
            InboundFrame::Hello { heartbeat_interval: interval },
            now_ms,
        ).1 =~= seq![
            GatewayAction::StartHeartbeat { interval_ms: interval },
            GatewayAction::SendResume { session_id: sid, sequence: n },
        ],
{
}

/// An unknown event name is no failure: the frame still advances the
/// sequence, the session stays active, and nothing else happens.
pub proof fn lemma_unknown_event_keeps_session(
    s: GatewaySession,
    sequence: u64,
    event_name: String,
    now_ms: u64,
)
    requires
        s.phase == SessionPhase::Ready || s.phase == SessionPhase::Active,
    ensures
        ({
            let r = spec_step_frame(
                s,
                InboundFrame::Dispatch { sequence, event: DispatchPayload::Unknown { event_name } },
                now_ms,
            );
            &&& r.0 == (GatewaySession {
                phase: SessionPhase::Active,
                last_sequence: Some(sequence),
                ..s
            })
            &&& r.0.phase != SessionPhase::Closed
            &&& r.0.phase != SessionPhase::Failed
            &&& r.1 =~= Seq::<GatewayAction>::empty()
        }),
{
}

} // verus!
