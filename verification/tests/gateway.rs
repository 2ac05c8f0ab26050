use chorus::session::{
    DispatchPayload, FatalError, GatewayAction, GatewaySession, InboundFrame, SessionPhase,
};

fn fresh_session() -> GatewaySession {
    let mut s = GatewaySession::new("SECRET-REDACTED".to_string(), 513);
    assert_eq!(s.phase, SessionPhase::Connecting);
    s.on_connected();
    assert_eq!(s.phase, SessionPhase::AwaitingHello);
    s
}

fn active_session(session_id: &str, sequence: u64) -> GatewaySession {
    GatewaySession {
        phase: SessionPhase::Active,
        last_sequence: Some(sequence),
        session_id: Some(session_id.to_string()),
        heartbeat: None,
        token: "SECRET-REDACTED".to_string(),
        intents: 0,
    }
}

#[test]
fn hello_starts_heartbeat_and_identifies() {
    let mut s = fresh_session();
    let acts = s.handle_frame(InboundFrame::Hello { heartbeat_interval: 41250 }, 0);
    assert_eq!(s.phase, SessionPhase::Identifying);
    assert_eq!(acts.len(), 2);
    assert_eq!(acts[0], GatewayAction::StartHeartbeat { interval_ms: 41250 });
    assert_eq!(
        acts[1],
        GatewayAction::SendIdentify { token: "SECRET-REDACTED".to_string(), intents: 513 }
    );
    let hb = s.heartbeat.unwrap();
    assert_eq!(hb.interval_ms, 41250);
    assert_eq!(hb.next_tick_ms, 41250);
    assert!(hb.acked);
}

#[test]
fn any_first_frame_but_hello_fails_the_session() {
    let mut s = fresh_session();
    let acts = s.handle_frame(InboundFrame::HeartbeatAck, 0);
    assert_eq!(s.phase, SessionPhase::Failed);
    assert_eq!(
        acts,
        vec![
            GatewayAction::ReportFatal { error: FatalError::ProtocolViolation },
            GatewayAction::CloseTransport,
        ]
    );
}

#[test]
fn ready_event_establishes_the_session() {
    let mut s = fresh_session();
    s.handle_frame(InboundFrame::Hello { heartbeat_interval: 1000 }, 0);
    let acts = s.handle_frame(
        InboundFrame::Dispatch {
            sequence: 1,
            event: DispatchPayload::Ready { session_id: "S1".to_string() },
        },
        10,
    );
    assert_eq!(s.phase, SessionPhase::Ready);
    assert_eq!(s.last_sequence, Some(1));
    assert_eq!(s.session_id, Some("S1".to_string()));
    assert_eq!(
        acts,
        vec![GatewayAction::DeliverEvent(DispatchPayload::Ready { session_id: "S1".to_string() })]
    );
}

#[test]
fn last_sequence_tracks_each_dispatch_in_order() {
    let mut s = active_session("S1", 0);
    for seq in [3u64, 4, 9, 10, 11] {
        s.handle_frame(
            InboundFrame::Dispatch { sequence: seq, event: DispatchPayload::Resumed },
            0,
        );
        assert_eq!(s.last_sequence, Some(seq));
        assert_eq!(s.phase, SessionPhase::Active);
    }
}

#[test]
fn resume_after_drop_carries_prior_session_and_sequence() {
    let mut s = active_session("S1", 42);
    let acts = s.on_transport_drop();
    assert_eq!(s.phase, SessionPhase::Resuming);
    assert_eq!(acts, vec![GatewayAction::ReconnectTransport { resume: true }]);

    // The fresh socket greets with hello; the session answers with a
    // resume frame carrying (S1, 42) — and with no identify frame.
    let acts = s.handle_frame(InboundFrame::Hello { heartbeat_interval: 1000 }, 500);
    assert_eq!(
        acts,
        vec![
            GatewayAction::StartHeartbeat { interval_ms: 1000 },
            GatewayAction::SendResume { session_id: "S1".to_string(), sequence: 42 },
        ]
    );
    assert_eq!(s.phase, SessionPhase::Resuming);
}

#[test]
fn drop_without_resume_context_fails() {
    let mut s = fresh_session();
    let acts = s.on_transport_drop();
    assert_eq!(s.phase, SessionPhase::Failed);
    assert_eq!(
        acts,
        vec![
            GatewayAction::ReportFatal { error: FatalError::ConnectionLost },
            GatewayAction::CloseTransport,
        ]
    );
}

#[test]
fn replayed_dispatches_advance_sequence_until_resume_completes() {
    let mut s = active_session("S1", 42);
    s.on_transport_drop();
    s.handle_frame(InboundFrame::Hello { heartbeat_interval: 1000 }, 0);
    s.handle_frame(
        InboundFrame::Dispatch { sequence: 43, event: DispatchPayload::Unknown {
            event_name: "REPLAYED".to_string(),
        } },
        1,
    );
    assert_eq!(s.phase, SessionPhase::Resuming);
    assert_eq!(s.last_sequence, Some(43));
    let acts = s.handle_frame(
        InboundFrame::Dispatch { sequence: 44, event: DispatchPayload::Resumed },
        2,
    );
    assert_eq!(s.phase, SessionPhase::Active);
    assert_eq!(s.last_sequence, Some(44));
    assert_eq!(acts, vec![GatewayAction::DeliverEvent(DispatchPayload::Resumed)]);
}

#[test]
fn rejected_resume_falls_back_to_identify() {
    let mut s = active_session("S1", 42);
    s.on_transport_drop();
    let acts = s.handle_frame(InboundFrame::InvalidSession { resumable: false }, 0);
    assert_eq!(s.phase, SessionPhase::Identifying);
    assert_eq!(s.session_id, None);
    assert_eq!(s.last_sequence, None);
    assert_eq!(
        acts,
        vec![GatewayAction::SendIdentify { token: "SECRET-REDACTED".to_string(), intents: 0 }]
    );
}

#[test]
fn invalid_session_while_identifying_is_fatal() {
    let mut s = fresh_session();
    s.handle_frame(InboundFrame::Hello { heartbeat_interval: 1000 }, 0);
    let acts = s.handle_frame(InboundFrame::InvalidSession { resumable: false }, 1);
    assert_eq!(s.phase, SessionPhase::Failed);
    // The authentication failure is reported apart from a mere lost
    // connection.
    assert_eq!(
        acts,
        vec![
            GatewayAction::ReportFatal { error: FatalError::AuthenticationFailed },
            GatewayAction::CloseTransport,
        ]
    );
}

#[test]
fn unknown_event_name_does_not_terminate_the_session() {
    let mut s = active_session("S1", 6);
    let acts = s.handle_frame(
        InboundFrame::Dispatch {
            sequence: 7,
            event: DispatchPayload::Unknown { event_name: "FUTURE_EVENT_X".to_string() },
        },
        0,
    );
    assert_eq!(s.phase, SessionPhase::Active);
    assert_eq!(s.last_sequence, Some(7));
    assert!(acts.is_empty());
    // The session goes on processing frames as if nothing happened.
    s.handle_frame(
        InboundFrame::Dispatch { sequence: 8, event: DispatchPayload::Resumed },
        1,
    );
    assert_eq!(s.last_sequence, Some(8));
    assert_eq!(s.phase, SessionPhase::Active);
}

#[test]
fn malformed_known_event_is_reported_not_fatal() {
    let mut s = active_session("S1", 1);
    let acts = s.handle_frame(
        InboundFrame::Dispatch {
            sequence: 2,
            event: DispatchPayload::Malformed { event_name: "GUILD_CREATE".to_string() },
        },
        0,
    );
    assert_eq!(s.phase, SessionPhase::Active);
    assert_eq!(
        acts,
        vec![GatewayAction::ReportDecodeError { event_name: "GUILD_CREATE".to_string() }]
    );
}

#[test]
fn heartbeats_keep_their_spacing_and_a_missed_ack_resumes() {
    // The hello declares 41250 ms. Two heartbeats go out at exactly that
    // spacing, each promptly acknowledged, and the session stays active;
    // withholding the third acknowledgement drives it to resuming.
    let interval = 41250u64;
    let mut s = fresh_session();
    s.handle_frame(InboundFrame::Hello { heartbeat_interval: interval }, 0);
    s.handle_frame(
        InboundFrame::Dispatch {
            sequence: 1,
            event: DispatchPayload::Ready { session_id: "S1".to_string() },
        },
        5,
    );
    s.handle_frame(
        InboundFrame::Dispatch { sequence: 2, event: DispatchPayload::Resumed },
        6,
    );
    assert_eq!(s.phase, SessionPhase::Active);

    // Nothing is owed before the first tick.
    assert!(s.on_tick(interval - 1).is_empty());

    // First heartbeat, on time.
    let acts = s.on_tick(interval);
    assert_eq!(acts, vec![GatewayAction::SendHeartbeat { sequence: Some(2) }]);
    assert_eq!(s.heartbeat.unwrap().next_tick_ms, 2 * interval);
    s.handle_frame(InboundFrame::HeartbeatAck, interval + 10);
    assert_eq!(s.phase, SessionPhase::Active);

    // Second heartbeat, one interval later even though the ack came late
    // in the window: the schedule does not drift.
    let acts = s.on_tick(2 * interval);
    assert_eq!(acts, vec![GatewayAction::SendHeartbeat { sequence: Some(2) }]);
    assert_eq!(s.heartbeat.unwrap().next_tick_ms, 3 * interval);
    s.handle_frame(InboundFrame::HeartbeatAck, 2 * interval + 10);
    assert_eq!(s.phase, SessionPhase::Active);

    // Third heartbeat goes out, but its ack is withheld.
    let acts = s.on_tick(3 * interval);
    assert_eq!(acts, vec![GatewayAction::SendHeartbeat { sequence: Some(2) }]);

    // The next tick finds the ping still in flight: liveness failure,
    // and the session prefers resuming over a cold reconnect.
    let acts = s.on_tick(4 * interval);
    assert_eq!(s.phase, SessionPhase::Resuming);
    assert_eq!(acts, vec![GatewayAction::ReconnectTransport { resume: true }]);

    // Exactly once: the schedule is stopped, later ticks signal nothing.
    assert!(s.on_tick(5 * interval).is_empty());
    assert_eq!(s.phase, SessionPhase::Resuming);
}

#[test]
fn server_demanded_heartbeat_is_sent_at_once() {
    let mut s = active_session("S1", 9);
    let acts = s.handle_frame(InboundFrame::HeartbeatRequest, 100);
    assert_eq!(acts, vec![GatewayAction::SendHeartbeat { sequence: Some(9) }]);
}

#[test]
fn reconnect_request_prefers_resume() {
    let mut s = active_session("S1", 3);
    let acts = s.handle_frame(InboundFrame::Reconnect, 0);
    assert_eq!(s.phase, SessionPhase::Resuming);
    assert_eq!(acts, vec![GatewayAction::ReconnectTransport { resume: true }]);
}

#[test]
fn close_stops_heartbeat_then_transport_and_ignores_late_frames() {
    let mut s = active_session("S1", 3);
    let acts = s.close();
    assert_eq!(s.phase, SessionPhase::Closed);
    assert_eq!(s.heartbeat, None);
    assert_eq!(acts, vec![GatewayAction::StopHeartbeat, GatewayAction::CloseTransport]);

    // No late frame is processed after shutdown.
    let late = s.handle_frame(
        InboundFrame::Dispatch { sequence: 99, event: DispatchPayload::Resumed },
        0,
    );
    assert!(late.is_empty());
    assert_eq!(s.last_sequence, Some(3));
    assert_eq!(s.phase, SessionPhase::Closed);
    assert!(s.on_tick(1_000_000).is_empty());
}
