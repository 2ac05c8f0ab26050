use chorus::codec::{
    build_identify_payload, classify_header, EnvelopeError, FrameClass, FrameHeader, Opcode,
    OutboundFrame,
};

#[test]
fn opcode_values_round_trip() {
    let all = [
        Opcode::Dispatch,
        Opcode::Heartbeat,
        Opcode::Identify,
        Opcode::PresenceUpdate,
        Opcode::VoiceStateUpdate,
        Opcode::Resume,
        Opcode::Reconnect,
        Opcode::InvalidSession,
        Opcode::Hello,
        Opcode::HeartbeatAck,
    ];
    for op in all {
        assert_eq!(Opcode::from_value(op.value()), Some(op));
    }
    assert_eq!(Opcode::Dispatch.value(), 0);
    assert_eq!(Opcode::Hello.value(), 10);
    assert_eq!(Opcode::HeartbeatAck.value(), 11);
    assert_eq!(Opcode::from_value(5), None);
    assert_eq!(Opcode::from_value(8), None);
    assert_eq!(Opcode::from_value(12), None);
}

#[test]
fn dispatch_header_needs_sequence_and_name() {
    let ok = classify_header(FrameHeader {
        opcode: 0,
        sequence: Some(7),
        event_name: Some("GUILD_CREATE".to_string()),
    });
    assert_eq!(
        ok,
        Ok(FrameClass::Dispatch { sequence: 7, event_name: "GUILD_CREATE".to_string() })
    );

    let missing_seq = classify_header(FrameHeader {
        opcode: 0,
        sequence: None,
        event_name: Some("GUILD_CREATE".to_string()),
    });
    assert_eq!(missing_seq, Err(EnvelopeError::MissingSequence));

    let missing_name =
        classify_header(FrameHeader { opcode: 0, sequence: Some(7), event_name: None });
    assert_eq!(missing_name, Err(EnvelopeError::MissingEventName));
}

#[test]
fn non_dispatch_headers_classify_by_opcode() {
    let hello = classify_header(FrameHeader { opcode: 10, sequence: None, event_name: None });
    assert_eq!(hello, Ok(FrameClass::Hello));
    let ack = classify_header(FrameHeader { opcode: 11, sequence: None, event_name: None });
    assert_eq!(ack, Ok(FrameClass::HeartbeatAck));
    let reconnect = classify_header(FrameHeader { opcode: 7, sequence: None, event_name: None });
    assert_eq!(reconnect, Ok(FrameClass::Reconnect));
    let invalid = classify_header(FrameHeader { opcode: 9, sequence: None, event_name: None });
    assert_eq!(invalid, Ok(FrameClass::InvalidSession));
    let heartbeat = classify_header(FrameHeader { opcode: 1, sequence: None, event_name: None });
    assert_eq!(heartbeat, Ok(FrameClass::HeartbeatRequest));
}

#[test]
fn unknown_and_client_only_opcodes_are_rejected() {
    let unknown = classify_header(FrameHeader { opcode: 42, sequence: None, event_name: None });
    assert_eq!(unknown, Err(EnvelopeError::UnknownOpcode { opcode: 42 }));
    let identify = classify_header(FrameHeader { opcode: 2, sequence: None, event_name: None });
    assert_eq!(identify, Err(EnvelopeError::ClientOnlyOpcode { opcode: 2 }));
    let resume = classify_header(FrameHeader { opcode: 6, sequence: None, event_name: None });
    assert_eq!(resume, Err(EnvelopeError::ClientOnlyOpcode { opcode: 6 }));
}

#[test]
fn identify_payload_carries_no_host_telemetry() {
    let p = build_identify_payload("SECRET-REDACTED".to_string(), 513);
    assert_eq!(p.token, "SECRET-REDACTED");
    assert_eq!(p.intents, 513);
    assert_eq!(p.properties.os, "other");
    assert_eq!(p.properties.browser, "chorus");
    assert_eq!(p.properties.device, "chorus");
}

#[test]
fn outbound_frames_travel_under_their_opcode() {
    assert_eq!(OutboundFrame::Heartbeat { sequence: Some(3) }.opcode(), Opcode::Heartbeat);
    assert_eq!(
        OutboundFrame::Resume { session_id: "s".to_string(), sequence: 3 }.opcode(),
        Opcode::Resume
    );
    let p = build_identify_payload("t".to_string(), 0);
    assert_eq!(OutboundFrame::Identify(p).opcode(), Opcode::Identify);
    let presence = chorus::events::UpdatePresence {
        since: None,
        status: chorus::entities::UserStatus::default(),
        activities: vec![],
        afk: false,
    };
    assert_eq!(OutboundFrame::PresenceUpdate(presence).opcode(), Opcode::PresenceUpdate);
}
