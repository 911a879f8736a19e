use rl_bc_uploader::events::{
    DecodeError, Envelope, EventError, EventKind, MatchEndedData, MatchGuidData, Payload,
    PayloadKind, RLEvent,
};

fn envelope(event: &str, data: &str) -> Envelope {
    Envelope { event: event.to_string(), data: data.to_string() }
}

fn guid_decoder(k: PayloadKind, d: &String) -> Result<Payload, DecodeError> {
    match k {
        PayloadKind::MatchGuid => Ok(Payload::MatchGuid(MatchGuidData { match_guid: d.clone() })),
        PayloadKind::MatchEnded => Ok(Payload::MatchEnded(MatchEndedData {
            match_guid: d.clone(),
            winner_team_num: 1,
        })),
        _ => Err(DecodeError { message: format!("no decoder for {:?}", k) }),
    }
}

#[test]
fn every_sent_name_is_recognised() {
    let names = [
        "UpdateState", "BallHit", "CrossbarHit", "GoalScored", "MatchEnded",
        "ClockUpdatedSeconds", "StatfeedEvent", "MatchCreated", "MatchInitialized",
        "MatchDestroyed", "MatchPaused", "MatchUnpaused", "CountdownBegin", "RoundStarted",
        "GoalReplayStart", "ReplayWillEnd", "GoalReplayEnd", "PodiumStart", "ReplayCreated",
    ];
    let mut seen = Vec::new();
    for n in names {
        let k = EventKind::from_name(n);
        assert_ne!(k, EventKind::Unknown, "{n}");
        assert_eq!(k.name(), n);
        assert!(!seen.contains(&k));
        seen.push(k);
    }
}

#[test]
fn documented_replay_will_end_name_is_unknown() {
    assert_eq!(EventKind::from_name("GoalReplayWillEnd"), EventKind::Unknown);
    assert_eq!(EventKind::from_name("ReplayWillEnd"), EventKind::ReplayWillEnd);
    assert_eq!(EventKind::from_name("matchended"), EventKind::Unknown);
    assert_eq!(EventKind::from_name(""), EventKind::Unknown);
}

#[test]
fn payload_kinds_of_events() {
    assert_eq!(EventKind::UpdateState.payload(), None);
    assert_eq!(EventKind::Unknown.payload(), None);
    assert_eq!(EventKind::BallHit.payload(), Some(PayloadKind::BallHit));
    assert_eq!(EventKind::ClockUpdatedSeconds.payload(), Some(PayloadKind::ClockUpdatedSeconds));
    assert_eq!(EventKind::ReplayCreated.payload(), Some(PayloadKind::MatchGuid));
    assert_eq!(EventKind::PodiumStart.payload(), Some(PayloadKind::MatchGuid));
}

#[test]
fn update_state_ignores_its_data() {
    let r = RLEvent::from_envelope(envelope("UpdateState", "not json at all"), |_k: PayloadKind, _d: &String| {
        panic!("the data of UpdateState is not read")
    });
    assert!(matches!(r, Ok(RLEvent::UpdateState)));
}

#[test]
fn unknown_event_keeps_its_name() {
    let r = RLEvent::from_envelope(envelope("SomethingNew", "{}"), guid_decoder);
    match r {
        Ok(RLEvent::Unknown { event }) => assert_eq!(event, "SomethingNew"),
        other => panic!("unexpected {:?}", other),
    }
}

#[test]
fn guid_event_is_built_from_decoded_data() {
    let r = RLEvent::from_envelope(envelope("PodiumStart", "G1"), guid_decoder);
    match r {
        Ok(RLEvent::PodiumStart(d)) => assert_eq!(d.match_guid, "G1"),
        other => panic!("unexpected {:?}", other),
    }
    let r = RLEvent::from_envelope(envelope("MatchEnded", "G2"), guid_decoder);
    match r {
        Ok(RLEvent::MatchEnded(d)) => {
            assert_eq!(d.match_guid, "G2");
            assert_eq!(d.winner_team_num, 1);
        }
        other => panic!("unexpected {:?}", other),
    }
}

#[test]
fn decoder_error_is_passed_on() {
    let r = RLEvent::from_envelope(envelope("BallHit", "{"), guid_decoder);
    match r {
        Err(EventError::Decode(e)) => assert!(e.message.contains("BallHit")),
        other => panic!("unexpected {:?}", other),
    }
}

#[test]
fn payload_of_another_kind_is_refused() {
    let r = RLEvent::from_envelope(envelope("MatchCreated", "x"), |_k: PayloadKind, d: &String| {
        Ok(Payload::MatchEnded(MatchEndedData { match_guid: d.clone(), winner_team_num: 0 }))
    });
    assert!(matches!(r, Err(EventError::WrongPayload { expected: PayloadKind::MatchGuid })));
}

#[test]
fn event_kind_of_built_event() {
    let e = RLEvent::with_payload(
        EventKind::RoundStarted,
        Payload::MatchGuid(MatchGuidData { match_guid: "g".to_string() }),
    )
    .unwrap();
    assert_eq!(e.kind(), EventKind::RoundStarted);
    assert!(RLEvent::with_payload(
        EventKind::BallHit,
        Payload::MatchGuid(MatchGuidData { match_guid: "g".to_string() })
    )
    .is_none());
}
