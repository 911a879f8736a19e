use rl_bc_uploader::events::{
    BallHitBall, BallHitData, ClockUpdatedSecondsData, F64Bits, MatchEndedData, MatchGuidData,
    PlayerRef, RLEvent, StatfeedEventData, Vector3,
};
use rl_bc_uploader::reaction::{handle, LogLevel, Reaction, Segment};

fn text_of(r: &Reaction) -> String {
    let mut s = String::new();
    for seg in &r.line {
        match seg {
            Segment::Text(t) => s.push_str(t),
            Segment::Rounded(b) => s.push_str(&format!("{:.0}", f64::from_bits(b.0))),
        }
    }
    s
}

fn player(name: &str) -> PlayerRef {
    PlayerRef { name: name.to_string(), shortcut: 1, team_num: 0 }
}

fn bits(x: f64) -> F64Bits {
    F64Bits(x.to_bits())
}

#[test]
fn only_match_end_starts_an_upload() {
    let ended = RLEvent::MatchEnded(MatchEndedData { match_guid: "G".into(), winner_team_num: 1 });
    let r = handle(&ended);
    assert!(r.start_upload);
    assert_eq!(r.level, LogLevel::Info);
    assert_eq!(text_of(&r), "[MatchEnded] guid=G winner_team=1");
    let podium = RLEvent::PodiumStart(MatchGuidData { match_guid: "G".into() });
    assert!(!handle(&podium).start_upload);
    assert!(!handle(&RLEvent::UpdateState).start_upload);
}

#[test]
fn guid_events_name_themselves() {
    let r = handle(&RLEvent::ReplayWillEnd(MatchGuidData { match_guid: "abc".into() }));
    assert_eq!(text_of(&r), "[ReplayWillEnd] guid=abc");
    assert_eq!(r.level, LogLevel::Info);
    let r = handle(&RLEvent::MatchCreated(MatchGuidData { match_guid: "".into() }));
    assert_eq!(text_of(&r), "[MatchCreated] guid=");
}

#[test]
fn ball_hit_names_first_player_or_question_mark() {
    let ball = BallHitBall {
        pre_hit_speed: bits(1234.4),
        post_hit_speed: bits(2000.6),
        location: Vector3 { x: bits(0.0), y: bits(0.0), z: bits(93.0) },
    };
    let d = BallHitData { match_guid: "G".into(), players: vec![player("Ann"), player("Bob")], ball };
    let r = handle(&RLEvent::BallHit(d));
    assert_eq!(r.level, LogLevel::Debug);
    assert_eq!(text_of(&r), "[BallHit] by=Ann pre=1234 post=2001");
    let d = BallHitData { match_guid: "G".into(), players: vec![], ball };
    assert_eq!(text_of(&handle(&RLEvent::BallHit(d))), "[BallHit] by=? pre=1234 post=2001");
}

#[test]
fn clock_and_statfeed_lines() {
    let r = handle(&RLEvent::ClockUpdatedSeconds(ClockUpdatedSecondsData {
        match_guid: "G".into(),
        time_seconds: -3,
        overtime: true,
    }));
    assert_eq!(r.level, LogLevel::Debug);
    assert_eq!(text_of(&r), "[ClockUpdatedSeconds] time=-3s overtime=true");
    let r = handle(&RLEvent::StatfeedEvent(StatfeedEventData {
        match_guid: "G".into(),
        event_name: "Demolish".into(),
        stat_type: "Demolition".into(),
        main_target: player("Ann"),
        secondary_target: Some(player("Bob")),
    }));
    assert_eq!(text_of(&r), "[StatfeedEvent] Ann -> Demolish");
}

#[test]
fn unknown_events_are_warned_about() {
    let r = handle(&RLEvent::Unknown { event: "Nope".into() });
    assert_eq!(r.level, LogLevel::Warn);
    assert_eq!(text_of(&r), "[Unknown] event=Nope");
    assert_eq!(text_of(&handle(&RLEvent::UpdateState)), "UpdateState");
}
