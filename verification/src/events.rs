//! The events that Rocket League's Stats API sends, and how an envelope
//! (`{"Event": name, "Data": "<json text>"}`) becomes one of them.
//!
//! Decoding the JSON text of `Data` into one of the data types is the work of
//! a decoder handed to [`RLEvent::from_envelope`]; which data type an event
//! name calls for, and what comes of the decoder's answer, is decided here.
use vstd::prelude::*;

use crate::text::same_text;

verus! {

/// A floating-point number of the Stats API, held by its IEEE-754 bit
/// pattern (`f64::to_bits`), so that it is carried through unchanged.
#[derive(Debug, Clone, Copy, PartialEq, Eq, Structural)]
pub struct F64Bits(pub u64);

/// A player as events name one: `{Name, Shortcut, TeamNum}`.
#[derive(Debug, Clone)]
pub struct PlayerRef {
    pub name: String,
    pub shortcut: i32,
    pub team_num: i32,
}

/// A position `{X, Y, Z}`.
#[derive(Debug, Clone, Copy)]
pub struct Vector3 {
    pub x: F64Bits,
    pub y: F64Bits,
    pub z: F64Bits,
}

/// The last touch of the ball before an event: who, and the speed after it.
#[derive(Debug, Clone)]
pub struct BallLastTouch {
    pub player: PlayerRef,
    pub speed: F64Bits,
}

/// The ball of a `BallHit` event.
#[derive(Debug, Clone, Copy)]
pub struct BallHitBall {
    pub pre_hit_speed: F64Bits,
    pub post_hit_speed: F64Bits,
    pub location: Vector3,
}

/// Data of `BallHit`.
#[derive(Debug, Clone)]
pub struct BallHitData {
    pub match_guid: String,
    pub players: Vec<PlayerRef>,
    pub ball: BallHitBall,
}

/// Data of `CrossbarHit`.
#[derive(Debug, Clone)]
pub struct CrossbarHitData {
    pub match_guid: String,
    pub ball_speed: F64Bits,
    pub impact_force: F64Bits,
    pub ball_location: Vector3,
    pub ball_last_touch: BallLastTouch,
}

/// Data of `GoalScored`; `assister` is present only when there was one.
#[derive(Debug, Clone)]
pub struct GoalScoredData {
    pub match_guid: String,
    pub goal_speed: F64Bits,
    pub goal_time: F64Bits,
    pub impact_location: Vector3,
    pub scorer: PlayerRef,
    pub ball_last_touch: BallLastTouch,
    pub assister: Option<PlayerRef>,
}

/// Data of `MatchEnded`.
#[derive(Debug, Clone)]
pub struct MatchEndedData {
    pub match_guid: String,
    pub winner_team_num: i32,
}

/// Data of `ClockUpdatedSeconds`.
#[derive(Debug, Clone)]
pub struct ClockUpdatedSecondsData {
    pub match_guid: String,
    pub time_seconds: i32,
    pub overtime: bool,
}

/// Data of `StatfeedEvent`; `stat_type` is the display label (`"Type"`),
/// `secondary_target` is present only when the stat has one.
#[derive(Debug, Clone)]
pub struct StatfeedEventData {
    pub match_guid: String,
    pub event_name: String,
    pub stat_type: String,
    pub main_target: PlayerRef,
    pub secondary_target: Option<PlayerRef>,
}

/// Data of the events that carry nothing but the match GUID.
#[derive(Debug, Clone)]
pub struct MatchGuidData {
    pub match_guid: String,
}

/// One message of the stream: the event name and, as a JSON text of its
/// own, the event's data.
#[derive(Debug, Clone)]
pub struct Envelope {
    pub event: String,
    pub data: String,
}

/// An event of the Stats API.
#[derive(Debug, Clone)]
pub enum RLEvent {
    UpdateState,
    BallHit(BallHitData),
    CrossbarHit(CrossbarHitData),
    GoalScored(GoalScoredData),
    MatchEnded(MatchEndedData),
    ClockUpdatedSeconds(ClockUpdatedSecondsData),
    StatfeedEvent(StatfeedEventData),
    MatchCreated(MatchGuidData),
    MatchInitialized(MatchGuidData),
    MatchDestroyed(MatchGuidData),
    MatchPaused(MatchGuidData),
    MatchUnpaused(MatchGuidData),
    CountdownBegin(MatchGuidData),
    RoundStarted(MatchGuidData),
    GoalReplayStart(MatchGuidData),
    /// Documented as `GoalReplayWillEnd`; the name the game sends is `ReplayWillEnd`.
    ReplayWillEnd(MatchGuidData),
    GoalReplayEnd(MatchGuidData),
    PodiumStart(MatchGuidData),
    ReplayCreated(MatchGuidData),
    Unknown { event: String },
}

/// Which event an envelope's name announces.
#[derive(Debug, Clone, Copy, PartialEq, Eq, Structural)]
pub enum EventKind {
    UpdateState,
    BallHit,
    CrossbarHit,
    GoalScored,
    MatchEnded,
    ClockUpdatedSeconds,
    StatfeedEvent,
    MatchCreated,
    MatchInitialized,
    MatchDestroyed,
    MatchPaused,
    MatchUnpaused,
    CountdownBegin,
    RoundStarted,
    GoalReplayStart,
    ReplayWillEnd,
    GoalReplayEnd,
    PodiumStart,
    ReplayCreated,
    Unknown,
}

/// Which data type an event's `Data` is decoded into.
#[derive(Debug, Clone, Copy, PartialEq, Eq, Structural)]
pub enum PayloadKind {
    BallHit,
    CrossbarHit,
    GoalScored,
    MatchEnded,
    ClockUpdatedSeconds,
    StatfeedEvent,
    MatchGuid,
}

/// A decoded `Data`.
#[derive(Debug, Clone)]
pub enum Payload {
    BallHit(BallHitData),
    CrossbarHit(CrossbarHitData),
    GoalScored(GoalScoredData),
    MatchEnded(MatchEndedData),
    ClockUpdatedSeconds(ClockUpdatedSecondsData),
    StatfeedEvent(StatfeedEventData),
    MatchGuid(MatchGuidData),
}

/// Why a `Data` text could not be decoded, in the decoder's words.
#[derive(Debug, Clone)]
pub struct DecodeError {
    pub message: String,
}

/// Why an envelope did not become an event.
#[derive(Debug, Clone)]
pub enum EventError {
    /// The decoder refused the `Data` text.
    Decode(DecodeError),
    /// The decoder answered with data of another kind than the one asked for.
    WrongPayload { expected: PayloadKind },
}

/// The event kind that a name announces: each of the names the game sends
/// maps to its own kind, every other name to `Unknown`.
pub open spec fn kind_of_name(name: Seq<char>) -> EventKind {
    if name == "UpdateState"@ {
        EventKind::UpdateState
    } else if name == "BallHit"@ {
        EventKind::BallHit
    } else if name == "CrossbarHit"@ {
        EventKind::CrossbarHit
    } else if name == "GoalScored"@ {
        EventKind::GoalScored
    } else if name == "MatchEnded"@ {
        EventKind::MatchEnded
    } else if name == "ClockUpdatedSeconds"@ {
        EventKind::ClockUpdatedSeconds
    } else if name == "StatfeedEvent"@ {
        EventKind::StatfeedEvent
    } else if name == "MatchCreated"@ {
        EventKind::MatchCreated
    } else if name == "MatchInitialized"@ {
        EventKind::MatchInitialized
    } else if name == "MatchDestroyed"@ {
        EventKind::MatchDestroyed
    } else if name == "MatchPaused"@ {
        EventKind::MatchPaused
    } else if name == "MatchUnpaused"@ {
        EventKind::MatchUnpaused
    } else if name == "CountdownBegin"@ {
        EventKind::CountdownBegin
    } else if name == "RoundStarted"@ {
        EventKind::RoundStarted
    } else if name == "GoalReplayStart"@ {
        EventKind::GoalReplayStart
    } else if name == "ReplayWillEnd"@ {
        EventKind::ReplayWillEnd
    } else if name == "GoalReplayEnd"@ {
        EventKind::GoalReplayEnd
    } else if name == "PodiumStart"@ {
        EventKind::PodiumStart
    } else if name == "ReplayCreated"@ {
        EventKind::ReplayCreated
    } else {
        EventKind::Unknown
    }
}

/// The name the game sends for a kind (empty for `Unknown`).
pub open spec fn name_text(kind: EventKind) -> Seq<char> {
    match kind {
        EventKind::UpdateState => "UpdateState"@,
        EventKind::BallHit => "BallHit"@,
        EventKind::CrossbarHit => "CrossbarHit"@,
        EventKind::GoalScored => "GoalScored"@,
        EventKind::MatchEnded => "MatchEnded"@,
        EventKind::ClockUpdatedSeconds => "ClockUpdatedSeconds"@,
        EventKind::StatfeedEvent => "StatfeedEvent"@,
        EventKind::MatchCreated => "MatchCreated"@,
        EventKind::MatchInitialized => "MatchInitialized"@,
        EventKind::MatchDestroyed => "MatchDestroyed"@,
        EventKind::MatchPaused => "MatchPaused"@,
        EventKind::MatchUnpaused => "MatchUnpaused"@,
        EventKind::CountdownBegin => "CountdownBegin"@,
        EventKind::RoundStarted => "RoundStarted"@,
        EventKind::GoalReplayStart => "GoalReplayStart"@,
        EventKind::ReplayWillEnd => "ReplayWillEnd"@,
        EventKind::GoalReplayEnd => "GoalReplayEnd"@,
        EventKind::PodiumStart => "PodiumStart"@,
        EventKind::ReplayCreated => "ReplayCreated"@,
        EventKind::Unknown => ""@,
    }
}

/// The data type of a kind: none for `UpdateState` (its data is not read) and
/// for `Unknown`.
pub open spec fn payload_of(kind: EventKind) -> Option<PayloadKind> {
    match kind {
        EventKind::UpdateState => None,
        EventKind::Unknown => None,
        EventKind::BallHit => Some(PayloadKind::BallHit),
        EventKind::CrossbarHit => Some(PayloadKind::CrossbarHit),
        EventKind::GoalScored => Some(PayloadKind::GoalScored),
        EventKind::MatchEnded => Some(PayloadKind::MatchEnded),
        EventKind::ClockUpdatedSeconds => Some(PayloadKind::ClockUpdatedSeconds),
        EventKind::StatfeedEvent => Some(PayloadKind::StatfeedEvent),
        _ => Some(PayloadKind::MatchGuid),
    }
}

/// The kind of a decoded payload.
pub open spec fn payload_kind(p: Payload) -> PayloadKind {
    match p {
        Payload::BallHit(_) => PayloadKind::BallHit,
        Payload::CrossbarHit(_) => PayloadKind::CrossbarHit,
        Payload::GoalScored(_) => PayloadKind::GoalScored,
        Payload::MatchEnded(_) => PayloadKind::MatchEnded,
        Payload::ClockUpdatedSeconds(_) => PayloadKind::ClockUpdatedSeconds,
        Payload::StatfeedEvent(_) => PayloadKind::StatfeedEvent,
        Payload::MatchGuid(_) => PayloadKind::MatchGuid,
    }
}

/// The event of `kind` that carries `p`, when `p` is of the kind's data type.
pub open spec fn event_with(kind: EventKind, p: Payload) -> Option<RLEvent> {
    match (kind, p) {
        (EventKind::BallHit, Payload::BallHit(d)) => Some(RLEvent::BallHit(d)),
        (EventKind::CrossbarHit, Payload::CrossbarHit(d)) => Some(RLEvent::CrossbarHit(d)),
        (EventKind::GoalScored, Payload::GoalScored(d)) => Some(RLEvent::GoalScored(d)),
        (EventKind::MatchEnded, Payload::MatchEnded(d)) => Some(RLEvent::MatchEnded(d)),
        (EventKind::ClockUpdatedSeconds, Payload::ClockUpdatedSeconds(d)) => Some(
            RLEvent::ClockUpdatedSeconds(d),
        ),
        (EventKind::StatfeedEvent, Payload::StatfeedEvent(d)) => Some(RLEvent::StatfeedEvent(d)),
        (EventKind::MatchCreated, Payload::MatchGuid(d)) => Some(RLEvent::MatchCreated(d)),
        (EventKind::MatchInitialized, Payload::MatchGuid(d)) => Some(RLEvent::MatchInitialized(d)),
        (EventKind::MatchDestroyed, Payload::MatchGuid(d)) => Some(RLEvent::MatchDestroyed(d)),
        (EventKind::MatchPaused, Payload::MatchGuid(d)) => Some(RLEvent::MatchPaused(d)),
        (EventKind::MatchUnpaused, Payload::MatchGuid(d)) => Some(RLEvent::MatchUnpaused(d)),
        (EventKind::CountdownBegin, Payload::MatchGuid(d)) => Some(RLEvent::CountdownBegin(d)),
        (EventKind::RoundStarted, Payload::MatchGuid(d)) => Some(RLEvent::RoundStarted(d)),
        (EventKind::GoalReplayStart, Payload::MatchGuid(d)) => Some(RLEvent::GoalReplayStart(d)),
        (EventKind::ReplayWillEnd, Payload::MatchGuid(d)) => Some(RLEvent::ReplayWillEnd(d)),
        (EventKind::GoalReplayEnd, Payload::MatchGuid(d)) => Some(RLEvent::GoalReplayEnd(d)),
        (EventKind::PodiumStart, Payload::MatchGuid(d)) => Some(RLEvent::PodiumStart(d)),
        (EventKind::ReplayCreated, Payload::MatchGuid(d)) => Some(RLEvent::ReplayCreated(d)),
        _ => None,
    }
}

/// What becomes of a decoder's answer for an event of `kind` that has data:
/// its error, or the event carrying the decoded data when that data is of the
/// kind's type.
pub open spec fn decoded_event(kind: EventKind, decoded: Result<Payload, DecodeError>) -> Result<
    RLEvent,
    EventError,
> {
    match decoded {
        Err(e) => Err(EventError::Decode(e)),
        Ok(p) => match event_with(kind, p) {
            Some(ev) => Ok(ev),
            None => Err(EventError::WrongPayload { expected: payload_of(kind).unwrap() }),
        },
    }
}

/// The kind of an event.
pub open spec fn event_kind(ev: RLEvent) -> EventKind {
    match ev {
        RLEvent::UpdateState => EventKind::UpdateState,
        RLEvent::BallHit(_) => EventKind::BallHit,
        RLEvent::CrossbarHit(_) => EventKind::CrossbarHit,
        RLEvent::GoalScored(_) => EventKind::GoalScored,
        RLEvent::MatchEnded(_) => EventKind::MatchEnded,
        RLEvent::ClockUpdatedSeconds(_) => EventKind::ClockUpdatedSeconds,
        RLEvent::StatfeedEvent(_) => EventKind::StatfeedEvent,
        RLEvent::MatchCreated(_) => EventKind::MatchCreated,
        RLEvent::MatchInitialized(_) => EventKind::MatchInitialized,
        RLEvent::MatchDestroyed(_) => EventKind::MatchDestroyed,
        RLEvent::MatchPaused(_) => EventKind::MatchPaused,
        RLEvent::MatchUnpaused(_) => EventKind::MatchUnpaused,
        RLEvent::CountdownBegin(_) => EventKind::CountdownBegin,
        RLEvent::RoundStarted(_) => EventKind::RoundStarted,
        RLEvent::GoalReplayStart(_) => EventKind::GoalReplayStart,
        RLEvent::ReplayWillEnd(_) => EventKind::ReplayWillEnd,
        RLEvent::GoalReplayEnd(_) => EventKind::GoalReplayEnd,
        RLEvent::PodiumStart(_) => EventKind::PodiumStart,
        RLEvent::ReplayCreated(_) => EventKind::ReplayCreated,
        RLEvent::Unknown { .. } => EventKind::Unknown,
    }
}

impl EventKind {
    /// The kind that an envelope's event name announces.
    pub fn from_name(name: &str) -> (k: EventKind)
        ensures
            k == kind_of_name(name@),
    {
        if same_text(name, "UpdateState") {
            EventKind::UpdateState
        } else if same_text(name, "BallHit") {
            EventKind::BallHit
        } else if same_text(name, "CrossbarHit") {
            EventKind::CrossbarHit
        } else if same_text(name, "GoalScored") {
            EventKind::GoalScored
        } else if same_text(name, "MatchEnded") {
            EventKind::MatchEnded
        } else if same_text(name, "ClockUpdatedSeconds") {
            EventKind::ClockUpdatedSeconds
        } else if same_text(name, "StatfeedEvent") {
            EventKind::StatfeedEvent
        } else if same_text(name, "MatchCreated") {
            EventKind::MatchCreated
        } else if same_text(name, "MatchInitialized") {
            EventKind::MatchInitialized
        } else if same_text(name, "MatchDestroyed") {
            EventKind::MatchDestroyed
        } else if same_text(name, "MatchPaused") {
            EventKind::MatchPaused
        } else if same_text(name, "MatchUnpaused") {
            EventKind::MatchUnpaused
        } else if same_text(name, "CountdownBegin") {
            EventKind::CountdownBegin
        } else if same_text(name, "RoundStarted") {
            EventKind::RoundStarted
        } else if same_text(name, "GoalReplayStart") {
            EventKind::GoalReplayStart
        } else if same_text(name, "ReplayWillEnd") {
            EventKind::ReplayWillEnd
        } else if same_text(name, "GoalReplayEnd") {
            EventKind::GoalReplayEnd
        } else if same_text(name, "PodiumStart") {
            EventKind::PodiumStart
        } else if same_text(name, "ReplayCreated") {
            EventKind::ReplayCreated
        } else {
            EventKind::Unknown
        }
    }

    /// The name the game sends for this kind (empty for `Unknown`).
    pub fn name(&self) -> (s: &'static str)
        ensures
            s@ == name_text(*self),
    {
        match self {
            EventKind::UpdateState => "UpdateState",
            EventKind::BallHit => "BallHit",
            EventKind::CrossbarHit => "CrossbarHit",
            EventKind::GoalScored => "GoalScored",
            EventKind::MatchEnded => "MatchEnded",
            EventKind::ClockUpdatedSeconds => "ClockUpdatedSeconds",
            EventKind::StatfeedEvent => "StatfeedEvent",
            EventKind::MatchCreated => "MatchCreated",
            EventKind::MatchInitialized => "MatchInitialized",
            EventKind::MatchDestroyed => "MatchDestroyed",
            EventKind::MatchPaused => "MatchPaused",
            EventKind::MatchUnpaused => "MatchUnpaused",
            EventKind::CountdownBegin => "CountdownBegin",
            EventKind::RoundStarted => "RoundStarted",
            EventKind::GoalReplayStart => "GoalReplayStart",
            EventKind::ReplayWillEnd => "ReplayWillEnd",
            EventKind::GoalReplayEnd => "GoalReplayEnd",
            EventKind::PodiumStart => "PodiumStart",
            EventKind::ReplayCreated => "ReplayCreated",
            EventKind::Unknown => "",
        }
    }

    /// The data type that this kind's `Data` is decoded into, if any.
    pub fn payload(&self) -> (p: Option<PayloadKind>)
        ensures
            p == payload_of(*self),
    {
        match self {
            EventKind::UpdateState => None,
            EventKind::Unknown => None,
            EventKind::BallHit => Some(PayloadKind::BallHit),
            EventKind::CrossbarHit => Some(PayloadKind::CrossbarHit),
            EventKind::GoalScored => Some(PayloadKind::GoalScored),
            EventKind::MatchEnded => Some(PayloadKind::MatchEnded),
            EventKind::ClockUpdatedSeconds => Some(PayloadKind::ClockUpdatedSeconds),
            EventKind::StatfeedEvent => Some(PayloadKind::StatfeedEvent),
            _ => Some(PayloadKind::MatchGuid),
        }
    }
}

impl Payload {
    /// The kind of this payload.
    pub fn kind(&self) -> (k: PayloadKind)
        ensures
            k == payload_kind(*self),
    {
        match self {
            Payload::BallHit(_) => PayloadKind::BallHit,
            Payload::CrossbarHit(_) => PayloadKind::CrossbarHit,
            Payload::GoalScored(_) => PayloadKind::GoalScored,
            Payload::MatchEnded(_) => PayloadKind::MatchEnded,
            Payload::ClockUpdatedSeconds(_) => PayloadKind::ClockUpdatedSeconds,
            Payload::StatfeedEvent(_) => PayloadKind::StatfeedEvent,
            Payload::MatchGuid(_) => PayloadKind::MatchGuid,
        }
    }
}

impl RLEvent {
    /// The event of `kind` carrying `p`, when `p` is of the kind's data type.
    pub fn with_payload(kind: EventKind, p: Payload) -> (r: Option<RLEvent>)
        ensures
            r == event_with(kind, p),
    {
        match (kind, p) {
            (EventKind::BallHit, Payload::BallHit(d)) => Some(RLEvent::BallHit(d)),
            (EventKind::CrossbarHit, Payload::CrossbarHit(d)) => Some(RLEvent::CrossbarHit(d)),
            (EventKind::GoalScored, Payload::GoalScored(d)) => Some(RLEvent::GoalScored(d)),
            (EventKind::MatchEnded, Payload::MatchEnded(d)) => Some(RLEvent::MatchEnded(d)),
            (EventKind::ClockUpdatedSeconds, Payload::ClockUpdatedSeconds(d)) => Some(
                RLEvent::ClockUpdatedSeconds(d),
            ),
            (EventKind::StatfeedEvent, Payload::StatfeedEvent(d)) => Some(
                RLEvent::StatfeedEvent(d),
            ),
            (EventKind::MatchCreated, Payload::MatchGuid(d)) => Some(RLEvent::MatchCreated(d)),
            (EventKind::MatchInitialized, Payload::MatchGuid(d)) => Some(
                RLEvent::MatchInitialized(d),
            ),
            (EventKind::MatchDestroyed, Payload::MatchGuid(d)) => Some(RLEvent::MatchDestroyed(d)),
            (EventKind::MatchPaused, Payload::MatchGuid(d)) => Some(RLEvent::MatchPaused(d)),
            (EventKind::MatchUnpaused, Payload::MatchGuid(d)) => Some(RLEvent::MatchUnpaused(d)),
            (EventKind::CountdownBegin, Payload::MatchGuid(d)) => Some(RLEvent::CountdownBegin(d)),
            (EventKind::RoundStarted, Payload::MatchGuid(d)) => Some(RLEvent::RoundStarted(d)),
            (EventKind::GoalReplayStart, Payload::MatchGuid(d)) => Some(
                RLEvent::GoalReplayStart(d),
            ),
            (EventKind::ReplayWillEnd, Payload::MatchGuid(d)) => Some(RLEvent::ReplayWillEnd(d)),
            (EventKind::GoalReplayEnd, Payload::MatchGuid(d)) => Some(RLEvent::GoalReplayEnd(d)),
            (EventKind::PodiumStart, Payload::MatchGuid(d)) => Some(RLEvent::PodiumStart(d)),
            (EventKind::ReplayCreated, Payload::MatchGuid(d)) => Some(RLEvent::ReplayCreated(d)),
            _ => None,
        }
    }

    /// What becomes of a decoder's answer for an event of `kind` that has
    /// data.
    pub fn from_decoded(kind: EventKind, decoded: Result<Payload, DecodeError>) -> (r: Result<
        RLEvent,
        EventError,
    >)
        requires
            payload_of(kind) is Some,
        ensures
            r == decoded_event(kind, decoded),
    {
        match decoded {
            Err(e) => Err(EventError::Decode(e)),
            Ok(p) => match RLEvent::with_payload(kind, p) {
                Some(ev) => Ok(ev),
                None => {
                    let expected = kind.payload().unwrap();
                    Err(EventError::WrongPayload { expected })
                },
            },
        }
    }

    /// Turns an envelope into an event. `UpdateState` and names the game does
    /// not send become events without looking at `Data`; for every other
    /// name, `decode` is asked for that name's data type from the `Data` text,
    /// and its answer decides the result (see [`decoded_event`]).
    pub fn from_envelope<F: Fn(PayloadKind, &String) -> Result<Payload, DecodeError>>(
        env: Envelope,
        decode: F,
    ) -> (r: Result<RLEvent, EventError>)
        requires
            forall|k: PayloadKind, d: &String| decode.requires((k, d)),
        ensures
            kind_of_name(env.event@) == EventKind::UpdateState ==> r == Ok::<
                RLEvent,
                EventError,
            >(RLEvent::UpdateState),
            kind_of_name(env.event@) == EventKind::Unknown ==> r == Ok::<RLEvent, EventError>(
                RLEvent::Unknown { event: env.event },
            ),
            payload_of(kind_of_name(env.event@)) matches Some(pk) ==> exists|
                answer: Result<Payload, DecodeError>,
            |
                call_ensures(decode, (pk, &env.data), answer) && r == decoded_event(
                    kind_of_name(env.event@),
                    answer,
                ),
    {
        let kind = EventKind::from_name(env.event.as_str());
        match kind.payload() {
            None => {
                if kind == EventKind::UpdateState {
                    Ok(RLEvent::UpdateState)
                } else {
                    Ok(RLEvent::Unknown { event: env.event })
                }
            },
            Some(pk) => {
                let answer = decode(pk, &env.data);
                RLEvent::from_decoded(kind, answer)
            },
        }
    }

    /// The kind of this event.
    pub fn kind(&self) -> (k: EventKind)
        ensures
            k == event_kind(*self),
    {
        match self {
            RLEvent::UpdateState => EventKind::UpdateState,
            RLEvent::BallHit(_) => EventKind::BallHit,
            RLEvent::CrossbarHit(_) => EventKind::CrossbarHit,
            RLEvent::GoalScored(_) => EventKind::GoalScored,
            RLEvent::MatchEnded(_) => EventKind::MatchEnded,
            RLEvent::ClockUpdatedSeconds(_) => EventKind::ClockUpdatedSeconds,
            RLEvent::StatfeedEvent(_) => EventKind::StatfeedEvent,
            RLEvent::MatchCreated(_) => EventKind::MatchCreated,
            RLEvent::MatchInitialized(_) => EventKind::MatchInitialized,
            RLEvent::MatchDestroyed(_) => EventKind::MatchDestroyed,
            RLEvent::MatchPaused(_) => EventKind::MatchPaused,
            RLEvent::MatchUnpaused(_) => EventKind::MatchUnpaused,
            RLEvent::CountdownBegin(_) => EventKind::CountdownBegin,
            RLEvent::RoundStarted(_) => EventKind::RoundStarted,
            RLEvent::GoalReplayStart(_) => EventKind::GoalReplayStart,
            RLEvent::ReplayWillEnd(_) => EventKind::ReplayWillEnd,
            RLEvent::GoalReplayEnd(_) => EventKind::GoalReplayEnd,
            RLEvent::PodiumStart(_) => EventKind::PodiumStart,
            RLEvent::ReplayCreated(_) => EventKind::ReplayCreated,
            RLEvent::Unknown { .. } => EventKind::Unknown,
        }
    }
}

/// Every name the game sends is recognised as its own event: reading the
/// name of a kind gives that kind back, and the name documented as
/// `GoalReplayWillEnd` is not one of them.
pub proof fn names_identify_kinds(k: EventKind)
    requires
        k != EventKind::Unknown,
    ensures
        kind_of_name(name_text(k)) == k,
        kind_of_name("GoalReplayWillEnd"@) == EventKind::Unknown,
{
    lemma_name_literals();
}

/// The characters of the names the game sends, as far as telling them apart
/// needs.
proof fn lemma_name_literals()
    ensures
        "UpdateState"@.len() == 11 && "UpdateState"@[0] == 'U' && "UpdateState"@[6] == 'S',
        "BallHit"@.len() == 7 && "BallHit"@[0] == 'B' && "BallHit"@[6] == 't',
        "CrossbarHit"@.len() == 11 && "CrossbarHit"@[0] == 'C' && "CrossbarHit"@[6] == 'a',
        "GoalScored"@.len() == 10 && "GoalScored"@[0] == 'G' && "GoalScored"@[6] == 'o',
        "MatchEnded"@.len() == 10 && "MatchEnded"@[0] == 'M' && "MatchEnded"@[6] == 'n',
        "ClockUpdatedSeconds"@.len() == 19 && "ClockUpdatedSeconds"@[0] == 'C' && "ClockUpdatedSeconds"@[6] == 'p',
        "StatfeedEvent"@.len() == 13 && "StatfeedEvent"@[0] == 'S' && "StatfeedEvent"@[6] == 'e',
        "MatchCreated"@.len() == 12 && "MatchCreated"@[0] == 'M' && "MatchCreated"@[6] == 'r',
        "MatchInitialized"@.len() == 16 && "MatchInitialized"@[0] == 'M' && "MatchInitialized"@[6] == 'n',
        "MatchDestroyed"@.len() == 14 && "MatchDestroyed"@[0] == 'M' && "MatchDestroyed"@[6] == 'e',
        "MatchPaused"@.len() == 11 && "MatchPaused"@[0] == 'M' && "MatchPaused"@[6] == 'a',
        "MatchUnpaused"@.len() == 13 && "MatchUnpaused"@[0] == 'M' && "MatchUnpaused"@[6] == 'n',
        "CountdownBegin"@.len() == 14 && "CountdownBegin"@[0] == 'C' && "CountdownBegin"@[6] == 'o',
        "RoundStarted"@.len() == 12 && "RoundStarted"@[0] == 'R' && "RoundStarted"@[6] == 't',
        "GoalReplayStart"@.len() == 15 && "GoalReplayStart"@[0] == 'G' && "GoalReplayStart"@[6] == 'p',
        "ReplayWillEnd"@.len() == 13 && "ReplayWillEnd"@[0] == 'R' && "ReplayWillEnd"@[6] == 'W',
        "GoalReplayEnd"@.len() == 13 && "GoalReplayEnd"@[0] == 'G' && "GoalReplayEnd"@[6] == 'p',
        "PodiumStart"@.len() == 11 && "PodiumStart"@[0] == 'P' && "PodiumStart"@[6] == 'S',
        "ReplayCreated"@.len() == 13 && "ReplayCreated"@[0] == 'R' && "ReplayCreated"@[6] == 'C',
        "GoalReplayWillEnd"@.len() == 17 && "GoalReplayWillEnd"@[0] == 'G' && "GoalReplayWillEnd"@[6] == 'p',
{
    reveal_strlit("UpdateState");
    reveal_strlit("BallHit");
    reveal_strlit("CrossbarHit");
    reveal_strlit("GoalScored");
    reveal_strlit("MatchEnded");
    reveal_strlit("ClockUpdatedSeconds");
    reveal_strlit("StatfeedEvent");
    reveal_strlit("MatchCreated");
    reveal_strlit("MatchInitialized");
    reveal_strlit("MatchDestroyed");
    reveal_strlit("MatchPaused");
    reveal_strlit("MatchUnpaused");
    reveal_strlit("CountdownBegin");
    reveal_strlit("RoundStarted");
    reveal_strlit("GoalReplayStart");
    reveal_strlit("ReplayWillEnd");
    reveal_strlit("GoalReplayEnd");
    reveal_strlit("PodiumStart");
    reveal_strlit("ReplayCreated");
    reveal_strlit("GoalReplayWillEnd");
}

/// Each name the game sends is read as the event of that very name, and its
/// `Data` is decoded into that event's own data type: a goal as goal data, a
/// crossbar hit as crossbar data, the match-GUID-only events as a match GUID,
/// and `UpdateState` not at all.
pub proof fn each_sent_name_reads_as_its_kind()
    ensures
        kind_of_name("UpdateState"@) == EventKind::UpdateState,
        kind_of_name("BallHit"@) == EventKind::BallHit,
        kind_of_name("CrossbarHit"@) == EventKind::CrossbarHit,
        kind_of_name("GoalScored"@) == EventKind::GoalScored,
        kind_of_name("MatchEnded"@) == EventKind::MatchEnded,
        kind_of_name("ClockUpdatedSeconds"@) == EventKind::ClockUpdatedSeconds,
        kind_of_name("StatfeedEvent"@) == EventKind::StatfeedEvent,
        kind_of_name("MatchCreated"@) == EventKind::MatchCreated,
        kind_of_name("MatchInitialized"@) == EventKind::MatchInitialized,
        kind_of_name("MatchDestroyed"@) == EventKind::MatchDestroyed,
        kind_of_name("MatchPaused"@) == EventKind::MatchPaused,
        kind_of_name("MatchUnpaused"@) == EventKind::MatchUnpaused,
        kind_of_name("CountdownBegin"@) == EventKind::CountdownBegin,
        kind_of_name("RoundStarted"@) == EventKind::RoundStarted,
        kind_of_name("GoalReplayStart"@) == EventKind::GoalReplayStart,
        kind_of_name("ReplayWillEnd"@) == EventKind::ReplayWillEnd,
        kind_of_name("GoalReplayEnd"@) == EventKind::GoalReplayEnd,
        kind_of_name("PodiumStart"@) == EventKind::PodiumStart,
        kind_of_name("ReplayCreated"@) == EventKind::ReplayCreated,
        payload_of(kind_of_name("UpdateState"@)) is None,
        payload_of(kind_of_name("BallHit"@)) == Some(PayloadKind::BallHit),
        payload_of(kind_of_name("CrossbarHit"@)) == Some(PayloadKind::CrossbarHit),
        payload_of(kind_of_name("GoalScored"@)) == Some(PayloadKind::GoalScored),
        payload_of(kind_of_name("MatchEnded"@)) == Some(PayloadKind::MatchEnded),
        payload_of(kind_of_name("ClockUpdatedSeconds"@)) == Some(PayloadKind::ClockUpdatedSeconds),
        payload_of(kind_of_name("StatfeedEvent"@)) == Some(PayloadKind::StatfeedEvent),
        payload_of(kind_of_name("MatchCreated"@)) == Some(PayloadKind::MatchGuid),
        payload_of(kind_of_name("MatchInitialized"@)) == Some(PayloadKind::MatchGuid),
        payload_of(kind_of_name("MatchDestroyed"@)) == Some(PayloadKind::MatchGuid),
        payload_of(kind_of_name("MatchPaused"@)) == Some(PayloadKind::MatchGuid),
        payload_of(kind_of_name("MatchUnpaused"@)) == Some(PayloadKind::MatchGuid),
        payload_of(kind_of_name("CountdownBegin"@)) == Some(PayloadKind::MatchGuid),
        payload_of(kind_of_name("RoundStarted"@)) == Some(PayloadKind::MatchGuid),
        payload_of(kind_of_name("GoalReplayStart"@)) == Some(PayloadKind::MatchGuid),
        payload_of(kind_of_name("ReplayWillEnd"@)) == Some(PayloadKind::MatchGuid),
        payload_of(kind_of_name("GoalReplayEnd"@)) == Some(PayloadKind::MatchGuid),
        payload_of(kind_of_name("PodiumStart"@)) == Some(PayloadKind::MatchGuid),
        payload_of(kind_of_name("ReplayCreated"@)) == Some(PayloadKind::MatchGuid),
        kind_of_name("GoalReplayWillEnd"@) == EventKind::Unknown,
{
    lemma_name_literals();
}

/// The event built from decoded data is of the kind asked for, carries data of
/// that kind's type, and is built exactly when the data is of that type; a
/// decoder's error is passed on as it is.
pub proof fn decoded_data_builds_its_own_event(kind: EventKind, answer: Result<Payload, DecodeError>)
    requires
        payload_of(kind) is Some,
    ensures
        answer matches Err(e) ==> decoded_event(kind, answer) == Err::<RLEvent, EventError>(
            EventError::Decode(e),
        ),
        answer matches Ok(p) ==> (decoded_event(kind, answer) is Ok <==> payload_of(kind) == Some(
            payload_kind(p),
        )),
        decoded_event(kind, answer) matches Ok(e) ==> event_kind(e) == kind,
        decoded_event(kind, answer) matches Err(EventError::WrongPayload { expected }) ==> Some(
            expected,
        ) == payload_of(kind),
{
}

} // verus!
