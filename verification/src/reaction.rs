//! How the listener answers each event: the log line it writes, at which
//! level, and whether the event starts the wait for a saved replay and its
//! upload (only the end of a match does).
use vstd::prelude::*;

use crate::events::{
    decoded_event, event_kind, kind_of_name, name_text, payload_of, BallHitData, DecodeError,
    EventKind, F64Bits, MatchGuidData, Payload, RLEvent,
};
use crate::text::{bool_text, int_text, push_bool, push_int};

verus! {

/// How important a log line is.
#[derive(Debug, Clone, Copy, PartialEq, Eq, Structural)]
pub enum LogLevel {
    Debug,
    Info,
    Warn,
}

/// A piece of a log line: text, or a floating-point number to be written
/// rounded to a whole number (`{:.0}`).
#[derive(Debug, Clone)]
pub enum Segment {
    Text(String),
    Rounded(F64Bits),
}

/// A [`Segment`] as the contracts speak of it.
pub enum SegmentView {
    Text(Seq<char>),
    Rounded(u64),
}

/// The view of a segment.
pub open spec fn segment_view(s: Segment) -> SegmentView {
    match s {
        Segment::Text(t) => SegmentView::Text(t@),
        Segment::Rounded(b) => SegmentView::Rounded(b.0),
    }
}

/// The view of a log line.
pub open spec fn line_view(line: Seq<Segment>) -> Seq<SegmentView> {
    line.map_values(|s: Segment| segment_view(s))
}

/// The listener's answer to one event.
#[derive(Debug, Clone)]
pub struct Reaction {
    pub level: LogLevel,
    pub line: Vec<Segment>,
    /// Whether to wait for the replay saved after this match and upload it.
    pub start_upload: bool,
}

/// The level of an event's log line: per-tick and per-touch events are
/// details, unknown names are warned about, the rest is information.
pub open spec fn level_of(e: RLEvent) -> LogLevel {
    match e {
        RLEvent::UpdateState => LogLevel::Debug,
        RLEvent::BallHit(_) => LogLevel::Debug,
        RLEvent::ClockUpdatedSeconds(_) => LogLevel::Debug,
        RLEvent::Unknown { .. } => LogLevel::Warn,
        _ => LogLevel::Info,
    }
}

/// The name of the first player who hit the ball, or `?` when none is named.
pub open spec fn hitter_text(d: BallHitData) -> Seq<char> {
    if d.players@.len() > 0 {
        d.players@[0].name@
    } else {
        "?"@
    }
}

/// `[<event>] guid=<guid>`.
pub open spec fn guid_text(kind: EventKind, d: MatchGuidData) -> Seq<char> {
    seq!['['] + name_text(kind) + "] guid="@ + d.match_guid@
}

/// The log line written for an event.
pub open spec fn line_of(e: RLEvent) -> Seq<SegmentView> {
    match e {
        RLEvent::UpdateState => seq![SegmentView::Text("UpdateState"@)],
        RLEvent::BallHit(d) => seq![
            SegmentView::Text("[BallHit] by="@ + hitter_text(d) + " pre="@),
            SegmentView::Rounded(d.ball.pre_hit_speed.0),
            SegmentView::Text(" post="@),
            SegmentView::Rounded(d.ball.post_hit_speed.0),
        ],
        RLEvent::CrossbarHit(d) => seq![
            SegmentView::Text("[CrossbarHit] speed="@),
            SegmentView::Rounded(d.ball_speed.0),
        ],
        RLEvent::GoalScored(d) => seq![
            SegmentView::Text("[GoalScored] scorer="@ + d.scorer.name@ + " speed="@),
            SegmentView::Rounded(d.goal_speed.0),
        ],
        RLEvent::StatfeedEvent(d) => seq![
            SegmentView::Text("[StatfeedEvent] "@ + d.main_target.name@ + " -> "@ + d.event_name@),
        ],
        RLEvent::MatchEnded(d) => seq![
            SegmentView::Text(
                "[MatchEnded] guid="@ + d.match_guid@ + " winner_team="@ + int_text(
                    d.winner_team_num as int,
                ),
            ),
        ],
        RLEvent::ClockUpdatedSeconds(d) => seq![
            SegmentView::Text(
                "[ClockUpdatedSeconds] time="@ + int_text(d.time_seconds as int) + "s overtime="@
                    + bool_text(d.overtime),
            ),
        ],
        RLEvent::Unknown { event } => seq![SegmentView::Text("[Unknown] event="@ + event@)],
        RLEvent::MatchCreated(d) => seq![SegmentView::Text(guid_text(EventKind::MatchCreated, d))],
        RLEvent::MatchInitialized(d) => seq![
            SegmentView::Text(guid_text(EventKind::MatchInitialized, d)),
        ],
        RLEvent::MatchDestroyed(d) => seq![
            SegmentView::Text(guid_text(EventKind::MatchDestroyed, d)),
        ],
        RLEvent::MatchPaused(d) => seq![SegmentView::Text(guid_text(EventKind::MatchPaused, d))],
        RLEvent::MatchUnpaused(d) => seq![
            SegmentView::Text(guid_text(EventKind::MatchUnpaused, d)),
        ],
        RLEvent::CountdownBegin(d) => seq![
            SegmentView::Text(guid_text(EventKind::CountdownBegin, d)),
        ],
        RLEvent::RoundStarted(d) => seq![SegmentView::Text(guid_text(EventKind::RoundStarted, d))],
        RLEvent::GoalReplayStart(d) => seq![
            SegmentView::Text(guid_text(EventKind::GoalReplayStart, d)),
        ],
        RLEvent::ReplayWillEnd(d) => seq![
            SegmentView::Text(guid_text(EventKind::ReplayWillEnd, d)),
        ],
        RLEvent::GoalReplayEnd(d) => seq![
            SegmentView::Text(guid_text(EventKind::GoalReplayEnd, d)),
        ],
        RLEvent::PodiumStart(d) => seq![SegmentView::Text(guid_text(EventKind::PodiumStart, d))],
        RLEvent::ReplayCreated(d) => seq![
            SegmentView::Text(guid_text(EventKind::ReplayCreated, d)),
        ],
    }
}

/// Whether an event starts the wait for a replay and its upload.
pub open spec fn starts_upload(e: RLEvent) -> bool {
    e is MatchEnded
}

fn text(s: &str) -> (r: String)
    ensures
        r@ == s@,
{
    String::from_str(s)
}

fn guid_line(kind: EventKind, d: &MatchGuidData) -> (r: Vec<Segment>)
    ensures
        line_view(r@) == seq![SegmentView::Text(guid_text(kind, *d))],
{
    let mut t = text("[");
    t.append(kind.name());
    t.append("] guid=");
    t.append(d.match_guid.as_str());
    assert(t@ =~= guid_text(kind, *d)) by {
        reveal_strlit("[");
    }
    let r = vec![Segment::Text(t)];
    assert(line_view(r@) =~= seq![SegmentView::Text(guid_text(kind, *d))]);
    r
}

/// The listener's answer to an event: the level and text of its log line, and
/// whether it starts the wait for a replay and its upload.
pub fn handle(event: &RLEvent) -> (r: Reaction)
    ensures
        r.level == level_of(*event),
        line_view(r.line@) == line_of(*event),
        r.start_upload == starts_upload(*event),
{
    match event {
        RLEvent::UpdateState => {
            let line = vec![Segment::Text(text("UpdateState"))];
            assert(line_view(line@) =~= line_of(*event));
            Reaction { level: LogLevel::Debug, line, start_upload: false }
        },
        RLEvent::BallHit(d) => {
            let mut t = text("[BallHit] by=");
            if d.players.len() > 0 {
                t.append(d.players[0].name.as_str());
            } else {
                t.append("?");
            }
            t.append(" pre=");
            let line = vec![
                Segment::Text(t),
                Segment::Rounded(d.ball.pre_hit_speed),
                Segment::Text(text(" post=")),
                Segment::Rounded(d.ball.post_hit_speed),
            ];
            assert(line_view(line@) =~= line_of(*event));
            Reaction { level: LogLevel::Debug, line, start_upload: false }
        },
        RLEvent::CrossbarHit(d) => {
            let line = vec![Segment::Text(text("[CrossbarHit] speed=")), Segment::Rounded(d.ball_speed)];
            assert(line_view(line@) =~= line_of(*event));
            Reaction { level: LogLevel::Info, line, start_upload: false }
        },
        RLEvent::GoalScored(d) => {
            let mut t = text("[GoalScored] scorer=");
            t.append(d.scorer.name.as_str());
            t.append(" speed=");
            let line = vec![Segment::Text(t), Segment::Rounded(d.goal_speed)];
            assert(line_view(line@) =~= line_of(*event));
            Reaction { level: LogLevel::Info, line, start_upload: false }
        },
        RLEvent::StatfeedEvent(d) => {
            let mut t = text("[StatfeedEvent] ");
            t.append(d.main_target.name.as_str());
            t.append(" -> ");
            t.append(d.event_name.as_str());
            let line = vec![Segment::Text(t)];
            assert(line_view(line@) =~= line_of(*event));
            Reaction { level: LogLevel::Info, line, start_upload: false }
        },
        RLEvent::MatchEnded(d) => {
            let mut t = text("[MatchEnded] guid=");
            t.append(d.match_guid.as_str());
            t.append(" winner_team=");
            push_int(&mut t, d.winner_team_num);
            let line = vec![Segment::Text(t)];
            assert(line_view(line@) =~= line_of(*event));
            Reaction { level: LogLevel::Info, line, start_upload: true }
        },
        RLEvent::ClockUpdatedSeconds(d) => {
            let mut t = text("[ClockUpdatedSeconds] time=");
            push_int(&mut t, d.time_seconds);
            t.append("s overtime=");
            push_bool(&mut t, d.overtime);
            let line = vec![Segment::Text(t)];
            assert(line_view(line@) =~= line_of(*event));
            Reaction { level: LogLevel::Debug, line, start_upload: false }
        },
        RLEvent::Unknown { event: name } => {
            let mut t = text("[Unknown] event=");
            t.append(name.as_str());
            let line = vec![Segment::Text(t)];
            assert(line_view(line@) =~= line_of(*event));
            Reaction { level: LogLevel::Warn, line, start_upload: false }
        },
        RLEvent::MatchCreated(d) => Reaction {
            level: LogLevel::Info,
            line: guid_line(EventKind::MatchCreated, d),
            start_upload: false,
        },
        RLEvent::MatchInitialized(d) => Reaction {
            level: LogLevel::Info,
            line: guid_line(EventKind::MatchInitialized, d),
            start_upload: false,
        },
        RLEvent::MatchDestroyed(d) => Reaction {
            level: LogLevel::Info,
            line: guid_line(EventKind::MatchDestroyed, d),
            start_upload: false,
        },
        RLEvent::MatchPaused(d) => Reaction {
            level: LogLevel::Info,
            line: guid_line(EventKind::MatchPaused, d),
            start_upload: false,
        },
        RLEvent::MatchUnpaused(d) => Reaction {
            level: LogLevel::Info,
            line: guid_line(EventKind::MatchUnpaused, d),
            start_upload: false,
        },
        RLEvent::CountdownBegin(d) => Reaction {
            level: LogLevel::Info,
            line: guid_line(EventKind::CountdownBegin, d),
            start_upload: false,
        },
        RLEvent::RoundStarted(d) => Reaction {
            level: LogLevel::Info,
            line: guid_line(EventKind::RoundStarted, d),
            start_upload: false,
        },
        RLEvent::GoalReplayStart(d) => Reaction {
            level: LogLevel::Info,
            line: guid_line(EventKind::GoalReplayStart, d),
            start_upload: false,
        },
        RLEvent::ReplayWillEnd(d) => Reaction {
            level: LogLevel::Info,
            line: guid_line(EventKind::ReplayWillEnd, d),
            start_upload: false,
        },
        RLEvent::GoalReplayEnd(d) => Reaction {
            level: LogLevel::Info,
            line: guid_line(EventKind::GoalReplayEnd, d),
            start_upload: false,
        },
        RLEvent::PodiumStart(d) => Reaction {
            level: LogLevel::Info,
            line: guid_line(EventKind::PodiumStart, d),
            start_upload: false,
        },
        RLEvent::ReplayCreated(d) => Reaction {
            level: LogLevel::Info,
            line: guid_line(EventKind::ReplayCreated, d),
            start_upload: false,
        },
    }
}

/// A match's end, and nothing else, starts the wait for a replay and its
/// upload: the event that an envelope with data becomes is of the kind its
/// name announces, and it starts an upload exactly when that name is
/// `MatchEnded`; a decoded `MatchEnded` always becomes that event.
pub proof fn only_match_end_uploads(name: Seq<char>, answer: Result<Payload, DecodeError>)
    requires
        payload_of(kind_of_name(name)) is Some,
    ensures
        decoded_event(kind_of_name(name), answer) matches Ok(e) ==> event_kind(e) == kind_of_name(
            name,
        ) && (starts_upload(e) <==> kind_of_name(name) == EventKind::MatchEnded),
        (kind_of_name(name) == EventKind::MatchEnded && answer is Ok && answer->Ok_0 is MatchEnded)
            ==> (decoded_event(kind_of_name(name), answer) is Ok && starts_upload(
            decoded_event(kind_of_name(name), answer)->Ok_0,
        )),
{
}

/// The text of a log line, with its numbers left out.
pub open spec fn line_texts(l: Seq<SegmentView>) -> Seq<char>
    decreases l.len(),
{
    if l.len() == 0 {
        Seq::empty()
    } else {
        (match l[0] {
            SegmentView::Text(t) => t,
            SegmentView::Rounded(_) => Seq::empty(),
        }) + line_texts(l.drop_first())
    }
}

/// The numbers of a log line, in order.
pub open spec fn line_numbers(l: Seq<SegmentView>) -> Seq<u64>
    decreases l.len(),
{
    if l.len() == 0 {
        Seq::empty()
    } else {
        (match l[0] {
            SegmentView::Text(_) => Seq::empty(),
            SegmentView::Rounded(b) => seq![b],
        }) + line_numbers(l.drop_first())
    }
}

/// How an event's log line begins.
pub open spec fn line_opening(e: RLEvent) -> Seq<char> {
    match e {
        RLEvent::UpdateState => "UpdateState"@,
        RLEvent::BallHit(_) => "[BallHit] by="@,
        RLEvent::CrossbarHit(_) => "[CrossbarHit] speed="@,
        RLEvent::GoalScored(_) => "[GoalScored] scorer="@,
        RLEvent::StatfeedEvent(_) => "[StatfeedEvent] "@,
        RLEvent::MatchEnded(_) => "[MatchEnded] guid="@,
        RLEvent::ClockUpdatedSeconds(_) => "[ClockUpdatedSeconds] time="@,
        RLEvent::Unknown { .. } => "[Unknown] event="@,
        RLEvent::MatchCreated(_) => "[MatchCreated] guid="@,
        RLEvent::MatchInitialized(_) => "[MatchInitialized] guid="@,
        RLEvent::MatchDestroyed(_) => "[MatchDestroyed] guid="@,
        RLEvent::MatchPaused(_) => "[MatchPaused] guid="@,
        RLEvent::MatchUnpaused(_) => "[MatchUnpaused] guid="@,
        RLEvent::CountdownBegin(_) => "[CountdownBegin] guid="@,
        RLEvent::RoundStarted(_) => "[RoundStarted] guid="@,
        RLEvent::GoalReplayStart(_) => "[GoalReplayStart] guid="@,
        RLEvent::ReplayWillEnd(_) => "[ReplayWillEnd] guid="@,
        RLEvent::GoalReplayEnd(_) => "[GoalReplayEnd] guid="@,
        RLEvent::PodiumStart(_) => "[PodiumStart] guid="@,
        RLEvent::ReplayCreated(_) => "[ReplayCreated] guid="@,
    }
}

/// How an event's log line ends.
pub open spec fn line_closing(e: RLEvent) -> Seq<char> {
    match e {
        RLEvent::MatchEnded(d) => " winner_team="@ + int_text(d.winner_team_num as int),
        RLEvent::ClockUpdatedSeconds(d) => "s overtime="@ + bool_text(d.overtime),
        RLEvent::StatfeedEvent(d) => d.event_name@,
        RLEvent::Unknown { event } => event@,
    RLEvent::MatchCreated(d) => d.match_guid@,
    RLEvent::MatchInitialized(d) => d.match_guid@,
    RLEvent::MatchDestroyed(d) => d.match_guid@,
    RLEvent::MatchPaused(d) => d.match_guid@,
    RLEvent::MatchUnpaused(d) => d.match_guid@,
    RLEvent::CountdownBegin(d) => d.match_guid@,
    RLEvent::RoundStarted(d) => d.match_guid@,
    RLEvent::GoalReplayStart(d) => d.match_guid@,
    RLEvent::ReplayWillEnd(d) => d.match_guid@,
    RLEvent::GoalReplayEnd(d) => d.match_guid@,
    RLEvent::PodiumStart(d) => d.match_guid@,
    RLEvent::ReplayCreated(d) => d.match_guid@,
        _ => Seq::<char>::empty(),
    }
}

/// Whether `p` is where `s` begins.
pub open spec fn begins_with(s: Seq<char>, p: Seq<char>) -> bool {
    p.len() <= s.len() && s.take(p.len() as int) == p
}

/// Whether `p` is where `s` ends.
pub open spec fn ends_with(s: Seq<char>, p: Seq<char>) -> bool {
    p.len() <= s.len() && s.skip(s.len() - p.len()) == p
}

/// The numbers a log line writes are the event's own speeds: the ball's speed
/// before and after a hit, the ball's speed at a crossbar hit, the goal's
/// speed (not its time); no other event writes a number.
pub proof fn log_line_numbers_are_speeds(e: RLEvent)
    ensures
        line_numbers(line_of(e)) == match e {
            RLEvent::BallHit(d) => seq![d.ball.pre_hit_speed.0, d.ball.post_hit_speed.0],
            RLEvent::CrossbarHit(d) => seq![d.ball_speed.0],
            RLEvent::GoalScored(d) => seq![d.goal_speed.0],
            _ => Seq::<u64>::empty(),
        },
{
    reveal_with_fuel(line_numbers, 5);
    let l = line_of(e);
    match e {
        RLEvent::BallHit(d) => {
            assert(l.drop_first().drop_first().drop_first().drop_first() =~= Seq::<SegmentView>::empty());
        },
        _ => {},
    }
}

/// Each log line begins with its event's tag.
pub proof fn log_line_opens_with_tag(e: RLEvent)
    ensures
        begins_with(line_texts(line_of(e)), line_opening(e)),
{
    reveal_with_fuel(line_texts, 5);
    let t = line_texts(line_of(e));
    let o = line_opening(e);
    match e {
        RLEvent::BallHit(d) => {
            assert(t =~= o + hitter_text(d) + " pre="@ + " post="@);
            assert(t.take(o.len() as int) =~= o);
        },
        RLEvent::GoalScored(d) => {
            assert(t =~= o + d.scorer.name@ + " speed="@);
            assert(t.take(o.len() as int) =~= o);
        },
        RLEvent::StatfeedEvent(d) => {
            assert(t =~= o + d.main_target.name@ + " -> "@ + d.event_name@);
            assert(t.take(o.len() as int) =~= o);
        },
        RLEvent::MatchEnded(d) => {
            assert(t =~= o + d.match_guid@ + " winner_team="@ + int_text(d.winner_team_num as int));
            assert(t.take(o.len() as int) =~= o);
        },
        RLEvent::ClockUpdatedSeconds(d) => {
            assert(t =~= o + int_text(d.time_seconds as int) + "s overtime="@ + bool_text(d.overtime));
            assert(t.take(o.len() as int) =~= o);
        },
        RLEvent::CrossbarHit(d) => {
            assert(t =~= o);
            assert(t.take(o.len() as int) =~= o);
        },
        RLEvent::UpdateState => {
            assert(t =~= o);
            assert(t.take(o.len() as int) =~= o);
        },
        RLEvent::Unknown { event } => {
            assert(t =~= o + event@);
            assert(t.take(o.len() as int) =~= o);
        },
        RLEvent::MatchCreated(d) => {
            reveal_strlit("MatchCreated");
            reveal_strlit("] guid=");
            reveal_strlit("[MatchCreated] guid=");
            assert(seq!['['] + name_text(EventKind::MatchCreated) + "] guid="@ =~= o);
            assert(t =~= o + d.match_guid@);
            assert(t.take(o.len() as int) =~= o);
        },
        RLEvent::MatchInitialized(d) => {
            reveal_strlit("MatchInitialized");
            reveal_strlit("] guid=");
            reveal_strlit("[MatchInitialized] guid=");
            assert(seq!['['] + name_text(EventKind::MatchInitialized) + "] guid="@ =~= o);
            assert(t =~= o + d.match_guid@);
            assert(t.take(o.len() as int) =~= o);
        },
        RLEvent::MatchDestroyed(d) => {
            reveal_strlit("MatchDestroyed");
            reveal_strlit("] guid=");
            reveal_strlit("[MatchDestroyed] guid=");
            assert(seq!['['] + name_text(EventKind::MatchDestroyed) + "] guid="@ =~= o);
            assert(t =~= o + d.match_guid@);
            assert(t.take(o.len() as int) =~= o);
        },
        RLEvent::MatchPaused(d) => {
            reveal_strlit("MatchPaused");
            reveal_strlit("] guid=");
            reveal_strlit("[MatchPaused] guid=");
            assert(seq!['['] + name_text(EventKind::MatchPaused) + "] guid="@ =~= o);
            assert(t =~= o + d.match_guid@);
            assert(t.take(o.len() as int) =~= o);
        },
        RLEvent::MatchUnpaused(d) => {
            reveal_strlit("MatchUnpaused");
            reveal_strlit("] guid=");
            reveal_strlit("[MatchUnpaused] guid=");
            assert(seq!['['] + name_text(EventKind::MatchUnpaused) + "] guid="@ =~= o);
            assert(t =~= o + d.match_guid@);
            assert(t.take(o.len() as int) =~= o);
        },
        RLEvent::CountdownBegin(d) => {
            reveal_strlit("CountdownBegin");
            reveal_strlit("] guid=");
            reveal_strlit("[CountdownBegin] guid=");
            assert(seq!['['] + name_text(EventKind::CountdownBegin) + "] guid="@ =~= o);
            assert(t =~= o + d.match_guid@);
            assert(t.take(o.len() as int) =~= o);
        },
        RLEvent::RoundStarted(d) => {
            reveal_strlit("RoundStarted");
            reveal_strlit("] guid=");
            reveal_strlit("[RoundStarted] guid=");
            assert(seq!['['] + name_text(EventKind::RoundStarted) + "] guid="@ =~= o);
            assert(t =~= o + d.match_guid@);
            assert(t.take(o.len() as int) =~= o);
        },
        RLEvent::GoalReplayStart(d) => {
            reveal_strlit("GoalReplayStart");
            reveal_strlit("] guid=");
            reveal_strlit("[GoalReplayStart] guid=");
            assert(seq!['['] + name_text(EventKind::GoalReplayStart) + "] guid="@ =~= o);
            assert(t =~= o + d.match_guid@);
            assert(t.take(o.len() as int) =~= o);
        },
        RLEvent::ReplayWillEnd(d) => {
            reveal_strlit("ReplayWillEnd");
            reveal_strlit("] guid=");
            reveal_strlit("[ReplayWillEnd] guid=");
            assert(seq!['['] + name_text(EventKind::ReplayWillEnd) + "] guid="@ =~= o);
            assert(t =~= o + d.match_guid@);
            assert(t.take(o.len() as int) =~= o);
        },
        RLEvent::GoalReplayEnd(d) => {
            reveal_strlit("GoalReplayEnd");
            reveal_strlit("] guid=");
            reveal_strlit("[GoalReplayEnd] guid=");
            assert(seq!['['] + name_text(EventKind::GoalReplayEnd) + "] guid="@ =~= o);
            assert(t =~= o + d.match_guid@);
            assert(t.take(o.len() as int) =~= o);
        },
        RLEvent::PodiumStart(d) => {
            reveal_strlit("PodiumStart");
            reveal_strlit("] guid=");
            reveal_strlit("[PodiumStart] guid=");
            assert(seq!['['] + name_text(EventKind::PodiumStart) + "] guid="@ =~= o);
            assert(t =~= o + d.match_guid@);
            assert(t.take(o.len() as int) =~= o);
        },
        RLEvent::ReplayCreated(d) => {
            reveal_strlit("ReplayCreated");
            reveal_strlit("] guid=");
            reveal_strlit("[ReplayCreated] guid=");
            assert(seq!['['] + name_text(EventKind::ReplayCreated) + "] guid="@ =~= o);
            assert(t =~= o + d.match_guid@);
            assert(t.take(o.len() as int) =~= o);
        },
    }
}

/// Each log line ends with what it reports: the winning team, the overtime
/// flag, the stat's name, the unknown event's name, or the match GUID.
pub proof fn log_line_closes_with_data(e: RLEvent)
    ensures
        ends_with(line_texts(line_of(e)), line_closing(e)),
{
    reveal_with_fuel(line_texts, 5);
    let t = line_texts(line_of(e));
    let c = line_closing(e);
    match e {
        RLEvent::StatfeedEvent(d) => {
            assert(t =~= "[StatfeedEvent] "@ + d.main_target.name@ + " -> "@ + c);
            assert(t.skip(t.len() - c.len()) =~= c);
        },
        RLEvent::MatchEnded(d) => {
            assert(t =~= "[MatchEnded] guid="@ + d.match_guid@ + c);
            assert(t.skip(t.len() - c.len()) =~= c);
        },
        RLEvent::ClockUpdatedSeconds(d) => {
            assert(t =~= "[ClockUpdatedSeconds] time="@ + int_text(d.time_seconds as int) + c);
            assert(t.skip(t.len() - c.len()) =~= c);
        },
        RLEvent::Unknown { event } => {
            assert(t =~= "[Unknown] event="@ + c);
            assert(t.skip(t.len() - c.len()) =~= c);
        },
        RLEvent::MatchCreated(d) => {
            reveal_strlit("[");
            assert(t =~= guid_text(EventKind::MatchCreated, d));
            assert(t.skip(t.len() - c.len()) =~= c);
        },
        RLEvent::MatchInitialized(d) => {
            reveal_strlit("[");
            assert(t =~= guid_text(EventKind::MatchInitialized, d));
            assert(t.skip(t.len() - c.len()) =~= c);
        },
        RLEvent::MatchDestroyed(d) => {
            reveal_strlit("[");
            assert(t =~= guid_text(EventKind::MatchDestroyed, d));
            assert(t.skip(t.len() - c.len()) =~= c);
        },
        RLEvent::MatchPaused(d) => {
            reveal_strlit("[");
            assert(t =~= guid_text(EventKind::MatchPaused, d));
            assert(t.skip(t.len() - c.len()) =~= c);
        },
        RLEvent::MatchUnpaused(d) => {
            reveal_strlit("[");
            assert(t =~= guid_text(EventKind::MatchUnpaused, d));
            assert(t.skip(t.len() - c.len()) =~= c);
        },
        RLEvent::CountdownBegin(d) => {
            reveal_strlit("[");
            assert(t =~= guid_text(EventKind::CountdownBegin, d));
            assert(t.skip(t.len() - c.len()) =~= c);
        },
        RLEvent::RoundStarted(d) => {
            reveal_strlit("[");
            assert(t =~= guid_text(EventKind::RoundStarted, d));
            assert(t.skip(t.len() - c.len()) =~= c);
        },
        RLEvent::GoalReplayStart(d) => {
            reveal_strlit("[");
            assert(t =~= guid_text(EventKind::GoalReplayStart, d));
            assert(t.skip(t.len() - c.len()) =~= c);
        },
        RLEvent::ReplayWillEnd(d) => {
            reveal_strlit("[");
            assert(t =~= guid_text(EventKind::ReplayWillEnd, d));
            assert(t.skip(t.len() - c.len()) =~= c);
        },
        RLEvent::GoalReplayEnd(d) => {
            reveal_strlit("[");
            assert(t =~= guid_text(EventKind::GoalReplayEnd, d));
            assert(t.skip(t.len() - c.len()) =~= c);
        },
        RLEvent::PodiumStart(d) => {
            reveal_strlit("[");
            assert(t =~= guid_text(EventKind::PodiumStart, d));
            assert(t.skip(t.len() - c.len()) =~= c);
        },
        RLEvent::ReplayCreated(d) => {
            reveal_strlit("[");
            assert(t =~= guid_text(EventKind::ReplayCreated, d));
            assert(t.skip(t.len() - c.len()) =~= c);
        },
        _ => {
            assert(c =~= Seq::<char>::empty());
            assert(t.skip(t.len() as int) =~= c);
        },
    }
}

/// After the tag, a log line names the event's player and data: the first
/// hitter, the scorer, the player credited with a stat, the match GUID of a
/// finished match, the remaining time of the clock.
pub proof fn log_line_names_the_player(e: RLEvent)
    ensures
        e matches RLEvent::BallHit(d) ==> begins_with(
            line_texts(line_of(e)).skip(line_opening(e).len() as int),
            (if d.players@.len() > 0 {
                d.players@[0].name@
            } else {
                "?"@
            }) + " pre="@,
        ),
        e matches RLEvent::GoalScored(d) ==> begins_with(
            line_texts(line_of(e)).skip(line_opening(e).len() as int),
            d.scorer.name@ + " speed="@,
        ),
        e matches RLEvent::StatfeedEvent(d) ==> begins_with(
            line_texts(line_of(e)).skip(line_opening(e).len() as int),
            d.main_target.name@ + " -> "@,
        ),
        e matches RLEvent::MatchEnded(d) ==> begins_with(
            line_texts(line_of(e)).skip(line_opening(e).len() as int),
            d.match_guid@ + " winner_team="@,
        ),
        e matches RLEvent::ClockUpdatedSeconds(d) ==> begins_with(
            line_texts(line_of(e)).skip(line_opening(e).len() as int),
            int_text(d.time_seconds as int) + "s overtime="@,
        ),
{
    reveal_with_fuel(line_texts, 5);
    let t = line_texts(line_of(e));
    let o = line_opening(e);
    match e {
        RLEvent::BallHit(d) => {
            let u = hitter_text(d) + " pre="@;
            assert(t =~= o + u + " post="@);
            assert(t.skip(o.len() as int).take(u.len() as int) =~= u);
        },
        RLEvent::GoalScored(d) => {
            let u = d.scorer.name@ + " speed="@;
            assert(t =~= o + u);
            assert(t.skip(o.len() as int).take(u.len() as int) =~= u);
        },
        RLEvent::StatfeedEvent(d) => {
            let u = d.main_target.name@ + " -> "@;
            assert(t =~= o + u + d.event_name@);
            assert(t.skip(o.len() as int).take(u.len() as int) =~= u);
        },
        RLEvent::MatchEnded(d) => {
            let u = d.match_guid@ + " winner_team="@;
            assert(t =~= o + u + int_text(d.winner_team_num as int));
            assert(t.skip(o.len() as int).take(u.len() as int) =~= u);
        },
        RLEvent::ClockUpdatedSeconds(d) => {
            let u = int_text(d.time_seconds as int) + "s overtime="@;
            assert(t =~= o + u + bool_text(d.overtime));
            assert(t.skip(o.len() as int).take(u.len() as int) =~= u);
        },
        _ => {},
    }
}

/// Only the end of a match starts an upload; unknown names are warned about,
/// the per-tick, per-touch and clock events are details, and every other
/// event is information.
pub proof fn levels_and_uploads(e: RLEvent)
    ensures
        starts_upload(e) <==> e is MatchEnded,
        level_of(e) == LogLevel::Warn <==> e is Unknown,
        level_of(e) == LogLevel::Debug <==> (e is UpdateState || e is BallHit
            || e is ClockUpdatedSeconds),
{
}

} // verus!
