use vstd::prelude::*;

use crate::clock::{decimal, decimal_string};
use crate::model::{Event, EventType, EventView, StopDescription, Train};

verus! {

/// `"{station}/L.{line}"`.
pub open spec fn route_label(station: Seq<char>, line: Seq<char>) -> Seq<char> {
    station + "/L."@ + line
}

/// `"{platform}/{track}"` when the row names both, else `None`.
pub open spec fn platform_label(stop: StopDescription) -> Option<Seq<char>> {
    match (stop.platform, stop.track) {
        (Some(p), Some(t)) => Some(p@ + "/"@ + decimal(t as nat)),
        _ => None,
    }
}

/// `"{name} {number}"` of a train.
pub open spec fn train_label(train: Train) -> Seq<char> {
    train.train_name@ + " "@ + train.train_no@
}

/// Whether a person, rather than a bot, drives the train.
pub open spec fn human_driven(train: Train) -> bool {
    train.t@ != "bot"@
}

/// The row before `k`, or `k` itself on the first row.
pub open spec fn prev_index(k: int) -> int {
    if k == 0 { k } else { k - 1 }
}

/// The row after `k`, or `k` itself on the last row.
pub open spec fn next_index(k: int, len: int) -> int {
    if k + 1 == len { k } else { k + 1 }
}

/// The events that train `train` gives at row `k` of its timetable `tt`:
/// one `Passing` at a pass-through point, `Entering` then `Departing` at a
/// platform stop.
pub open spec fn stop_events(train: Train, tt: Seq<StopDescription>, k: int) -> Seq<EventView> {
    let stop = tt[k];
    let prev = tt[prev_index(k)];
    let next = tt[next_index(k, tt.len() as int)];
    if !stop.is_platform_stop() {
        seq![
            EventView {
                name: train_label(train),
                time: stop.actual_arrival,
                planned_time: stop.scheduled_arrival,
                ty: EventType::Passing,
                player: human_driven(train),
                prev: route_label(prev.station@, prev.line@),
                next: route_label(next.station@, stop.line@),
            },
        ]
    } else {
        seq![
            EventView {
                name: train_label(train),
                time: stop.actual_arrival,
                planned_time: stop.scheduled_arrival,
                ty: EventType::Entering,
                player: human_driven(train),
                prev: route_label(prev.station@, prev.line@),
                next: match platform_label(stop) {
                    Some(l) => l,
                    None => "Not a platform stop!"@,
                },
            },
            EventView {
                name: train_label(train),
                time: stop.actual_departure,
                planned_time: stop.scheduled_departure,
                ty: EventType::Departing,
                player: human_driven(train),
                prev: match platform_label(stop) {
                    Some(l) => l,
                    None => Seq::empty(),
                },
                next: route_label(next.station@, next.line@),
            },
        ]
    }
}

/// `"{station}/L.{line}"`.
pub fn route_label_string(station: &String, line: &String) -> (r: String)
    ensures
        r@ == route_label(station@, line@),
{
    let mut s = station.clone();
    s.append("/L.");
    s.append(line.as_str());
    s
}

/// `"{platform}/{track}"` of a row, when it names both.
pub fn platform_label_string(stop: &StopDescription) -> (r: Option<String>)
    ensures
        r matches Some(s) ==> platform_label(*stop) == Some(s@),
        r is None ==> platform_label(*stop) is None,
{
    match (&stop.platform, stop.track) {
        (Some(p), Some(t)) => {
            let mut s = p.clone();
            s.append("/");
            let d = decimal_string(t);
            s.append(d.as_str());
            Some(s)
        },
        _ => None,
    }
}

/// `"{name} {number}"` of a train.
pub fn train_label_string(train: &Train) -> (r: String)
    ensures
        r@ == train_label(*train),
{
    let mut s = train.train_name.clone();
    s.append(" ");
    s.append(train.train_no.as_str());
    s
}

/// Whether a person, rather than a bot, drives the train.
pub fn is_human_driven(train: &Train) -> (r: bool)
    ensures
        r == human_driven(*train),
{
    let bot = String::from_str("bot");
    !(train.t == bot)
}

/// The dispatch events of `train` at row `k` of its timetable. The rows
/// before and after `k` name where the train comes from and goes to; on the
/// first or the last row the row itself stands in for the missing one.
pub fn synthesize(train: &Train, timetable: &Vec<StopDescription>, k: usize) -> (r: Vec<Event>)
    requires
        k < timetable@.len(),
    ensures
        r@.map_values(|e: Event| e@) == stop_events(*train, timetable@, k as int),
        timetable@[k as int].is_platform_stop() ==> r@.len() == 2,
        !timetable@[k as int].is_platform_stop() ==> r@.len() == 1,
{
    let stop = &timetable[k];
    let prev = if k == 0 { &timetable[k] } else { &timetable[k - 1] };
    let next = if k == timetable.len() - 1 { &timetable[k] } else { &timetable[k + 1] };
    let player = is_human_driven(train);
    let platform = platform_label_string(stop);
    let is_stop = match stop.planned_stop {
        Some(n) => n != 0,
        None => false,
    };
    let mut out: Vec<Event> = Vec::new();
    if !is_stop {
        out.push(Event {
            name: train_label_string(train),
            time: stop.actual_arrival,
            planned_time: stop.scheduled_arrival,
            ty: EventType::Passing,
            player,
            prev: route_label_string(&prev.station, &prev.line),
            next: route_label_string(&next.station, &stop.line),
        });
    } else {
        let entering_next = match &platform {
            Some(l) => l.clone(),
            None => String::from_str("Not a platform stop!"),
        };
        let departing_prev = match platform {
            Some(l) => l,
            None => String::new(),
        };
        out.push(Event {
            name: train_label_string(train),
            time: stop.actual_arrival,
            planned_time: stop.scheduled_arrival,
            ty: EventType::Entering,
            player,
            prev: route_label_string(&prev.station, &prev.line),
            next: entering_next,
        });
        out.push(Event {
            name: train_label_string(train),
            time: stop.actual_departure,
            planned_time: stop.scheduled_departure,
            ty: EventType::Departing,
            player,
            prev: departing_prev,
            next: route_label_string(&next.station, &next.line),
        });
    }
    assert(out@.map_values(|e: Event| e@) =~= stop_events(*train, timetable@, k as int));
    out
}

/// A platform stop gives exactly an `Entering` and a `Departing` event; a
/// pass-through point gives exactly one `Passing` event.
pub proof fn lemma_event_kinds(train: Train, tt: Seq<StopDescription>, k: int)
    requires
        0 <= k < tt.len(),
    ensures
        tt[k].is_platform_stop() ==> stop_events(train, tt, k).len() == 2
            && stop_events(train, tt, k)[0].ty == EventType::Entering
            && stop_events(train, tt, k)[1].ty == EventType::Departing,
        !tt[k].is_platform_stop() ==> stop_events(train, tt, k).len() == 1
            && stop_events(train, tt, k)[0].ty == EventType::Passing,
{
}

/// On the first row the row itself stands for the previous one, and on the
/// last row for the next one.
pub proof fn lemma_boundary_rows(train: Train, tt: Seq<StopDescription>, k: int)
    requires
        0 <= k < tt.len(),
    ensures
        k == 0 ==> stop_events(train, tt, k)[0].prev == route_label(tt[k].station@, tt[k].line@),
        k == tt.len() - 1 ==> stop_events(train, tt, k).last().next == route_label(
            tt[k].station@,
            tt[k].line@,
        ),
{
}

} // verus!
