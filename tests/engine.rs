use dispatch_board::align::{align, train_events, NameResolver};
use dispatch_board::clock::clock_string;
use dispatch_board::events::synthesize;
use dispatch_board::model::{Event, EventType, StopDescription, Train};
use dispatch_board::nearest::nearest_index;
use dispatch_board::order::sort_events;

const DAY: i64 = 1_699_920_000;

fn at(h: i64, m: i64) -> i64 {
    DAY + h * 3600 + m * 60
}

fn row(name: &str, line: &str, arr: i64, dep: i64) -> StopDescription {
    StopDescription {
        station: name.to_string(),
        line: line.to_string(),
        scheduled_arrival: arr,
        scheduled_departure: dep,
        actual_arrival: None,
        actual_departure: None,
        platform: None,
        track: None,
        planned_stop: None,
    }
}

fn train(t: &str) -> Train {
    Train {
        train_name: "ROJ".to_string(),
        train_no: "40123".to_string(),
        t: t.to_string(),
        start: "Alpha".to_string(),
        end: "Delta".to_string(),
        vehicles: vec![],
        controlled_by_steam_id: None,
        loc: None,
    }
}

fn resolver() -> NameResolver {
    NameResolver {
        entries: vec![
            ("Alpha".to_string(), "A".to_string()),
            ("Bravo".to_string(), "B".to_string()),
            ("Charlie".to_string(), "C".to_string()),
            ("Delta".to_string(), "D".to_string()),
        ],
    }
}

fn timetable(platform_stop: bool) -> Vec<StopDescription> {
    let mut c = row("Charlie", "9", at(10, 5), at(10, 8));
    if platform_stop {
        c.planned_stop = Some(1);
        c.platform = Some("3".to_string());
        c.track = Some(2);
    }
    vec![
        row("Alpha", "1", at(9, 40), at(9, 41)),
        row("Bravo", "4", at(9, 55), at(9, 56)),
        c,
        row("Delta", "7", at(10, 20), at(10, 21)),
    ]
}

fn event(time: Option<i64>, planned: i64, name: &str) -> Event {
    Event {
        name: name.to_string(),
        time,
        planned_time: planned,
        ty: EventType::Passing,
        player: false,
        prev: String::new(),
        next: String::new(),
    }
}

#[test]
fn nearest_of_one_station_is_that_station() {
    assert_eq!(nearest_index(&vec![12345]), Some(0));
    assert_eq!(nearest_index(&vec![0]), Some(0));
}

#[test]
fn nearest_keeps_first_on_tie() {
    assert_eq!(nearest_index(&vec![9, 4, 7, 4]), Some(1));
    assert_eq!(nearest_index(&vec![5, 5]), Some(0));
    assert_eq!(nearest_index(&vec![8, 3, 2]), Some(2));
}

#[test]
fn nearest_of_no_station_is_none() {
    assert_eq!(nearest_index(&vec![]), None);
}

#[test]
fn align_finds_first_rows_by_key() {
    let tt = timetable(false);
    let r = resolver();
    assert_eq!(align(&tt, &"B".to_string(), &"C".to_string(), &r), Some((1, 2)));
    assert_eq!(align(&tt, &"X".to_string(), &"C".to_string(), &r), None);
    let partial = NameResolver { entries: vec![("Charlie".to_string(), "C".to_string())] };
    assert_eq!(align(&tt, &"B".to_string(), &"C".to_string(), &partial), None);
}

#[test]
fn platform_stop_scenario() {
    let tt = timetable(true);
    let ev = train_events(&train("user"), &tt, &"B".to_string(), &"C".to_string(), &resolver());
    assert_eq!(ev.len(), 2);
    assert_eq!(ev[0].ty, EventType::Entering);
    assert_eq!(ev[0].planned_time, at(10, 5));
    assert_eq!(ev[0].time, None);
    assert_eq!(ev[0].get_time(), "10:05");
    assert_eq!(ev[0].prev, "Bravo/L.4");
    assert_eq!(ev[0].next, "3/2");
    assert_eq!(ev[1].ty, EventType::Departing);
    assert_eq!(ev[1].planned_time, at(10, 8));
    assert_eq!(ev[1].get_time(), "10:08");
    assert_eq!(ev[1].prev, "3/2");
    assert_eq!(ev[1].next, "Delta/L.7");
    assert_eq!(ev[0].name, "ROJ 40123");
    assert!(ev[0].player && ev[1].player);
}

#[test]
fn pass_through_scenario() {
    let tt = timetable(false);
    let ev = train_events(&train("bot"), &tt, &"B".to_string(), &"C".to_string(), &resolver());
    assert_eq!(ev.len(), 1);
    assert_eq!(ev[0].ty, EventType::Passing);
    assert_eq!(ev[0].prev, "Bravo/L.4");
    assert_eq!(ev[0].next, "Delta/L.9");
    assert_eq!(ev[0].get_time(), "10:05");
    assert!(!ev[0].player);
}

#[test]
fn passed_train_gives_no_event() {
    let tt = timetable(true);
    let ev = train_events(&train("user"), &tt, &"D".to_string(), &"C".to_string(), &resolver());
    assert!(ev.is_empty());
}

#[test]
fn anchor_at_target_gives_events() {
    let tt = timetable(false);
    let ev = train_events(&train("user"), &tt, &"C".to_string(), &"C".to_string(), &resolver());
    assert_eq!(ev.len(), 1);
}

#[test]
fn platform_stop_without_platform_has_fallback_labels() {
    let mut tt = timetable(false);
    tt[2].planned_stop = Some(2);
    let ev = synthesize(&train("user"), &tt, 2);
    assert_eq!(ev.len(), 2);
    assert_eq!(ev[0].next, "Not a platform stop!");
    assert_eq!(ev[1].prev, "");
}

#[test]
fn planned_stop_zero_is_pass_through() {
    let mut tt = timetable(false);
    tt[2].planned_stop = Some(0);
    assert_eq!(synthesize(&train("user"), &tt, 2).len(), 1);
}

#[test]
fn actual_time_replaces_scheduled() {
    let mut tt = timetable(true);
    tt[2].actual_arrival = Some(at(10, 7));
    tt[2].actual_departure = Some(at(10, 11));
    let ev = synthesize(&train("user"), &tt, 2);
    assert_eq!(ev[0].time, Some(at(10, 7)));
    assert_eq!(ev[0].planned_time, at(10, 5));
    assert_eq!(ev[0].get_time(), "10:07");
    assert_eq!(ev[1].time, Some(at(10, 11)));
    assert_eq!(ev[1].planned_time, at(10, 8));
}

#[test]
fn first_row_stands_for_previous() {
    let tt = timetable(false);
    let ev = synthesize(&train("user"), &tt, 0);
    assert_eq!(ev[0].prev, "Alpha/L.1");
    assert_eq!(ev[0].next, "Bravo/L.1");
}

#[test]
fn last_row_stands_for_next() {
    let mut tt = timetable(false);
    tt[3].planned_stop = Some(1);
    let ev = synthesize(&train("user"), &tt, 3);
    assert_eq!(ev.len(), 2);
    assert_eq!(ev[0].prev, "Charlie/L.9");
    assert_eq!(ev[1].next, "Delta/L.7");
}

#[test]
fn single_row_timetable_is_its_own_neighbour() {
    let tt = vec![row("Alpha", "1", at(8, 0), at(8, 0))];
    let ev = synthesize(&train("user"), &tt, 0);
    assert_eq!(ev[0].prev, "Alpha/L.1");
    assert_eq!(ev[0].next, "Alpha/L.1");
}

#[test]
fn sorting_sorted_events_keeps_them() {
    let mut v = vec![
        event(None, at(9, 0), "a"),
        event(Some(at(9, 30)), at(9, 10), "b"),
        event(None, at(10, 0), "c"),
    ];
    sort_events(&mut v);
    let names: Vec<&str> = v.iter().map(|e| e.name.as_str()).collect();
    assert_eq!(names, vec!["a", "b", "c"]);
}

#[test]
fn sorting_orders_by_effective_time() {
    let mut v = vec![
        event(None, at(11, 0), "late"),
        event(Some(at(8, 0)), at(12, 0), "early"),
        event(None, at(9, 0), "mid"),
        event(None, at(9, 0), "mid2"),
    ];
    sort_events(&mut v);
    let names: Vec<&str> = v.iter().map(|e| e.name.as_str()).collect();
    assert_eq!(names, vec!["early", "mid", "mid2", "late"]);
}

#[test]
fn sorting_empty_list() {
    let mut v: Vec<Event> = vec![];
    sort_events(&mut v);
    assert!(v.is_empty());
}

#[test]
fn compare_time_uses_effective_time() {
    let a = event(Some(at(9, 0)), at(10, 0), "a");
    let b = event(None, at(9, 30), "b");
    assert_eq!(a.compare_time(&b), std::cmp::Ordering::Less);
    assert_eq!(b.compare_time(&a), std::cmp::Ordering::Greater);
    assert_eq!(a.compare_time(&a), std::cmp::Ordering::Equal);
}

#[test]
fn clock_formats_hours_and_minutes() {
    assert_eq!(clock_string(0), "00:00");
    assert_eq!(clock_string(at(10, 5)), "10:05");
    assert_eq!(clock_string(at(23, 59) + 59), "23:59");
    assert_eq!(clock_string(-60), "23:59");
}

#[test]
fn resolver_takes_first_entry() {
    let r = NameResolver {
        entries: vec![
            ("Alpha".to_string(), "A1".to_string()),
            ("Alpha".to_string(), "A2".to_string()),
        ],
    };
    assert_eq!(r.resolve(&"Alpha".to_string()), Some(&"A1".to_string()));
    assert_eq!(r.resolve(&"Beta".to_string()), None);
}
