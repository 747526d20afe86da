use dispatch_board::align::NameResolver;
use dispatch_board::model::{EventType, Player, Server, Station, SteamInfo, SteamPlayer, StopDescription, Train};
use dispatch_board::state::{wrap_index, Key, Refresh, State, Step};

fn server(code: &str) -> Server {
    Server { server_name: format!("Server {}", code), server_code: code.to_string(), is_active: true }
}

fn station(name: &str, prefix: &str, ids: &[&str]) -> Station {
    Station {
        name: name.to_string(),
        prefix: prefix.to_string(),
        dispatched_by: ids.iter().map(|i| Player { steam_id: i.to_string() }).collect(),
    }
}

fn three_servers() -> State {
    State::new(vec![server("en1"), server("en2"), server("de1")])
}

#[test]
fn cursor_up_from_first_row_wraps_to_last() {
    let mut s = three_servers();
    assert_eq!(s.cursor(-1), (false, true));
    assert_eq!(s.server_index, 2);
}

#[test]
fn cursor_down_from_last_row_wraps_to_first() {
    let mut s = three_servers();
    s.server_index = 2;
    assert_eq!(s.cursor(1), (false, true));
    assert_eq!(s.server_index, 0);
}

#[test]
fn cursor_wraps_modulo_length() {
    assert_eq!(wrap_index(1, 7, 3), 2);
    assert_eq!(wrap_index(0, -4, 3), 2);
    assert_eq!(wrap_index(2, isize::MIN, 3), 0);
    assert_eq!(wrap_index(0, isize::MAX, 2), 1);
    assert_eq!(wrap_index(0, 0, 1), 0);
}

#[test]
fn cursor_on_empty_list_is_harmless() {
    let mut s = State::new(vec![]);
    assert_eq!(s.cursor(-1), (false, true));
    assert_eq!(s.server_index, 0);
    assert_eq!(s.select(), (false, false));
    assert_eq!(s.step, Step::ServerSelection);
}

#[test]
fn select_walks_to_dispatch_screen() {
    let mut s = three_servers();
    s.cursor(1);
    assert_eq!(s.select(), (true, true));
    assert_eq!(s.step, Step::StationSelection);
    assert_eq!(s.selected_server, "en2");
    match s.refresh_plan() {
        Refresh::Stations(code) => assert_eq!(code, "en2"),
        _ => panic!("expected a station fetch"),
    }
    s.set_stations(vec![station("Zawiercie", "Z", &[]), station("Katowice", "KO", &["7"])]);
    assert_eq!(s.stations[0].name, "Katowice");
    assert_eq!(s.stations[1].name, "Zawiercie");
    assert_eq!(s.key_pressed(Key::Down), (false, true));
    assert_eq!(s.key_pressed(Key::Enter), (true, true));
    assert_eq!(s.step, Step::EDR);
    assert_eq!(s.selected_station.as_ref().map(|st| st.prefix.clone()), Some("Z".to_string()));
    match s.refresh_plan() {
        Refresh::Trains(code) => assert_eq!(code, "en2"),
        _ => panic!("expected a train fetch"),
    }
    assert_eq!(s.select(), (false, false));
    assert_eq!(s.cursor(1), (false, false));
}

#[test]
fn back_redraws_without_refresh() {
    let mut s = three_servers();
    assert_eq!(s.key_pressed(Key::Esc), (false, false));
    s.select();
    s.set_stations(vec![station("Katowice", "KO", &[])]);
    s.select();
    assert_eq!(s.step, Step::EDR);
    assert_eq!(s.back(), (false, true));
    assert_eq!(s.step, Step::StationSelection);
    assert_eq!(s.stations.len(), 1);
    assert_eq!(s.key_pressed(Key::Esc), (false, true));
    assert_eq!(s.step, Step::ServerSelection);
    assert!(matches!(s.refresh_plan(), Refresh::Servers));
}

#[test]
fn other_keys_do_nothing() {
    let mut s = three_servers();
    assert_eq!(s.key_pressed(Key::Other), (false, false));
    assert_eq!(s.server_index, 0);
    assert_eq!(s.step, Step::ServerSelection);
}

#[test]
fn set_servers_keeps_selection_in_range() {
    let mut s = three_servers();
    s.server_index = 2;
    s.set_servers(vec![server("pl1")]);
    assert_eq!(s.server_index, 0);
    s.set_servers(vec![server("pl1"), server("pl2")]);
    assert_eq!(s.server_index, 0);
}

#[test]
fn no_dispatchers_means_no_identity_fetch() {
    let mut s = three_servers();
    s.select();
    s.set_stations(vec![station("Katowice", "KO", &[]), station("Sosnowiec", "SG", &[])]);
    assert!(s.dispatcher_ids().is_empty());
    assert_eq!(s.get_player_name(Some(&"76561198000000000".to_string())), None);
    assert_eq!(s.get_player_name(None), None);
}

#[test]
fn dispatcher_ids_in_station_order() {
    let mut s = three_servers();
    s.set_stations(vec![station("B", "B", &["3", "4"]), station("A", "A", &["1"])]);
    assert_eq!(s.dispatcher_ids(), vec!["1".to_string(), "3".to_string(), "4".to_string()]);
}

#[test]
fn player_names_are_looked_up() {
    let mut s = three_servers();
    s.set_players(vec![
        SteamPlayer { steam_id: "1".to_string(), steam_info: vec![SteamInfo { personaname: "Ala".to_string() }] },
        SteamPlayer { steam_id: "2".to_string(), steam_info: vec![] },
        SteamPlayer { steam_id: "1".to_string(), steam_info: vec![SteamInfo { personaname: "Ola".to_string() }] },
    ]);
    assert_eq!(s.get_player_name(Some(&"1".to_string())), Some(&"Ala".to_string()));
    assert_eq!(s.get_player_name(Some(&"2".to_string())), None);
    assert_eq!(s.get_player_name(Some(&"3".to_string())), None);
}

#[test]
fn locate_records_nearest_station() {
    let mut s = three_servers();
    s.set_stations(vec![station("Alpha", "A", &[]), station("Bravo", "B", &[]), station("Charlie", "C", &[])]);
    let mut t = Train {
        train_name: "EIP".to_string(),
        train_no: "1".to_string(),
        t: "user".to_string(),
        start: String::new(),
        end: String::new(),
        vehicles: vec![],
        controlled_by_steam_id: None,
        loc: None,
    };
    assert_eq!(s.locate(&mut t, &vec![30, 10, 10]), Some(1));
    assert_eq!(t.loc, Some("Bravo".to_string()));
    let empty = State::new(vec![]);
    let mut u = Train { loc: None, ..t };
    assert_eq!(empty.locate(&mut u, &vec![]), None);
    assert_eq!(u.loc, None);
}

fn stop(name: &str, line: &str, arr: i64, planned_stop: Option<u64>) -> StopDescription {
    StopDescription {
        station: name.to_string(),
        line: line.to_string(),
        scheduled_arrival: arr,
        scheduled_departure: arr + 120,
        actual_arrival: None,
        actual_departure: None,
        platform: Some("1".to_string()),
        track: Some(12),
        planned_stop,
    }
}

#[test]
fn record_train_appends_feed_events() {
    let mut s = three_servers();
    s.select();
    s.set_stations(vec![station("Alpha", "A", &[]), station("Bravo", "B", &[]), station("Charlie", "C", &[])]);
    s.station_index = 2;
    s.select();
    assert_eq!(s.step, Step::EDR);
    let resolver = NameResolver {
        entries: vec![
            ("Alpha".to_string(), "A".to_string()),
            ("Bravo".to_string(), "B".to_string()),
            ("Charlie".to_string(), "C".to_string()),
        ],
    };
    let t = Train {
        train_name: "EIP".to_string(),
        train_no: "1".to_string(),
        t: "bot".to_string(),
        start: String::new(),
        end: String::new(),
        vehicles: vec![],
        controlled_by_steam_id: None,
        loc: None,
    };
    let tt = vec![stop("Alpha", "1", 1000, None), stop("Bravo", "2", 2000, None), stop("Charlie", "3", 3000, Some(1))];
    s.clear_events();
    s.record_train(&t, 1, &tt, &resolver);
    assert_eq!(s.events.len(), 2);
    assert_eq!(s.events[0].ty, EventType::Entering);
    assert_eq!(s.events[0].next, "1/12");
    assert_eq!(s.events[1].next, "Charlie/L.3");
    s.record_train(&t, 2, &tt, &resolver);
    assert_eq!(s.events.len(), 4);
    s.clear_events();
    assert!(s.events.is_empty());
}
