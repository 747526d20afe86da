use vstd::prelude::*;

use crate::align::{train_events, train_feed, NameResolver};
use crate::model::{Event, Player, Server, Station, SteamPlayer, StopDescription, Train};
use crate::nearest::{is_first_least, nearest_index};

verus! {

broadcast use vstd::seq_lib::group_to_multiset_ensures;

/// The three screens of the dashboard.
#[allow(clippy::upper_case_acronyms)]
#[derive(PartialEq, Eq, Structural, Clone, Copy, Debug)]
pub enum Step {
    ServerSelection,
    StationSelection,
    EDR,
}

/// The keys the dashboard reacts to.
#[derive(PartialEq, Eq, Structural, Clone, Copy, Debug)]
pub enum Key {
    Enter,
    Up,
    Down,
    Esc,
    Other,
}

/// The fetch a refresh of the current screen needs.
pub enum Refresh {
    /// The server directory.
    Servers,
    /// The stations of the server with this code, then their dispatchers.
    Stations(String),
    /// The trains of the server with this code, then their timetables.
    Trains(String),
}

/// Code points of `a` are lexicographically at most those of `b`.
pub open spec fn lex_le(a: Seq<char>, b: Seq<char>) -> bool
    decreases a.len(),
{
    if a.len() == 0 {
        true
    } else if b.len() == 0 {
        false
    } else if a[0] != b[0] {
        (a[0] as u32) < (b[0] as u32)
    } else {
        lex_le(a.drop_first(), b.drop_first())
    }
}

/// Relies on `slice::sort_by` with `String`'s `Ord`: the elements are kept
/// and put in lexicographic order of the names' bytes, which in UTF-8 is
/// the order of their code points.
#[verifier::external_body]
fn sort_by_name(v: &mut Vec<Station>)
    ensures
        final(v)@.to_multiset() == old(v)@.to_multiset(),
        forall|i: int, j: int|
            0 <= i < j < final(v)@.len() ==> lex_le(final(v)@[i].name@, final(v)@[j].name@),
{
    v.sort_by(|a, b| a.name.cmp(&b.name))
}

/// The selection index after moving `delta` rows in a list of `len` rows,
/// wrapping round at either end.
pub open spec fn wrapped(index: int, delta: int, len: int) -> int {
    (index + delta) % len
}

/// A valid selection index for a list of `len` rows.
pub open spec fn index_ok(index: usize, len: nat) -> bool {
    if len == 0 { index == 0 } else { index < len }
}

/// The steam ids of all dispatchers of `stations`, station by station.
pub open spec fn dispatcher_ids_of(stations: Seq<Station>) -> Seq<Seq<char>>
    decreases stations.len(),
{
    if stations.len() == 0 {
        Seq::empty()
    } else {
        dispatcher_ids_of(stations.drop_last()) + stations.last().dispatched_by@.map_values(
            |p: Player| p.steam_id@,
        )
    }
}

/// The display name for `id` in `players`: that of the first player with
/// this id, where that player has a profile.
pub open spec fn player_name(players: Seq<SteamPlayer>, id: Seq<char>) -> Option<Seq<char>>
    decreases players.len(),
{
    if players.len() == 0 {
        None
    } else if players[0].steam_id@ == id {
        if players[0].steam_info@.len() > 0 {
            Some(players[0].steam_info@[0].personaname@)
        } else {
            None
        }
    } else {
        player_name(players.subrange(1, players.len() as int), id)
    }
}

/// Two stations with the same name, prefix and dispatchers.
pub open spec fn same_station(a: Station, b: Station) -> bool {
    &&& a.name@ == b.name@
    &&& a.prefix@ == b.prefix@
    &&& a.dispatched_by@.map_values(|p: Player| p.steam_id@) == b.dispatched_by@.map_values(
        |p: Player| p.steam_id@,
    )
}

impl Station {
    /// A copy of the station.
    pub fn duplicate(&self) -> (r: Station)
        ensures
            same_station(r, *self),
    {
        let mut by: Vec<Player> = Vec::new();
        let mut i: usize = 0;
        while i < self.dispatched_by.len()
            invariant
                i <= self.dispatched_by@.len(),
                by@.len() == i,
                forall|k: int| 0 <= k < i ==> by@[k].steam_id@ == self.dispatched_by@[k].steam_id@,
            decreases self.dispatched_by@.len() - i,
        {
            by.push(Player { steam_id: self.dispatched_by[i].steam_id.clone() });
            i = i + 1;
        }
        assert(by@.map_values(|p: Player| p.steam_id@) =~= self.dispatched_by@.map_values(
            |p: Player| p.steam_id@,
        ));
        Station { name: self.name.clone(), prefix: self.prefix.clone(), dispatched_by: by }
    }
}

/// The dashboard: the fetched lists, the selections and the screen shown.
pub struct State {
    pub servers: Vec<Server>,
    pub server_index: usize,
    pub selected_server: String,
    pub stations: Vec<Station>,
    pub station_index: usize,
    pub selected_station: Option<Station>,
    pub players: Vec<SteamPlayer>,
    pub step: Step,
    pub events: Vec<Event>,
}

impl State {
    /// Both selection indexes point into their lists (or are 0 on an empty
    /// list), and the dispatch screen has a station.
    pub open spec fn wf(&self) -> bool {
        &&& index_ok(self.server_index, self.servers@.len())
        &&& index_ok(self.station_index, self.stations@.len())
        &&& self.step == Step::EDR ==> self.selected_station is Some
    }

    /// The dashboard on its first screen, over the fetched servers.
    pub fn new(servers: Vec<Server>) -> (r: State)
        ensures
            r.wf(),
            r.servers@ == servers@,
            r.server_index == 0,
            r.selected_server@ == Seq::<char>::empty(),
            r.stations@.len() == 0,
            r.station_index == 0,
            r.selected_station is None,
            r.players@.len() == 0,
            r.step == Step::ServerSelection,
            r.events@.len() == 0,
    {
        State {
            servers,
            server_index: 0,
            selected_server: String::new(),
            stations: Vec::new(),
            station_index: 0,
            selected_station: None,
            players: Vec::new(),
            step: Step::ServerSelection,
            events: Vec::new(),
        }
    }

    /// Moves the selection of the screen shown by `delta` rows, wrapping
    /// round at either end. Asks for a redraw on the two selection screens;
    /// an empty list keeps its index.
    pub fn cursor(&mut self, delta: isize) -> (r: (bool, bool))
        requires
            old(self).wf(),
        ensures
            final(self).wf(),
            cursor_moved(*old(self), *final(self), delta as int, r),
    {
        match self.step {
            Step::ServerSelection => {
                let n = self.servers.len();
                if n > 0 {
                    self.server_index = wrap_index(self.server_index, delta, n);
                }
                (false, true)
            },
            Step::StationSelection => {
                let n = self.stations.len();
                if n > 0 {
                    self.station_index = wrap_index(self.station_index, delta, n);
                }
                (false, true)
            },
            Step::EDR => (false, false),
        }
    }

    /// Confirms the selection of the screen shown. On the server screen it
    /// takes the selected server's code and moves to the station screen; on
    /// the station screen it takes the selected station and moves to the
    /// dispatch screen; both ask for a refresh of the data and a redraw.
    /// On the dispatch screen, or on an empty list, nothing happens.
    pub fn select(&mut self) -> (r: (bool, bool))
        requires
            old(self).wf(),
        ensures
            final(self).wf(),
            selected(*old(self), *final(self), r),
    {
        match self.step {
            Step::ServerSelection => {
                if self.servers.len() == 0 {
                    return (false, false);
                }
                self.selected_server = self.servers[self.server_index].server_code.clone();
                self.step = Step::StationSelection;
                (true, true)
            },
            Step::StationSelection => {
                if self.stations.len() == 0 {
                    return (false, false);
                }
                self.selected_station = Some(self.stations[self.station_index].duplicate());
                self.step = Step::EDR;
                (true, true)
            },
            Step::EDR => (false, false),
        }
    }

    /// Goes back one screen and asks for a redraw only: the lists fetched
    /// before stay valid. The server screen has nothing to go back to.
    pub fn back(&mut self) -> (r: (bool, bool))
        requires
            old(self).wf(),
        ensures
            final(self).wf(),
            went_back(*old(self), *final(self), r),
    {
        match self.step {
            Step::ServerSelection => (false, false),
            Step::StationSelection => {
                self.step = Step::ServerSelection;
                (false, true)
            },
            Step::EDR => {
                self.step = Step::StationSelection;
                (false, true)
            },
        }
    }

    /// Reacts to a key: Enter selects, Up and Down move the cursor by one
    /// row, Esc goes back; other keys do nothing. The result says whether
    /// the data must be refreshed and whether the screen must be redrawn.
    pub fn key_pressed(&mut self, key: Key) -> (r: (bool, bool))
        requires
            old(self).wf(),
        ensures
            final(self).wf(),
            key == Key::Enter ==> selected(*old(self), *final(self), r),
            key == Key::Up ==> cursor_moved(*old(self), *final(self), -1, r),
            key == Key::Down ==> cursor_moved(*old(self), *final(self), 1, r),
            key == Key::Esc ==> went_back(*old(self), *final(self), r),
            key == Key::Other ==> r == (false, false) && *final(self) == *old(self),
    {
        match key {
            Key::Enter => self.select(),
            Key::Up => self.cursor(-1),
            Key::Down => self.cursor(1),
            Key::Esc => self.back(),
            Key::Other => (false, false),
        }
    }

    /// The fetch that a refresh of the screen shown needs.
    pub fn refresh_plan(&self) -> (r: Refresh)
        ensures
            self.step == Step::ServerSelection ==> r is Servers,
            self.step == Step::StationSelection ==> (r matches Refresh::Stations(c) && c@
                == self.selected_server@),
            self.step == Step::EDR ==> (r matches Refresh::Trains(c) && c@ == self.selected_server@),
    {
        match self.step {
            Step::ServerSelection => Refresh::Servers,
            Step::StationSelection => Refresh::Stations(self.selected_server.clone()),
            Step::EDR => Refresh::Trains(self.selected_server.clone()),
        }
    }

    /// Replaces the server list. The selection stays where it still points
    /// into the list, else it goes to the first row.
    pub fn set_servers(&mut self, servers: Vec<Server>)
        requires
            old(self).wf(),
        ensures
            final(self).wf(),
            final(self).servers@ == servers@,
            old(self).server_index < servers@.len() ==> final(self).server_index == old(
                self,
            ).server_index,
            old(self).server_index >= servers@.len() ==> final(self).server_index == 0,
            final(self).step == old(self).step,
            final(self).stations@ == old(self).stations@,
            final(self).station_index == old(self).station_index,
    {
        if self.server_index >= servers.len() {
            self.server_index = 0;
        }
        self.servers = servers;
    }

    /// Replaces the station list, sorted by name. The selection stays where
    /// it still points into the list, else it goes to the first row.
    pub fn set_stations(&mut self, stations: Vec<Station>)
        requires
            old(self).wf(),
        ensures
            final(self).wf(),
            final(self).stations@.to_multiset() == stations@.to_multiset(),
            forall|i: int, j: int|
                0 <= i < j < final(self).stations@.len() ==> lex_le(
                    final(self).stations@[i].name@,
                    final(self).stations@[j].name@,
                ),
            old(self).station_index < stations@.len() ==> final(self).station_index == old(
                self,
            ).station_index,
            old(self).station_index >= stations@.len() ==> final(self).station_index == 0,
            final(self).step == old(self).step,
            final(self).servers@ == old(self).servers@,
            final(self).server_index == old(self).server_index,
    {
        let ghost given = stations@;
        let mut stations = stations;
        sort_by_name(&mut stations);
        proof {
            vstd::seq_lib::to_multiset_len(given);
            vstd::seq_lib::to_multiset_len(stations@);
        }
        if self.station_index >= stations.len() {
            self.station_index = 0;
        }
        self.stations = stations;
    }

    /// The steam ids of every station's dispatchers, in list order: what
    /// the identity directory is asked for. Empty where no station has a
    /// dispatcher, and the identity fetch is then skipped.
    pub fn dispatcher_ids(&self) -> (r: Vec<String>)
        ensures
            r@.map_values(|s: String| s@) == dispatcher_ids_of(self.stations@),
    {
        let mut out: Vec<String> = Vec::new();
        let mut i: usize = 0;
        while i < self.stations.len()
            invariant
                i <= self.stations@.len(),
                out@.map_values(|s: String| s@) == dispatcher_ids_of(
                    self.stations@.subrange(0, i as int),
                ),
            decreases self.stations@.len() - i,
        {
            let st = &self.stations[i];
            let ghost before = out@.map_values(|s: String| s@);
            let mut j: usize = 0;
            while j < st.dispatched_by.len()
                invariant
                    i < self.stations@.len(),
                    *st == self.stations@[i as int],
                    j <= st.dispatched_by@.len(),
                    out@.map_values(|s: String| s@) == before + st.dispatched_by@.subrange(
                        0,
                        j as int,
                    ).map_values(|p: Player| p.steam_id@),
                decreases st.dispatched_by@.len() - j,
            {
                let ghost prev_out = out@;
                out.push(st.dispatched_by[j].steam_id.clone());
                proof {
                    let y = st.dispatched_by@[j as int].steam_id@;
                    assert(out@.map_values(|s: String| s@) =~= prev_out.map_values(|s: String| s@).push(y));
                    assert(st.dispatched_by@.subrange(0, j + 1).map_values(|p: Player| p.steam_id@)
                        =~= st.dispatched_by@.subrange(0, j as int).map_values(|p: Player| p.steam_id@).push(y));
                    assert(out@.map_values(|s: String| s@) =~= before + st.dispatched_by@.subrange(
                        0,
                        j + 1,
                    ).map_values(|p: Player| p.steam_id@));
                }
                j = j + 1;
            }
            proof {
                let pre = self.stations@.subrange(0, i + 1);
                assert(pre.drop_last() =~= self.stations@.subrange(0, i as int));
                assert(st.dispatched_by@.subrange(0, j as int) =~= st.dispatched_by@);
            }
            i = i + 1;
        }
        proof {
            assert(self.stations@.subrange(0, i as int) =~= self.stations@);
        }
        out
    }

    /// Replaces the known identities.
    pub fn set_players(&mut self, players: Vec<SteamPlayer>)
        requires
            old(self).wf(),
        ensures
            final(self).wf(),
            final(self).players@ == players@,
            final(self).step == old(self).step,
            final(self).servers@ == old(self).servers@,
            final(self).stations@ == old(self).stations@,
            final(self).server_index == old(self).server_index,
            final(self).station_index == old(self).station_index,
    {
        self.players = players;
    }

    /// The display name of the identity `steam_id`: that of the first known
    /// player with this id, where it has a profile. `None` for no id.
    pub fn get_player_name(&self, steam_id: Option<&String>) -> (r: Option<&String>)
        ensures
            steam_id is None ==> r is None,
            steam_id matches Some(id) ==> (r matches Some(n) ==> player_name(self.players@, id@)
                == Some(n@)) && (r is None ==> player_name(self.players@, id@) is None),
    {
        match steam_id {
            None => None,
            Some(id) => {
                let mut i: usize = 0;
                assert(self.players@.subrange(0, self.players@.len() as int) =~= self.players@);
                while i < self.players.len()
                    invariant
                        steam_id == Some(id),
                        i <= self.players@.len(),
                        player_name(self.players@, id@) == player_name(
                            self.players@.subrange(i as int, self.players@.len() as int),
                            id@,
                        ),
                    decreases self.players@.len() - i,
                {
                    let ghost rest = self.players@.subrange(i as int, self.players@.len() as int);
                    assert(rest.subrange(1, rest.len() as int) =~= self.players@.subrange(
                        i + 1,
                        self.players@.len() as int,
                    ));
                    let p = &self.players[i];
                    assert(rest[0] == self.players@[i as int]);
                    if p.steam_id == *id {
                        if p.steam_info.len() > 0 {
                            return Some(&p.steam_info[0].personaname);
                        }
                        return None;
                    }
                    i = i + 1;
                }
                None
            },
        }
    }

    /// Empties the event list before a dispatch refresh fills it anew.
    pub fn clear_events(&mut self)
        requires
            old(self).wf(),
        ensures
            final(self).wf(),
            final(self).events@.len() == 0,
            final(self).step == old(self).step,
            final(self).servers@ == old(self).servers@,
            final(self).stations@ == old(self).stations@,
            final(self).selected_station == old(self).selected_station,
            final(self).server_index == old(self).server_index,
            final(self).station_index == old(self).station_index,
    {
        self.events.clear();
    }

    /// Finds the station nearest to `train`, given the distance key of each
    /// station in list order (a smaller key is a shorter distance), and
    /// records its name as the train's location. The first of equally near
    /// stations wins. `None`, with the train untouched, where there is no
    /// station.
    pub fn locate(&self, train: &mut Train, keys: &Vec<u64>) -> (r: Option<usize>)
        requires
            keys@.len() == self.stations@.len(),
        ensures
            r is None <==> self.stations@.len() == 0,
            r is None ==> *final(train) == *old(train),
            r matches Some(i) ==> {
                &&& is_first_least(keys@, i as int)
                &&& (final(train).loc matches Some(l) && l@ == self.stations@[i as int].name@)
                &&& final(train).train_name == old(train).train_name
                &&& final(train).train_no == old(train).train_no
                &&& final(train).t == old(train).t
                &&& final(train).controlled_by_steam_id == old(train).controlled_by_steam_id
            },
    {
        match nearest_index(keys) {
            Some(i) => {
                train.loc = Some(self.stations[i].name.clone());
                Some(i)
            },
            None => None,
        }
    }

    /// Adds the events of `train` at the dispatch station, given the index
    /// of its nearest station: the anchor is that station's prefix and the
    /// target the dispatch station's prefix, both matched against the
    /// timetable's rows through `resolver`.
    pub fn record_train(
        &mut self,
        train: &Train,
        nearest: usize,
        timetable: &Vec<StopDescription>,
        resolver: &NameResolver,
    )
        requires
            old(self).wf(),
            old(self).selected_station is Some,
            nearest < old(self).stations@.len(),
        ensures
            final(self).wf(),
            final(self).events@.map_values(|e: Event| e@) == old(self).events@.map_values(
                |e: Event| e@,
            ) + train_feed(
                *train,
                timetable@,
                old(self).stations@[nearest as int].prefix@,
                old(self).selected_station->Some_0.prefix@,
                *resolver,
            ),
            final(self).step == old(self).step,
            final(self).servers@ == old(self).servers@,
            final(self).stations@ == old(self).stations@,
            final(self).selected_station == old(self).selected_station,
            final(self).server_index == old(self).server_index,
            final(self).station_index == old(self).station_index,
    {
        let target = match &self.selected_station {
            Some(st) => &st.prefix,
            None => {
                return;
            },
        };
        let mut found = train_events(train, timetable, &self.stations[nearest].prefix, target, resolver);
        let ghost pre = self.events@.map_values(|e: Event| e@);
        let ghost add = found@.map_values(|e: Event| e@);
        self.events.append(&mut found);
        assert(self.events@.map_values(|e: Event| e@) =~= pre + add);
    }
}

/// `after` is `before` with the cursor moved by `delta`; `r` is the result.
pub open spec fn cursor_moved(before: State, after: State, delta: int, r: (bool, bool)) -> bool {
    &&& after.step == before.step
    &&& keeps_data(after, before)
    &&& before.step == Step::ServerSelection ==> {
        &&& r == (false, true)
        &&& after.station_index == before.station_index
        &&& before.servers@.len() > 0 ==> after.server_index == wrapped(
            before.server_index as int,
            delta,
            before.servers@.len() as int,
        )
        &&& before.servers@.len() == 0 ==> after.server_index == before.server_index
    }
    &&& before.step == Step::StationSelection ==> {
        &&& r == (false, true)
        &&& after.server_index == before.server_index
        &&& before.stations@.len() > 0 ==> after.station_index == wrapped(
            before.station_index as int,
            delta,
            before.stations@.len() as int,
        )
        &&& before.stations@.len() == 0 ==> after.station_index == before.station_index
    }
    &&& before.step == Step::EDR ==> {
        &&& r == (false, false)
        &&& after.server_index == before.server_index
        &&& after.station_index == before.station_index
    }
}

/// `after` is `before` once the selection is confirmed; `r` is the result.
pub open spec fn selected(before: State, after: State, r: (bool, bool)) -> bool {
    &&& after.servers@ == before.servers@
    &&& after.stations@ == before.stations@
    &&& after.players@ == before.players@
    &&& after.events@ == before.events@
    &&& after.server_index == before.server_index
    &&& after.station_index == before.station_index
    &&& before.step == Step::ServerSelection && before.servers@.len() > 0 ==> {
        &&& r == (true, true)
        &&& after.step == Step::StationSelection
        &&& after.selected_server@ == before.servers@[before.server_index as int].server_code@
        &&& after.selected_station == before.selected_station
    }
    &&& before.step == Step::StationSelection && before.stations@.len() > 0 ==> {
        &&& r == (true, true)
        &&& after.step == Step::EDR
        &&& after.selected_server@ == before.selected_server@
        &&& (after.selected_station matches Some(st) && same_station(
            st,
            before.stations@[before.station_index as int],
        ))
    }
    &&& (before.step == Step::EDR || (before.step == Step::ServerSelection
        && before.servers@.len() == 0) || (before.step == Step::StationSelection
        && before.stations@.len() == 0)) ==> {
        &&& r == (false, false)
        &&& after.step == before.step
        &&& keeps_data(after, before)
    }
}

/// `after` is `before` gone back one screen; `r` is the result.
pub open spec fn went_back(before: State, after: State, r: (bool, bool)) -> bool {
    &&& keeps_data(after, before)
    &&& after.server_index == before.server_index
    &&& after.station_index == before.station_index
    &&& before.step == Step::EDR ==> r == (false, true) && after.step == Step::StationSelection
    &&& before.step == Step::StationSelection ==> r == (false, true) && after.step
        == Step::ServerSelection
    &&& before.step == Step::ServerSelection ==> r == (false, false) && after.step
        == Step::ServerSelection
}

/// The two states hold the same lists, selections and events.
pub open spec fn keeps_data(a: State, b: State) -> bool {
    &&& a.servers@ == b.servers@
    &&& a.selected_server@ == b.selected_server@
    &&& a.stations@ == b.stations@
    &&& a.selected_station == b.selected_station
    &&& a.players@ == b.players@
    &&& a.events@ == b.events@
}

/// `index` moved by `delta` in a list of `len` rows, wrapping round.
pub fn wrap_index(index: usize, delta: isize, len: usize) -> (r: usize)
    requires
        len > 0,
        index < len,
    ensures
        r as int == wrapped(index as int, delta as int, len as int),
        r < len,
{
    let n = len as u128;
    if delta >= 0 {
        let m = (index as u128 + delta as u128) % n;
        m as usize
    } else {
        let k = (-(delta as i128)) as u128;
        let back = k % n;
        let m = (index as u128 + n - back) % n;
        proof {
            let x = index as int + delta as int;
            vstd::arithmetic::div_mod::lemma_fundamental_div_mod(k as int, n as int);
            vstd::arithmetic::div_mod::lemma_mod_multiples_vanish(k as int / n as int + 1, x, n as int);
            let q = k as int / n as int;
            assert(index as int + n - back == n * (q + 1) + x) by (nonlinear_arith)
                requires
                    k == n * q + back,
                    x == index as int - k,
            {
            }
        }
        m as usize
    }
}

/// Moving up from the first row lands on the last, and moving down from the
/// last row lands on the first.
pub proof fn lemma_cursor_wraps(len: int)
    requires
        len > 0,
    ensures
        wrapped(0, -1, len) == len - 1,
        wrapped(len - 1, 1, len) == 0,
{
    vstd::arithmetic::div_mod::lemma_mod_self_0(len);
    vstd::arithmetic::div_mod::lemma_mod_multiples_vanish(1, -1, len);
    vstd::arithmetic::div_mod::lemma_small_mod((len - 1) as nat, len as nat);
}

/// With no identity known, no steam id has a display name.
pub proof fn lemma_no_players_no_names(id: Seq<char>)
    ensures
        player_name(Seq::empty(), id) is None,
{
}

} // verus!
