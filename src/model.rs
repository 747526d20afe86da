use vstd::prelude::*;

verus! {

/// A game server as the server directory lists it.
pub struct Server {
    pub server_name: String,
    pub server_code: String,
    pub is_active: bool,
}

/// A dispatcher identity attached to a station.
pub struct Player {
    pub steam_id: String,
}

/// Profile data of one identity.
pub struct SteamInfo {
    pub personaname: String,
}

/// One identity with its profile records.
pub struct SteamPlayer {
    pub steam_id: String,
    pub steam_info: Vec<SteamInfo>,
}

/// The answer of the identity directory.
pub struct SteamPlayers {
    pub players: Vec<SteamPlayer>,
}

/// A dispatch station. Its coordinates stay with the caller, which turns
/// them into distance keys (see `nearest`).
pub struct Station {
    pub name: String,
    pub prefix: String,
    pub dispatched_by: Vec<Player>,
}

/// A live train. `loc` is the name of the nearest station, set once per
/// refresh.
pub struct Train {
    pub train_name: String,
    pub train_no: String,
    pub t: String,
    pub start: String,
    pub end: String,
    pub vehicles: Vec<String>,
    pub controlled_by_steam_id: Option<String>,
    pub loc: Option<String>,
}

/// One row of a train's timetable. Times are seconds since the Unix epoch,
/// in UTC. A row with `planned_stop` present and not zero is a platform
/// stop; any other row is a pass-through point.
pub struct StopDescription {
    pub station: String,
    pub line: String,
    pub scheduled_arrival: i64,
    pub scheduled_departure: i64,
    pub actual_arrival: Option<i64>,
    pub actual_departure: Option<i64>,
    pub platform: Option<String>,
    pub track: Option<u64>,
    pub planned_stop: Option<u64>,
}

impl StopDescription {
    pub open spec fn is_platform_stop(&self) -> bool {
        self.planned_stop matches Some(n) && n != 0
    }
}

/// The kind of a dispatch event.
#[derive(PartialEq, Eq, Structural, Clone, Copy, Debug)]
pub enum EventType {
    Passing,
    Entering,
    Departing,
}

/// One derived dispatch occurrence.
pub struct Event {
    pub name: String,
    pub time: Option<i64>,
    pub planned_time: i64,
    pub ty: EventType,
    pub player: bool,
    pub prev: String,
    pub next: String,
}

/// What an `Event` holds, as mathematical values.
pub struct EventView {
    pub name: Seq<char>,
    pub time: Option<i64>,
    pub planned_time: i64,
    pub ty: EventType,
    pub player: bool,
    pub prev: Seq<char>,
    pub next: Seq<char>,
}

impl View for Event {
    type V = EventView;

    open spec fn view(&self) -> EventView {
        EventView {
            name: self.name@,
            time: self.time,
            planned_time: self.planned_time,
            ty: self.ty,
            player: self.player,
            prev: self.prev@,
            next: self.next@,
        }
    }
}

impl EventView {
    /// The actual time where it is known, else the planned time.
    pub open spec fn effective_time(self) -> i64 {
        match self.time {
            Some(t) => t,
            None => self.planned_time,
        }
    }
}

} // verus!
