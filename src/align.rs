use vstd::prelude::*;

use crate::events::{stop_events, synthesize};
use crate::model::{Event, EventView, Station, StopDescription, Train};

verus! {

/// A read-only table from a station name, as a data source writes it, to
/// the canonical key (the prefix) of that station. Where a name is listed
/// more than once, its first entry counts.
pub struct NameResolver {
    pub entries: Vec<(String, String)>,
}

/// The key of `name` in `entries`: the key of its first entry.
pub open spec fn lookup(entries: Seq<(String, String)>, name: Seq<char>) -> Option<Seq<char>>
    decreases entries.len(),
{
    if entries.len() == 0 {
        None
    } else if entries[0].0@ == name {
        Some(entries[0].1@)
    } else {
        lookup(entries.subrange(1, entries.len() as int), name)
    }
}

impl NameResolver {
    pub open spec fn key_of(&self, name: Seq<char>) -> Option<Seq<char>> {
        lookup(self.entries@, name)
    }

    /// The table that maps each station's name to its prefix, in list order.
    pub fn from_stations(stations: &Vec<Station>) -> (r: NameResolver)
        ensures
            r.entries@.len() == stations@.len(),
            forall|i: int|
                0 <= i < stations@.len() ==> r.entries@[i].0@ == stations@[i].name@
                    && r.entries@[i].1@ == stations@[i].prefix@,
    {
        let mut entries: Vec<(String, String)> = Vec::new();
        let mut i: usize = 0;
        while i < stations.len()
            invariant
                i <= stations@.len(),
                entries@.len() == i,
                forall|k: int|
                    0 <= k < i ==> entries@[k].0@ == stations@[k].name@ && entries@[k].1@
                        == stations@[k].prefix@,
            decreases stations@.len() - i,
        {
            entries.push((stations[i].name.clone(), stations[i].prefix.clone()));
            i = i + 1;
        }
        NameResolver { entries }
    }

    /// The key of `name`, or `None` where the table does not list it.
    pub fn resolve(&self, name: &String) -> (r: Option<&String>)
        ensures
            r matches Some(k) ==> self.key_of(name@) == Some(k@),
            r is None ==> self.key_of(name@) is None,
    {
        let mut i: usize = 0;
        assert(self.entries@.subrange(0, self.entries@.len() as int) =~= self.entries@);
        while i < self.entries.len()
            invariant
                i <= self.entries@.len(),
                lookup(self.entries@, name@) == lookup(
                    self.entries@.subrange(i as int, self.entries@.len() as int),
                    name@,
                ),
            decreases self.entries@.len() - i,
        {
            let ghost rest = self.entries@.subrange(i as int, self.entries@.len() as int);
            assert(rest.subrange(1, rest.len() as int) =~= self.entries@.subrange(
                i + 1,
                self.entries@.len() as int,
            ));
            if self.entries[i].0 == *name {
                return Some(&self.entries[i].1);
            }
            i = i + 1;
        }
        None
    }
}

/// Row `i` of `tt` resolves to `key`.
pub open spec fn row_has_key(tt: Seq<StopDescription>, resolver: NameResolver, i: int, key: Seq<char>) -> bool {
    resolver.key_of(tt[i].station@) == Some(key)
}

/// `i` is the first row of `tt` that resolves to `key`.
pub open spec fn is_first_row(tt: Seq<StopDescription>, resolver: NameResolver, i: int, key: Seq<char>) -> bool {
    &&& 0 <= i < tt.len()
    &&& row_has_key(tt, resolver, i, key)
    &&& forall|j: int| 0 <= j < i ==> !row_has_key(tt, resolver, j, key)
}

/// Some row of `tt` resolves to `key`.
pub open spec fn has_row(tt: Seq<StopDescription>, resolver: NameResolver, key: Seq<char>) -> bool {
    exists|i: int| 0 <= i < tt.len() && row_has_key(tt, resolver, i, key)
}

/// The first row of `timetable` that resolves to `key`.
pub fn find_row(timetable: &Vec<StopDescription>, key: &String, resolver: &NameResolver) -> (r: Option<usize>)
    ensures
        r is None <==> !has_row(timetable@, *resolver, key@),
        r matches Some(i) ==> is_first_row(timetable@, *resolver, i as int, key@),
{
    let mut i: usize = 0;
    while i < timetable.len()
        invariant
            i <= timetable@.len(),
            forall|j: int| 0 <= j < i ==> !row_has_key(timetable@, *resolver, j, key@),
        decreases timetable@.len() - i,
    {
        match resolver.resolve(&timetable[i].station) {
            Some(k) => {
                if *k == *key {
                    assert(row_has_key(timetable@, *resolver, i as int, key@));
                    return Some(i);
                }
            },
            None => {},
        }
        i = i + 1;
    }
    None
}

/// Places a train in its timetable: the first row that resolves to the
/// anchor key (the nearest station) and the first that resolves to the
/// target key (the dispatch station). `None` where either is missing.
pub fn align(
    timetable: &Vec<StopDescription>,
    anchor: &String,
    target: &String,
    resolver: &NameResolver,
) -> (r: Option<(usize, usize)>)
    ensures
        r is Some <==> has_row(timetable@, *resolver, anchor@) && has_row(timetable@, *resolver, target@),
        r matches Some((a, t)) ==> is_first_row(timetable@, *resolver, a as int, anchor@)
            && is_first_row(timetable@, *resolver, t as int, target@),
{
    match find_row(timetable, anchor, resolver) {
        Some(a) => match find_row(timetable, target, resolver) {
            Some(t) => Some((a, t)),
            None => None,
        },
        None => None,
    }
}

/// What a train contributes to the dispatch feed: the events at the target
/// row, where the train can be placed and has not passed that row yet.
pub open spec fn train_feed(
    train: Train,
    tt: Seq<StopDescription>,
    anchor: Seq<char>,
    target: Seq<char>,
    resolver: NameResolver,
) -> Seq<EventView> {
    if has_row(tt, resolver, anchor) && has_row(tt, resolver, target) {
        let a = choose|i: int| is_first_row(tt, resolver, i, anchor);
        let t = choose|i: int| is_first_row(tt, resolver, i, target);
        if a <= t {
            stop_events(train, tt, t)
        } else {
            Seq::empty()
        }
    } else {
        Seq::empty()
    }
}

/// The first row with a key is unique.
pub proof fn lemma_first_row_unique(tt: Seq<StopDescription>, resolver: NameResolver, i: int, j: int, key: Seq<char>)
    requires
        is_first_row(tt, resolver, i, key),
        is_first_row(tt, resolver, j, key),
    ensures
        i == j,
{
}

/// The events of `train` for the dispatch station `target`, given that its
/// nearest station has key `anchor`.
pub fn train_events(
    train: &Train,
    timetable: &Vec<StopDescription>,
    anchor: &String,
    target: &String,
    resolver: &NameResolver,
) -> (r: Vec<Event>)
    ensures
        r@.map_values(|e: Event| e@) == train_feed(*train, timetable@, anchor@, target@, *resolver),
        r@.len() <= 2,
{
    match align(timetable, anchor, target, resolver) {
        Some((a, t)) => {
            proof {
                let ca = choose|i: int| is_first_row(timetable@, *resolver, i, anchor@);
                let ct = choose|i: int| is_first_row(timetable@, *resolver, i, target@);
                lemma_first_row_unique(timetable@, *resolver, a as int, ca, anchor@);
                lemma_first_row_unique(timetable@, *resolver, t as int, ct, target@);
            }
            if a <= t {
                synthesize(train, timetable, t)
            } else {
                let out: Vec<Event> = Vec::new();
                assert(out@.map_values(|e: Event| e@) =~= Seq::<EventView>::empty());
                out
            }
        },
        None => {
            let out: Vec<Event> = Vec::new();
            assert(out@.map_values(|e: Event| e@) =~= Seq::<EventView>::empty());
            out
        },
    }
}

/// A train whose nearest station lies past the dispatch station in its
/// timetable gives no event.
pub proof fn lemma_passed_train_gives_nothing(
    train: Train,
    tt: Seq<StopDescription>,
    anchor: Seq<char>,
    target: Seq<char>,
    resolver: NameResolver,
    a: int,
    t: int,
)
    requires
        is_first_row(tt, resolver, a, anchor),
        is_first_row(tt, resolver, t, target),
        a > t,
    ensures
        train_feed(train, tt, anchor, target, resolver) == Seq::<EventView>::empty(),
{
    let ca = choose|i: int| is_first_row(tt, resolver, i, anchor);
    let ct = choose|i: int| is_first_row(tt, resolver, i, target);
    lemma_first_row_unique(tt, resolver, a, ca, anchor);
    lemma_first_row_unique(tt, resolver, t, ct, target);
}

} // verus!
