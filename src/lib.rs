//! The dispatch engine behind a train-dispatch dashboard: it matches live
//! trains to their nearest station, places them in their timetables,
//! derives the passing, entering and departing events at the dispatch
//! station, orders them by time, and drives the three-screen navigation.
use vstd::prelude::*;

pub mod align;
pub mod clock;
pub mod events;
pub mod model;
pub mod nearest;
pub mod order;
pub mod state;

verus! {

} // verus!
