//! Race results: lap and race-time matrices, the event log and the per-car
//! identification needed for post-processing.

use vstd::prelude::*;

verus! {

/// Car number and driver initials, paired for reporting.
#[derive(Debug, Clone, PartialEq, Eq)]
pub struct CarDriverPair {
    pub car_no: u32,
    pub driver_initials: String,
}

/// Weather regimes.
#[derive(Debug, Clone, Copy, PartialEq, Eq, Structural)]
pub enum WeatherState {
    Dry,
    Rain,
}

/// The discrete race events the simulation records.
#[derive(Debug, Clone, Copy, PartialEq, Eq, Structural)]
pub enum EventKind {
    Crash,
    EngineFailure,
    WeatherRainStart,
    WeatherDryStart,
    ScDeployed,
    ScIn,
}

/// One entry of the event log.
#[derive(Debug, Clone, PartialEq, Eq)]
pub struct RaceEvent {
    pub kind: EventKind,
    /// Leader lap at the moment of the event, 1-based.
    pub lap: u32,
    /// Race time at the moment of the event.
    pub time_ms: u64,
    /// The car numbers involved, e.g. both cars of a crash.
    pub cars: Vec<u32>,
}

/// Everything post-processing needs: matrices indexed `[car][lap]` with lap 0
/// unused, the event log and the final safety-car state.
#[derive(Debug, Clone)]
pub struct RaceResult {
    pub tot_no_laps: u32,
    pub car_driver_pairs: Vec<CarDriverPair>,
    pub laptimes: Vec<Vec<u64>>,
    pub racetimes: Vec<Vec<u64>>,
    pub sc_active: bool,
    pub sc_position_mm: u64,
    pub weather_history: Vec<WeatherState>,
    pub events: Vec<RaceEvent>,
}

/// An element-exact copy of a time matrix.
pub fn copy_matrix(x: &Vec<Vec<u64>>) -> (r: Vec<Vec<u64>>)
    ensures
        r@.len() == x@.len(),
        forall|i: int| 0 <= i < x@.len() ==> (#[trigger] r@[i])@ == x@[i]@,
{
    let mut r: Vec<Vec<u64>> = Vec::new();
    let mut i: usize = 0;
    while i < x.len()
        invariant
            i <= x@.len(),
            r@.len() == i,
            forall|k: int| 0 <= k < i ==> (#[trigger] r@[k])@ == x@[k]@,
        decreases x@.len() - i,
    {
        let row: &Vec<u64> = &x[i];
        let mut new_row: Vec<u64> = Vec::new();
        let mut j: usize = 0;
        while j < row.len()
            invariant
                j <= row@.len(),
                new_row@.len() == j,
                forall|k: int| 0 <= k < j ==> new_row@[k] == row@[k],
            decreases row@.len() - j,
        {
            new_row.push(row[j]);
            j = j + 1;
        }
        proof {
            assert(new_row@ =~= row@);
        }
        r.push(new_row);
        i = i + 1;
    }
    r
}

} // verus!
