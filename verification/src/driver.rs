//! Driver attributes: pace offset, consistency, aggression and per-compound
//! degradation parameters.

use vstd::prelude::*;
use crate::tireset::{Compound, DegrPars};

verus! {

/// Degradation parameters for every compound, as loaded from the tire
/// configuration.
#[derive(Debug, Clone, Copy, PartialEq, Eq, Structural)]
pub struct DegrParsAll {
    pub soft: DegrPars,
    pub medium: DegrPars,
    pub hard: DegrPars,
    pub intermediate: DegrPars,
    pub wet: DegrPars,
}

impl DegrParsAll {
    pub open spec fn wf(self) -> bool {
        &&& self.soft.wf()
        &&& self.medium.wf()
        &&& self.hard.wf()
        &&& self.intermediate.wf()
        &&& self.wet.wf()
    }

    /// The entry for a compound.
    pub open spec fn spec_get(self, compound: Compound) -> DegrPars {
        match compound {
            Compound::Soft => self.soft,
            Compound::Medium => self.medium,
            Compound::Hard => self.hard,
            Compound::Intermediate => self.intermediate,
            Compound::Wet => self.wet,
        }
    }
}

/// Raw driver parameters, as read from the scenario input.
///
/// * `t_driver_ms` - (ms) lap-time loss due to driver abilities
/// * `consistency_milli` - lap-time noise is `(1000 - consistency) * 2` ms of
///   standard deviation
/// * `aggression_milli` - willingness to attack and to defend, in thousandths
/// * `vel_max_kmh` - (km/h) maximum qualifying speed
#[derive(Debug, Clone, PartialEq, Eq)]
pub struct DriverPars {
    pub initials: String,
    pub name: String,
    pub t_driver_ms: i64,
    pub consistency_milli: u32,
    pub aggression_milli: u32,
    pub vel_max_kmh: u32,
    pub degr_pars_all: DegrParsAll,
}

impl DriverPars {
    pub open spec fn wf(self) -> bool {
        &&& -1_000_000_000 <= self.t_driver_ms <= 1_000_000_000
        &&& self.consistency_milli <= 1000
        &&& self.aggression_milli <= 1000
        &&& self.degr_pars_all.wf()
    }
}

/// A driver record owned by the race and shared by its cars through an index.
#[derive(Debug, Clone, PartialEq, Eq)]
pub struct Driver {
    pub initials: String,
    pub name: String,
    pub t_driver_ms: i64,
    pub consistency_milli: u32,
    pub aggression_milli: u32,
    pub vel_max_kmh: u32,
    pub degr_pars_all: DegrParsAll,
}

impl Driver {
    pub open spec fn wf(self) -> bool {
        &&& -1_000_000_000 <= self.t_driver_ms <= 1_000_000_000
        &&& self.consistency_milli <= 1000
        &&& self.aggression_milli <= 1000
        &&& self.degr_pars_all.wf()
    }

    pub fn new(driver_pars: &DriverPars) -> (r: Driver)
        requires
            driver_pars.wf(),
        ensures
            r.wf(),
            r.initials@ == driver_pars.initials@,
            r.t_driver_ms == driver_pars.t_driver_ms,
            r.consistency_milli == driver_pars.consistency_milli,
            r.aggression_milli == driver_pars.aggression_milli,
            r.degr_pars_all == driver_pars.degr_pars_all,
    {
        Driver {
            initials: driver_pars.initials.clone(),
            name: driver_pars.name.clone(),
            t_driver_ms: driver_pars.t_driver_ms,
            consistency_milli: driver_pars.consistency_milli,
            aggression_milli: driver_pars.aggression_milli,
            vel_max_kmh: driver_pars.vel_max_kmh,
            degr_pars_all: driver_pars.degr_pars_all,
        }
    }

    /// The degradation parameters of this driver for the given compound.
    pub fn get_degr_pars(&self, compound: Compound) -> (r: DegrPars)
        ensures
            r == self.degr_pars_all.spec_get(compound),
    {
        match compound {
            Compound::Soft => self.degr_pars_all.soft,
            Compound::Medium => self.degr_pars_all.medium,
            Compound::Hard => self.degr_pars_all.hard,
            Compound::Intermediate => self.degr_pars_all.intermediate,
            Compound::Wet => self.degr_pars_all.wet,
        }
    }
}

} // verus!
