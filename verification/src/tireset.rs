//! Compound-parameterized tire degradation over stint age.
//!
//! Ages are thousandths of a lap ("milli-laps"); degradation parameters and
//! results are milliseconds of lap time.

use vstd::prelude::*;

verus! {

/// Cap on the lap-time loss a tire set can cause, in milliseconds.
pub const TIRE_PENALTY_CAP_MS: i64 = 25_000;

/// Ages saturate here so that wear arithmetic stays bounded.
pub const AGE_CAP_MILLILAPS: u64 = 100_000_000;

/// The five tire compounds.
#[derive(Debug, Clone, Copy, PartialEq, Eq, Structural)]
pub enum Compound {
    Soft,
    Medium,
    Hard,
    Intermediate,
    Wet,
}

impl Compound {
    /// True for the dry-weather compounds.
    pub open spec fn spec_is_slick(self) -> bool {
        self == Compound::Soft || self == Compound::Medium || self == Compound::Hard
    }

    /// True for the dry-weather compounds.
    pub fn is_slick(&self) -> (r: bool)
        ensures
            r == self.spec_is_slick(),
    {
        match self {
            Compound::Soft => true,
            Compound::Medium => true,
            Compound::Hard => true,
            Compound::Intermediate => false,
            Compound::Wet => false,
        }
    }
}

/// Degradation model variants.
#[derive(Debug, Clone, Copy, PartialEq, Eq, Structural)]
pub enum DegrModel {
    Lin,
    NonlinWithCliff,
}

/// Per-compound degradation parameters.
///
/// * `k_0` - (ms) offset for fresh tires
/// * `k_1_lin` - (ms/lap) linear degradation slope
/// * `k_1_scale_milli` - slope scale in thousandths
/// * `cliff_age_millilaps` - stint age where the cliff regime begins
/// * `k_2_cliff` - (ms/lap^2) quadratic cliff coefficient
/// * `base_offset_ms` - (ms) compound pace offset, negative for faster compounds
#[derive(Debug, Clone, Copy, PartialEq, Eq, Structural)]
pub struct DegrPars {
    pub degr_model: DegrModel,
    pub k_0: i64,
    pub k_1_lin: u64,
    pub k_1_scale_milli: u64,
    pub cliff_age_millilaps: u64,
    pub k_2_cliff: u64,
    pub base_offset_ms: i64,
}

impl DegrPars {
    /// Parameter ranges under which all degradation arithmetic is exact.
    pub open spec fn wf(self) -> bool {
        &&& -1_000_000_000 <= self.k_0 <= 1_000_000_000
        &&& self.k_1_lin <= 1_000_000
        &&& self.k_1_scale_milli <= 10_000
        &&& self.cliff_age_millilaps <= AGE_CAP_MILLILAPS
        &&& self.k_2_cliff <= 1_000_000
        &&& -1_000_000_000 <= self.base_offset_ms <= 1_000_000_000
    }
}

/// The quadratic cliff penalty beyond `cliff_age`; only the whole tire delta
/// is capped, not this term.
pub open spec fn spec_cliff_penalty(k_2: u64, cliff_age: u64, age: u64) -> int {
    if age > cliff_age {
        k_2 * (age - cliff_age) * (age - cliff_age) / 1_000_000
    } else {
        0
    }
}

/// Lap-time loss of a tire set of stint age `age` (milli-laps), capped at the
/// tire penalty cap.
pub open spec fn spec_tire_degr(p: DegrPars, age: u64) -> int {
    let lin = match p.degr_model {
        DegrModel::Lin => p.k_1_lin * p.k_1_scale_milli * age / 1_000_000,
        DegrModel::NonlinWithCliff => p.k_1_lin * age / 1_000,
    };
    let total = p.base_offset_ms + p.k_0 + lin + spec_cliff_penalty(
        p.k_2_cliff,
        p.cliff_age_millilaps,
        age,
    );
    if total > TIRE_PENALTY_CAP_MS as int {
        TIRE_PENALTY_CAP_MS as int
    } else {
        total
    }
}

/// A tire set owned by one car: compound plus total and current-stint age.
#[derive(Debug, Clone, Copy, PartialEq, Eq, Structural)]
pub struct Tireset {
    pub compound: Compound,
    pub age_tot_millilaps: u64,
    pub age_cur_stint_millilaps: u64,
}

impl Tireset {
    /// Stint age never exceeds total age and ages stay below the saturation cap.
    pub open spec fn wf(self) -> bool {
        &&& self.age_cur_stint_millilaps <= self.age_tot_millilaps
        &&& self.age_tot_millilaps <= AGE_CAP_MILLILAPS
    }

    /// A fresh set: both ages start at the configured start age.
    pub fn new(compound: Compound, age_start_laps: u32) -> (r: Tireset)
        requires
            age_start_laps <= 100_000,
        ensures
            r.wf(),
            r.compound == compound,
            r.age_tot_millilaps == age_start_laps * 1000,
            r.age_cur_stint_millilaps == age_start_laps * 1000,
    {
        Tireset {
            compound,
            age_tot_millilaps: (age_start_laps as u64) * 1000,
            age_cur_stint_millilaps: (age_start_laps as u64) * 1000,
        }
    }

    /// Ages the set by one lap times the wear factor, saturating at the age
    /// cap. The stint age never decreases.
    pub fn drive_lap(&mut self, wear_factor_milli: u64)
        requires
            old(self).wf(),
            1000 <= wear_factor_milli <= 10_000,
        ensures
            final(self).wf(),
            final(self).compound == old(self).compound,
            final(self).age_cur_stint_millilaps == if old(self).age_cur_stint_millilaps
                + wear_factor_milli <= AGE_CAP_MILLILAPS {
                old(self).age_cur_stint_millilaps + wear_factor_milli
            } else {
                AGE_CAP_MILLILAPS as int
            },
            final(self).age_tot_millilaps == if old(self).age_tot_millilaps + wear_factor_milli
                <= AGE_CAP_MILLILAPS {
                old(self).age_tot_millilaps + wear_factor_milli
            } else {
                AGE_CAP_MILLILAPS as int
            },
            final(self).age_cur_stint_millilaps >= old(self).age_cur_stint_millilaps,
    {
        if self.age_cur_stint_millilaps <= AGE_CAP_MILLILAPS - wear_factor_milli {
            self.age_cur_stint_millilaps = self.age_cur_stint_millilaps + wear_factor_milli;
        } else {
            self.age_cur_stint_millilaps = AGE_CAP_MILLILAPS;
        }
        if self.age_tot_millilaps <= AGE_CAP_MILLILAPS - wear_factor_milli {
            self.age_tot_millilaps = self.age_tot_millilaps + wear_factor_milli;
        } else {
            self.age_tot_millilaps = AGE_CAP_MILLILAPS;
        }
    }

    /// Current lap-time loss due to tire degradation.
    pub fn t_add_tireset(&self, degr_pars: &DegrPars) -> (r: i64)
        requires
            self.wf(),
            degr_pars.wf(),
        ensures
            r == spec_tire_degr(*degr_pars, self.age_cur_stint_millilaps),
            r <= TIRE_PENALTY_CAP_MS,
            r >= -2_000_000_000,
    {
        self.calc_tire_degr(degr_pars)
    }

    /// Degradation delta from the stint age: compound offset plus the linear
    /// term plus the quadratic cliff, capped.
    fn calc_tire_degr(&self, p: &DegrPars) -> (r: i64)
        requires
            self.wf(),
            p.wf(),
        ensures
            r == spec_tire_degr(*p, self.age_cur_stint_millilaps),
    {
        let age: u64 = self.age_cur_stint_millilaps;

        let lin: u64 = match p.degr_model {
            DegrModel::Lin => {
                assert(p.k_1_lin * p.k_1_scale_milli <= 10_000_000_000 && p.k_1_lin
                    * p.k_1_scale_milli * age <= 1_000_000_000_000_000_000) by (nonlinear_arith)
                    requires
                        p.k_1_lin <= 1_000_000,
                        p.k_1_scale_milli <= 10_000,
                        age <= AGE_CAP_MILLILAPS,
                ;
                p.k_1_lin * p.k_1_scale_milli * age / 1_000_000
            },
            DegrModel::NonlinWithCliff => {
                assert(p.k_1_lin * age <= 100_000_000_000_000) by (nonlinear_arith)
                    requires
                        p.k_1_lin <= 1_000_000,
                        age <= AGE_CAP_MILLILAPS,
                ;
                p.k_1_lin * age / 1_000
            },
        };

        let cliff: u64 = if age > p.cliff_age_millilaps {
            let over: u64 = age - p.cliff_age_millilaps;
            assert(p.k_2_cliff * over <= 100_000_000_000_000 && p.k_2_cliff * over * over
                <= 10_000_000_000_000_000_000_000 && p.k_2_cliff * over * over / 1_000_000
                <= 10_000_000_000_000_000) by (nonlinear_arith)
                requires
                    p.k_2_cliff <= 1_000_000,
                    over <= AGE_CAP_MILLILAPS,
            ;
            let prod: u128 = (p.k_2_cliff as u128) * (over as u128) * (over as u128);
            (prod / 1_000_000) as u64
        } else {
            0
        };

        let total: i64 = p.base_offset_ms + p.k_0 + lin as i64 + cliff as i64;
        if total > TIRE_PENALTY_CAP_MS {
            TIRE_PENALTY_CAP_MS
        } else {
            total
        }
    }
}

} // verus!
