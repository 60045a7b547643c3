//! Car state: tire set, fuel, pit strategy, damage and status, plus the per-lap
//! bookkeeping (tire wear, engine failure, fuel burn).

use vstd::prelude::*;
use crate::driver::Driver;
use crate::state_handler::StateHandler;
use crate::tireset::{Compound, Tireset};

verus! {

/// Upper bound on strategy length; weather scheduling never grows a strategy
/// past it.
pub const STRATEGY_CAP: usize = 100_000;

/// Running or retired.
#[derive(Debug, Clone, Copy, PartialEq, Eq, Structural)]
pub enum CarStatus {
    Running,
    DNF,
}

/// One pit-stop entry of a strategy.
///
/// * `inlap` - the lap at whose end the car comes in (0 carries the start
///   compound and start driver)
/// * `tire_start_age_laps` - age of the set mounted at this stop
/// * `compound` - the compound mounted; `None` leaves the tires untouched
/// * `driver_initials` - only read on the start entry
/// * `refuel_mass_g` - (g) refuel amount; the engine does not refuel
#[derive(Debug, Clone, PartialEq, Eq)]
pub struct StrategyEntry {
    pub inlap: u32,
    pub tire_start_age_laps: u32,
    pub compound: Option<Compound>,
    pub driver_initials: String,
    pub refuel_mass_g: u64,
}

/// Raw car parameters, as read from the scenario input.
#[derive(Debug, Clone, PartialEq, Eq)]
pub struct CarPars {
    pub car_no: u32,
    pub color: String,
    pub t_car_ms: i64,
    pub b_fuel_per_lap_g: u64,
    pub m_fuel_g: u64,
    pub t_pit_refuel_per_kg_ms: Option<u64>,
    pub t_pit_tirechange_ms: u64,
    pub pit_location_mm: u64,
    pub strategy: Vec<StrategyEntry>,
    pub p_grid: u32,
}

/// First strategy entry whose inlap matches, scanning front to back.
pub open spec fn spec_find_entry(s: Seq<StrategyEntry>, inlap: u32) -> Option<StrategyEntry>
    decreases s.len(),
{
    if s.len() == 0 {
        None
    } else if s[0].inlap == inlap {
        Some(s[0])
    } else {
        spec_find_entry(s.drop_first(), inlap)
    }
}

/// Index of the first strategy entry whose inlap matches.
pub open spec fn spec_find_entry_idx(s: Seq<StrategyEntry>, inlap: u32) -> int
    decreases s.len(),
{
    if s.len() == 0 {
        -1
    } else if s[0].inlap == inlap {
        0
    } else {
        let rest = spec_find_entry_idx(s.drop_first(), inlap);
        if rest == -1 {
            -1
        } else {
            rest + 1
        }
    }
}

proof fn lemma_find_entry(s: Seq<StrategyEntry>, inlap: u32)
    ensures
        spec_find_entry_idx(s, inlap) >= -1,
        spec_find_entry_idx(s, inlap) == -1 ==> spec_find_entry(s, inlap) is None && forall|j: int|
            0 <= j < s.len() ==> (#[trigger] s[j]).inlap != inlap,
        spec_find_entry_idx(s, inlap) >= 0 ==> {
            let i = spec_find_entry_idx(s, inlap);
            &&& i < s.len()
            &&& s[i].inlap == inlap
            &&& spec_find_entry(s, inlap) == Some(s[i])
            &&& forall|j: int| 0 <= j < i ==> (#[trigger] s[j]).inlap != inlap
        },
    decreases s.len(),
{
    if s.len() > 0 && s[0].inlap != inlap {
        let rest = s.drop_first();
        lemma_find_entry(rest, inlap);
        let ri = spec_find_entry_idx(rest, inlap);
        if ri == -1 {
            assert(spec_find_entry_idx(s, inlap) == -1);
            assert(spec_find_entry(s, inlap) is None);
            assert forall|j: int| 0 <= j < s.len() implies (#[trigger] s[j]).inlap != inlap by {
                if j >= 1 {
                    assert(s[j] == rest[j - 1]);
                }
            }
        } else {
            let i = ri + 1;
            assert(spec_find_entry_idx(s, inlap) == i);
            assert(0 <= ri < rest.len());
            assert(rest =~= s.subrange(1, s.len() as int));
            assert(rest[ri] == s.subrange(1, s.len() as int)[ri]);
            assert(s[i] == rest[ri]);
            assert(spec_find_entry(s, inlap) == Some(s[i]));
            assert forall|j: int| 0 <= j < i implies (#[trigger] s[j]).inlap != inlap by {
                if j >= 1 {
                    assert(s[j] == rest[j - 1]);
                }
            }
        }
    }
}

pub open spec fn strategy_wf(s: Seq<StrategyEntry>) -> bool {
    &&& s.len() <= STRATEGY_CAP
    &&& forall|k: int| 0 <= k < s.len() ==> (#[trigger] s[k]).tire_start_age_laps <= 100_000
}

impl CarPars {
    pub open spec fn wf(self) -> bool {
        &&& -1_000_000_000 <= self.t_car_ms <= 1_000_000_000
        &&& self.b_fuel_per_lap_g <= 1_000_000_000
        &&& self.m_fuel_g <= 1_000_000_000
        &&& self.t_pit_tirechange_ms <= 1_000_000_000
        &&& self.pit_location_mm <= 100_000_000
        &&& 1 <= self.p_grid <= 1000
        &&& strategy_wf(self.strategy@)
        &&& self.strategy@.len() >= 1
        &&& self.strategy@[0].compound is Some
    }
}

/// A competitor, exclusively owned by the race.
#[derive(Debug)]
pub struct Car {
    pub car_no: u32,
    pub color: String,
    pub status: CarStatus,
    pub t_car_ms: i64,
    pub m_fuel_g: u64,
    pub b_fuel_per_lap_g: u64,
    pub t_pit_refuel_per_kg_ms: Option<u64>,
    pub t_pit_tirechange_ms: u64,
    pub pit_location_mm: u64,
    pub strategy: Vec<StrategyEntry>,
    pub p_grid: u32,
    /// Index of this car's driver in the race's driver table.
    pub driver_idx: usize,
    pub sh: StateHandler,
    pub tireset: Tireset,
    pub dirty_air_wear_factor_milli: u64,
    pub last_slick_compound: Option<Compound>,
    pub damage_penalty_ms: u64,
}

/// Weather-dependent lap-time penalty for a compound, in milliseconds: slicks
/// suffer heavily in rain, rain tires pay a small price, and rain tires on a
/// dry track pay five seconds.
pub open spec fn spec_weather_penalty(compound: Compound, is_wet: bool) -> int {
    if is_wet {
        if compound.spec_is_slick() {
            42_000
        } else if compound == Compound::Intermediate {
            12_000
        } else {
            14_000
        }
    } else {
        if compound.spec_is_slick() {
            0
        } else {
            5_000
        }
    }
}

/// The car-dependent part of the theoretical lap time: car pace, driver pace,
/// tire degradation, fuel-mass effect, weather penalty and accumulated damage.
pub open spec fn spec_basic_timeloss(
    car: Car,
    driver: Driver,
    s_mass_us_per_kg: u64,
    is_wet: bool,
) -> int {
    car.t_car_ms + driver.t_driver_ms + crate::tireset::spec_tire_degr(
        driver.degr_pars_all.spec_get(car.tireset.compound),
        car.tireset.age_cur_stint_millilaps,
    ) + car.m_fuel_g * s_mass_us_per_kg / 1_000_000 + spec_weather_penalty(
        car.tireset.compound,
        is_wet,
    ) + car.damage_penalty_ms
}

/// Per-lap engine failure probability in ppm: the exponential hazard
/// `1 - exp(-rate * laptime)` in its linear small-hazard form, clamped to one;
/// the lap time enters clamped so that the product stays within machine range.
/// The linear form slightly overstates the exponential at large hazards (a few
/// percent at several failures per hour) and saturates at one where the
/// exponential only approaches it.
pub open spec fn spec_failure_p_ppm(failure_rate_per_hour_ppm: u32, lap_time_ms: u64) -> int {
    let lap = if lap_time_ms > 4_000_000_000 {
        4_000_000_000int
    } else {
        lap_time_ms as int
    };
    let p = failure_rate_per_hour_ppm * lap / 3_600_000;
    if p > 1_000_000 {
        1_000_000
    } else {
        p
    }
}

impl Car {
    pub open spec fn wf(self) -> bool {
        &&& -1_000_000_000 <= self.t_car_ms <= 1_000_000_000
        &&& self.m_fuel_g <= 1_000_000_000
        &&& self.b_fuel_per_lap_g <= 1_000_000_000
        &&& self.t_pit_tirechange_ms <= 1_000_000_000
        &&& self.pit_location_mm <= 100_000_000
        &&& 1 <= self.p_grid <= 1000
        &&& strategy_wf(self.strategy@)
        &&& self.sh.wf()
        &&& self.tireset.wf()
        &&& 1000 <= self.dirty_air_wear_factor_milli <= 10_000
        &&& self.damage_penalty_ms <= 1_000_000_000
        &&& match self.last_slick_compound {
            Some(c) => c.spec_is_slick(),
            None => true,
        }
    }

    /// Builds the car from its parameters; the tire set comes from the start
    /// entry of the strategy.
    pub fn new(car_pars: CarPars, driver_idx: usize) -> (r: Car)
        requires
            car_pars.wf(),
        ensures
            r.wf(),
            r.car_no == car_pars.car_no,
            r.status == CarStatus::Running,
            r.t_car_ms == car_pars.t_car_ms,
            r.m_fuel_g == car_pars.m_fuel_g,
            r.pit_location_mm == car_pars.pit_location_mm,
            r.strategy == car_pars.strategy,
            r.p_grid == car_pars.p_grid,
            r.driver_idx == driver_idx,
            r.tireset.compound == car_pars.strategy@[0].compound.unwrap(),
            r.tireset.age_tot_millilaps == car_pars.strategy@[0].tire_start_age_laps * 1000,
            r.tireset.age_cur_stint_millilaps == car_pars.strategy@[0].tire_start_age_laps * 1000,
            r.last_slick_compound == if car_pars.strategy@[0].compound.unwrap().spec_is_slick() {
                car_pars.strategy@[0].compound
            } else {
                Option::<Compound>::None
            },
            r.dirty_air_wear_factor_milli == 1000,
            r.damage_penalty_ms == 0,
            r.sh.wf(),
            r.sh.state == crate::state_handler::State::OnTrack,
            r.sh.compl_lap_cur == 0,
            !r.sh.pit_act,
            !r.sh.pit_standstill_act,
    {
        let start_compound: Compound = match car_pars.strategy[0].compound {
            Some(c) => c,
            None => Compound::Medium,
        };
        let start_age: u32 = car_pars.strategy[0].tire_start_age_laps;
        Car {
            car_no: car_pars.car_no,
            color: car_pars.color,
            status: CarStatus::Running,
            t_car_ms: car_pars.t_car_ms,
            m_fuel_g: car_pars.m_fuel_g,
            b_fuel_per_lap_g: car_pars.b_fuel_per_lap_g,
            t_pit_refuel_per_kg_ms: car_pars.t_pit_refuel_per_kg_ms,
            t_pit_tirechange_ms: car_pars.t_pit_tirechange_ms,
            pit_location_mm: car_pars.pit_location_mm,
            strategy: car_pars.strategy,
            p_grid: car_pars.p_grid,
            driver_idx,
            sh: StateHandler::default(),
            tireset: Tireset::new(start_compound, start_age),
            dirty_air_wear_factor_milli: 1000,
            last_slick_compound: if start_compound.is_slick() {
                Some(start_compound)
            } else {
                None
            },
            damage_penalty_ms: 0,
        }
    }

    /// The car-dependent part of the theoretical lap time.
    pub fn calc_basic_timeloss(&self, driver: &Driver, s_mass_us_per_kg: u64, is_wet: bool) -> (r:
        i64)
        requires
            self.wf(),
            driver.wf(),
            s_mass_us_per_kg <= 1_000_000,
        ensures
            r == spec_basic_timeloss(*self, *driver, s_mass_us_per_kg, is_wet),
            -5_000_000_000 <= r <= 5_000_000_000,
    {
        let degr_pars = driver.get_degr_pars(self.tireset.compound);
        let tire_loss: i64 = self.tireset.t_add_tireset(&degr_pars);

        assert(self.m_fuel_g * s_mass_us_per_kg <= 1_000_000_000_000_000) by (nonlinear_arith)
            requires
                self.m_fuel_g <= 1_000_000_000,
                s_mass_us_per_kg <= 1_000_000,
        ;
        let fuel_effect: u64 = self.m_fuel_g * s_mass_us_per_kg / 1_000_000;

        let weather_penalty: i64 = if is_wet {
            if self.tireset.compound.is_slick() {
                42_000
            } else if matches!(self.tireset.compound, Compound::Intermediate) {
                12_000
            } else {
                14_000
            }
        } else {
            if self.tireset.compound.is_slick() {
                0
            } else {
                5_000
            }
        };

        self.t_car_ms + driver.t_driver_ms + tire_loss + fuel_effect as i64 + weather_penalty
            + self.damage_penalty_ms as i64
    }

    /// Lap rollover bookkeeping: engine-failure test against the uniform draw,
    /// tire aging by the dirty-air wear factor, fuel burn, wear-factor reset. A
    /// retired car is left untouched.
    pub fn drive_lap(&mut self, lap_time_ms: u64, failure_rate_per_hour_ppm: u32, draw_ppm: u32)
        requires
            old(self).wf(),
            failure_rate_per_hour_ppm <= 1_000_000_000,
        ensures
            final(self).wf(),
            old(self).status == CarStatus::DNF ==> *final(self) == *old(self),
            old(self).status == CarStatus::Running ==> {
                &&& final(self).status == (if failure_rate_per_hour_ppm > 0 && (draw_ppm as int)
                    < spec_failure_p_ppm(failure_rate_per_hour_ppm, lap_time_ms) {
                    CarStatus::DNF
                } else {
                    CarStatus::Running
                })
                &&& final(self).tireset.compound == old(self).tireset.compound
                &&& final(self).tireset.age_cur_stint_millilaps >= old(
                    self,
                ).tireset.age_cur_stint_millilaps
                &&& final(self).tireset.age_cur_stint_millilaps == (if old(
                    self,
                ).tireset.age_cur_stint_millilaps + old(self).dirty_air_wear_factor_milli
                    <= crate::tireset::AGE_CAP_MILLILAPS {
                    old(self).tireset.age_cur_stint_millilaps + old(
                        self,
                    ).dirty_air_wear_factor_milli
                } else {
                    crate::tireset::AGE_CAP_MILLILAPS as int
                })
                &&& final(self).dirty_air_wear_factor_milli == 1000
                &&& final(self).m_fuel_g == (if old(self).m_fuel_g >= old(self).b_fuel_per_lap_g {
                    old(self).m_fuel_g - old(self).b_fuel_per_lap_g
                } else {
                    0int
                })
                &&& final(self).strategy == old(self).strategy
                &&& final(self).sh == old(self).sh
                &&& final(self).damage_penalty_ms == old(self).damage_penalty_ms
                &&& final(self).car_no == old(self).car_no
                &&& final(self).driver_idx == old(self).driver_idx
                &&& final(self).pit_location_mm == old(self).pit_location_mm
                &&& final(self).p_grid == old(self).p_grid
                &&& final(self).t_car_ms == old(self).t_car_ms
                &&& final(self).last_slick_compound == old(self).last_slick_compound
            },
    {
        if matches!(self.status, CarStatus::DNF) {
            return ;
        }
        if failure_rate_per_hour_ppm > 0 {
            let lap_c: u64 = if lap_time_ms > 4_000_000_000 {
                4_000_000_000
            } else {
                lap_time_ms
            };
            assert(failure_rate_per_hour_ppm * lap_c <= 4_000_000_000_000_000_000)
                by (nonlinear_arith)
                requires
                    failure_rate_per_hour_ppm <= 1_000_000_000,
                    lap_c <= 4_000_000_000,
            ;
            let p_raw: u64 = (failure_rate_per_hour_ppm as u64) * lap_c / 3_600_000;
            let p_fail: u64 = if p_raw > 1_000_000 {
                1_000_000
            } else {
                p_raw
            };
            if (draw_ppm as u64) < p_fail {
                self.status = CarStatus::DNF;
            }
        }
        let wear: u64 = self.dirty_air_wear_factor_milli;
        self.tireset.drive_lap(wear);
        if self.m_fuel_g >= self.b_fuel_per_lap_g {
            self.m_fuel_g = self.m_fuel_g - self.b_fuel_per_lap_g;
        } else {
            self.m_fuel_g = 0;
        }
        self.dirty_air_wear_factor_milli = 1000;
    }

    /// True iff the strategy schedules a stop at the end of the given lap.
    pub fn pit_this_lap(&self, cur_lap: u32) -> (r: bool)
        ensures
            r == exists|k: int|
                0 <= k < self.strategy@.len() && (#[trigger] self.strategy@[k]).inlap == cur_lap,
    {
        let mut k: usize = 0;
        let n: usize = self.strategy.len();
        let mut found: bool = false;
        while k < n
            invariant
                k <= n,
                n == self.strategy@.len(),
                found == exists|j: int|
                    0 <= j < k && (#[trigger] self.strategy@[j]).inlap == cur_lap,
            decreases n - k,
        {
            if self.strategy[k].inlap == cur_lap {
                found = true;
                assert(self.strategy@[k as int].inlap == cur_lap);
            }
            k = k + 1;
        }
        found
    }

    /// Index of the first strategy entry for the given inlap.
    fn get_strategy_entry_idx(&self, inlap: u32) -> (r: Option<usize>)
        ensures
            r is Some ==> r.unwrap() == spec_find_entry_idx(self.strategy@, inlap)
                && r.unwrap() < self.strategy@.len() && self.strategy@[r.unwrap() as int].inlap
                == inlap && spec_find_entry(self.strategy@, inlap) == Some(
                self.strategy@[r.unwrap() as int],
            ),
            r is None ==> spec_find_entry(self.strategy@, inlap) is None && spec_find_entry_idx(
                self.strategy@,
                inlap,
            ) == -1,
    {
        proof {
            lemma_find_entry(self.strategy@, inlap);
        }
        let mut k: usize = 0;
        let n: usize = self.strategy.len();
        while k < n
            invariant
                k <= n,
                n == self.strategy@.len(),
                forall|j: int| 0 <= j < k ==> (#[trigger] self.strategy@[j]).inlap != inlap,
            decreases n - k,
        {
            if self.strategy[k].inlap == inlap {
                proof {
                    lemma_find_idx_from_prefix(self.strategy@, inlap, k as int);
                }
                return Some(k);
            }
            k = k + 1;
        }
        proof {
            lemma_find_entry(self.strategy@, inlap);
            if spec_find_entry_idx(self.strategy@, inlap) >= 0 {
                let i = spec_find_entry_idx(self.strategy@, inlap);
                assert(0 <= i < self.strategy@.len());
                assert(self.strategy@[i].inlap == inlap);
                assert(false);
            }
        }
        None
    }

    /// Executes the stop scheduled for `inlap`: mounts the entry's compound
    /// with its start age and remembers the last slick compound. Without an
    /// entry, or with an entry that changes no tires, the set stays.
    pub fn perform_pitstop(&mut self, inlap: u32)
        requires
            old(self).wf(),
        ensures
            final(self).wf(),
            ({
                let found = spec_find_entry(old(self).strategy@, inlap);
                match found {
                    Some(e) => match e.compound {
                        Some(c) => final(self).tireset.compound == c
                            && final(self).tireset.age_cur_stint_millilaps
                            == e.tire_start_age_laps * 1000 && final(self).tireset.age_tot_millilaps
                            == e.tire_start_age_laps * 1000 && final(self).last_slick_compound == (
                        if c.spec_is_slick() {
                            Some(c)
                        } else {
                            old(self).last_slick_compound
                        }),
                        None => final(self).tireset == old(self).tireset
                            && final(self).last_slick_compound == old(self).last_slick_compound,
                    },
                    None => final(self).tireset == old(self).tireset
                        && final(self).last_slick_compound == old(self).last_slick_compound,
                }
            }),
            final(self).strategy == old(self).strategy,
            final(self).sh == old(self).sh,
            final(self).status == old(self).status,
            final(self).m_fuel_g == old(self).m_fuel_g,
            final(self).damage_penalty_ms == old(self).damage_penalty_ms,
            final(self).dirty_air_wear_factor_milli == old(self).dirty_air_wear_factor_milli,
            final(self).car_no == old(self).car_no,
            final(self).driver_idx == old(self).driver_idx,
            final(self).pit_location_mm == old(self).pit_location_mm,
            final(self).t_car_ms == old(self).t_car_ms,
            final(self).p_grid == old(self).p_grid,
    {
        let entry_idx = self.get_strategy_entry_idx(inlap);
        if let Some(idx) = entry_idx {
            let age: u32 = self.strategy[idx].tire_start_age_laps;
            let compound_opt: Option<Compound> = self.strategy[idx].compound;
            if let Some(c) = compound_opt {
                self.tireset = Tireset::new(c, age);
                if c.is_slick() {
                    self.last_slick_compound = Some(c);
                }
            }
        }
    }

    /// The standstill time of the stop scheduled for `inlap`: the tire-change
    /// time when tires are changed, zero otherwise.
    pub fn t_add_pit_standstill(&self, inlap: u32) -> (r: u64)
        requires
            self.wf(),
        ensures
            r == (match spec_find_entry(self.strategy@, inlap) {
                Some(e) => if e.compound is Some {
                    self.t_pit_tirechange_ms as int
                } else {
                    0
                },
                None => 0,
            }),
            r <= 1_000_000_000,
    {
        let entry_idx = self.get_strategy_entry_idx(inlap);
        match entry_idx {
            Some(idx) => {
                if self.strategy[idx].compound.is_some() {
                    self.t_pit_tirechange_ms
                } else {
                    0
                }
            },
            None => 0,
        }
    }

    /// The compound currently mounted.
    pub fn get_current_compound(&self) -> (r: Compound)
        ensures
            r == self.tireset.compound,
    {
        self.tireset.compound
    }

    /// Schedules (or overwrites) the stop at `inlap` with the given compound:
    /// idempotent per inlap. With a full strategy and no matching entry the
    /// call changes nothing.
    pub fn schedule_weather_strategy(&mut self, inlap: u32, compound: Compound)
        requires
            old(self).wf(),
        ensures
            final(self).wf(),
            ({
                let idx = spec_find_entry_idx(old(self).strategy@, inlap);
                if idx >= 0 {
                    final(self).strategy@ == old(self).strategy@.update(
                        idx,
                        StrategyEntry { compound: Some(compound), ..old(self).strategy@[idx] },
                    )
                } else if old(self).strategy@.len() < STRATEGY_CAP {
                    &&& final(self).strategy@.len() == old(self).strategy@.len() + 1
                    &&& (forall|k: int|
                        0 <= k < old(self).strategy@.len() ==> final(self).strategy@[k] == old(
                            self,
                        ).strategy@[k])
                    &&& final(self).strategy@.last().inlap == inlap
                    &&& final(self).strategy@.last().compound == Some(compound)
                    &&& final(self).strategy@.last().tire_start_age_laps == 0
                    &&& final(self).strategy@.last().refuel_mass_g == 0
                } else {
                    final(self).strategy@ == old(self).strategy@
                }
            }),
            spec_find_entry_idx(old(self).strategy@, inlap) >= 0 || old(self).strategy@.len()
                < STRATEGY_CAP ==> exists|k: int|
                0 <= k < final(self).strategy@.len() && (#[trigger] final(self).strategy@[k]).inlap
                    == inlap && final(self).strategy@[k].compound == Some(compound),
            final(self).tireset == old(self).tireset,
            final(self).sh == old(self).sh,
            final(self).status == old(self).status,
            final(self).car_no == old(self).car_no,
            final(self).last_slick_compound == old(self).last_slick_compound,
            final(self).dirty_air_wear_factor_milli == old(self).dirty_air_wear_factor_milli,
            final(self).damage_penalty_ms == old(self).damage_penalty_ms,
            final(self).m_fuel_g == old(self).m_fuel_g,
            final(self).driver_idx == old(self).driver_idx,
            final(self).pit_location_mm == old(self).pit_location_mm,
            final(self).t_car_ms == old(self).t_car_ms,
            final(self).p_grid == old(self).p_grid,
    {
        let entry_idx = self.get_strategy_entry_idx(inlap);
        match entry_idx {
            Some(idx) => {
                let age: u32 = self.strategy[idx].tire_start_age_laps;
                let initials: String = self.strategy[idx].driver_initials.clone();
                let refuel: u64 = self.strategy[idx].refuel_mass_g;
                let old_inlap: u32 = self.strategy[idx].inlap;
                self.strategy.set(
                    idx,
                    StrategyEntry {
                        inlap: old_inlap,
                        tire_start_age_laps: age,
                        compound: Some(compound),
                        driver_initials: initials,
                        refuel_mass_g: refuel,
                    },
                );
                assert(self.strategy@[idx as int].inlap == inlap && self.strategy@[
                    idx as int
                ].compound == Some(compound));
                assert(self.strategy@ =~= old(self).strategy@.update(
                    idx as int,
                    StrategyEntry {
                        compound: Some(compound),
                        ..old(self).strategy@[idx as int]
                    },
                ));
            },
            None => {
                if self.strategy.len() < STRATEGY_CAP {
                    self.strategy.push(
                        StrategyEntry {
                            inlap,
                            tire_start_age_laps: 0,
                            compound: Some(compound),
                            driver_initials: String::new(),
                            refuel_mass_g: 0,
                        },
                    );
                    let ghost li = self.strategy@.len() - 1;
                    assert(self.strategy@[li].inlap == inlap && self.strategy@[li].compound
                        == Some(compound));
                }
            },
        }
    }

    /// Sets the fuel mass.
    pub fn set_fuel_mass(&mut self, mass_g: u64)
        requires
            old(self).wf(),
            mass_g <= 1_000_000_000,
        ensures
            final(self).wf(),
            *final(self) == (Car { m_fuel_g: mass_g, ..*old(self) }),
    {
        self.m_fuel_g = mass_g;
    }

    /// The current fuel mass.
    pub fn get_fuel_mass(&self) -> (r: u64)
        ensures
            r == self.m_fuel_g,
    {
        self.m_fuel_g
    }

    /// Fuel needed for the given number of laps at this car's burn rate.
    pub fn fuel_needed_for_laps(&self, laps: u32) -> (r: u64)
        requires
            self.wf(),
        ensures
            r == self.b_fuel_per_lap_g * laps,
    {
        assert(self.b_fuel_per_lap_g * laps <= 5_000_000_000_000_000_000) by (nonlinear_arith)
            requires
                self.b_fuel_per_lap_g <= 1_000_000_000,
                laps <= 4_294_967_295,
        ;
        self.b_fuel_per_lap_g * (laps as u64)
    }
}

/// A matching entry at index `i` with no match before it pins the find result.
proof fn lemma_find_idx_from_prefix(s: Seq<StrategyEntry>, inlap: u32, i: int)
    requires
        0 <= i < s.len(),
        s[i].inlap == inlap,
        forall|j: int| 0 <= j < i ==> (#[trigger] s[j]).inlap != inlap,
    ensures
        spec_find_entry_idx(s, inlap) == i,
        spec_find_entry(s, inlap) == Some(s[i]),
    decreases s.len(),
{
    if i > 0 {
        lemma_find_idx_from_prefix(s.drop_first(), inlap, i - 1);
    }
}

} // verus!
