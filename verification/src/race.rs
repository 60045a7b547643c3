//! The race coordinator: fixed-step loop, pairwise interaction resolution,
//! flag and safety-car regime, weather, lap accounting and the event log.

use vstd::prelude::*;
use crate::car::{Car, CarPars, CarStatus};
use crate::driver::{Driver, DriverPars};
use crate::general::{argmax, argsort, InputValueError, SortOrder};
use crate::race_result::{CarDriverPair, EventKind, RaceEvent, RaceResult, WeatherState};
use crate::rng::{bernoulli, draw_normal_noise_ms, rng_draw_ppm, rng_from_seed};
use crate::tireset::Compound;
use crate::track::{Track, TrackPars};

verus! {

/// The lap time standing for "does not advance": retired cars and cars held at
/// a pit standstill. Larger than any simulated time.
pub const LAPTIME_INF_MS: u64 = 1_000_000_000_000;

/// The race clock never advances past this; the driving loop stops there.
pub const RACETIME_CAP_MS: u64 = 1_000_000_000_000;

/// Current lap times live in `[timestep, LAPTIME_INF_MS]`.
pub open spec fn spec_clamp_laptime(v: int, dt: int) -> int {
    if v < dt {
        dt
    } else if v > LAPTIME_INF_MS as int {
        LAPTIME_INF_MS as int
    } else {
        v
    }
}

/// Computes `spec_clamp_laptime`.
fn clamp_laptime(v: i64, dt: u64) -> (r: u64)
    requires
        1 <= dt <= 1000,
    ensures
        r == spec_clamp_laptime(v as int, dt as int),
        dt <= r <= LAPTIME_INF_MS,
{
    if v < dt as i64 {
        dt
    } else if v > LAPTIME_INF_MS as i64 {
        LAPTIME_INF_MS
    } else {
        v as u64
    }
}

/// A lap-time additive scaled up by the overtaking-zone lap fraction
/// (micro-laps), truncating toward zero.
pub open spec fn spec_scale_time_by_frac(t_ms: int, frac_micro: int) -> int {
    if t_ms >= 0 {
        t_ms * 1_000_000 / frac_micro
    } else {
        -((-t_ms) * 1_000_000 / frac_micro)
    }
}

/// Computes `spec_scale_time_by_frac`.
fn scale_time_by_frac(t_ms: i64, frac_micro: u64) -> (r: i64)
    requires
        -1_000_000_000 <= t_ms <= 1_000_000_000,
        1 <= frac_micro,
    ensures
        r == spec_scale_time_by_frac(t_ms as int, frac_micro as int),
        -1_000_000_000_000_000 <= r <= 1_000_000_000_000_000,
{
    if t_ms >= 0 {
        let m: u64 = (t_ms as u64) * 1_000_000;
        let d: u64 = m / frac_micro;
        assert(m as int / (frac_micro as int) <= 1_000_000_000_000_000) by (nonlinear_arith)
            requires
                m <= 1_000_000_000_000_000,
                1 <= frac_micro,
        ;
        d as i64
    } else {
        let m: u64 = ((-t_ms) as u64) * 1_000_000;
        let d: u64 = m / frac_micro;
        assert(m as int / (frac_micro as int) <= 1_000_000_000_000_000) by (nonlinear_arith)
            requires
                m <= 1_000_000_000_000_000,
                1 <= frac_micro,
        ;
        -(d as i64)
    }
}

/// Log `b` extends log `a` without rewriting history.
pub open spec fn events_prefix(a: Seq<RaceEvent>, b: Seq<RaceEvent>) -> bool {
    a.len() <= b.len() && forall|k: int| 0 <= k < a.len() ==> a[k] == b[k]
}

/// Every retired car stands at the infinite lap time.
pub open spec fn dnf_inf_ok(r: Race) -> bool {
    forall|i: int|
        0 <= i < r.n() && (#[trigger] r.cars_list@[i]).status == CarStatus::DNF
            ==> r.cur_laptimes@[i] == LAPTIME_INF_MS
}

/// Bounds on buffered lap-time adjustments: indices on the grid, magnitudes
/// within machine range.
pub open spec fn updates_ok(u: Seq<(usize, i64)>, n: int) -> bool {
    forall|k: int|
        0 <= k < u.len() ==> (#[trigger] u[k]).0 < n && -2_000_000_000_000_000 <= u[k].1
            <= 2_000_000_000_000_000
}

/// What interaction resolution may not touch: everything but lap times, car
/// status, wear, damage, the event log and the generator. Transitive by
/// construction.
pub open spec fn interactions_frame(pre: Race, post: Race) -> bool {
    &&& post.cars_list@.len() == pre.cars_list@.len()
    &&& post.laptimes == pre.laptimes
    &&& post.racetimes == pre.racetimes
    &&& post.race_finished == pre.race_finished
    &&& post.cur_th_laptimes == pre.cur_th_laptimes
    &&& post.flag_state == pre.flag_state
    &&& post.weather_state == pre.weather_state
    &&& post.cur_lap_leader == pre.cur_lap_leader
    &&& post.cur_racetime_ms == pre.cur_racetime_ms
    &&& post.safety_car == pre.safety_car
    &&& post.drivers_list == pre.drivers_list
    &&& post.track == pre.track
    &&& post.tot_no_laps == pre.tot_no_laps
    &&& post.timestep_size_ms == pre.timestep_size_ms
    &&& post.sim_consts == pre.sim_consts
    &&& post.t_since_weather_change_ms == pre.t_since_weather_change_ms
    &&& post.weather_history == pre.weather_history
    &&& post.sc_triggers == pre.sc_triggers
    &&& post.sc_timer_ms == pre.sc_timer_ms
    &&& post.season == pre.season
    &&& post.drs_allowed_lap == pre.drs_allowed_lap
    &&& post.min_t_dist_ms == pre.min_t_dist_ms
    &&& post.t_duel_ms == pre.t_duel_ms
    &&& post.t_overtake_loser_ms == pre.t_overtake_loser_ms
    &&& post.drs_window_ms == pre.drs_window_ms
    &&& post.use_drs == pre.use_drs
    &&& post.rain_probability_ppm_per_min == pre.rain_probability_ppm_per_min
    &&& events_prefix(pre.events@, post.events@)
    &&& forall|i: int|
        0 <= i < pre.cars_list@.len() ==> car_statics_eq(
            #[trigger] post.cars_list@[i],
            pre.cars_list@[i],
        )
    &&& forall|i: int|
        0 <= i < pre.cars_list@.len() && pre.cars_list@[i].status == CarStatus::DNF ==> (
        #[trigger] post.cars_list@[i]).status == CarStatus::DNF
}

/// The interaction frame composes.
proof fn lemma_interactions_frame_trans(a: Race, b: Race, c: Race)
    requires
        interactions_frame(a, b),
        interactions_frame(b, c),
    ensures
        interactions_frame(a, c),
{
    assert forall|i: int|
        0 <= i < a.cars_list@.len() implies car_statics_eq(
        #[trigger] c.cars_list@[i],
        a.cars_list@[i],
    ) by {
        assert(car_statics_eq(c.cars_list@[i], b.cars_list@[i]));
        assert(car_statics_eq(b.cars_list@[i], a.cars_list@[i]));
    }
    assert forall|i: int|
        0 <= i < a.cars_list@.len() && a.cars_list@[i].status == CarStatus::DNF implies (
    #[trigger] c.cars_list@[i]).status == CarStatus::DNF by {
        assert(b.cars_list@[i].status == CarStatus::DNF);
    }
}

/// Everything of a car that interaction resolution leaves untouched: it only
/// moves status, dirty-air wear and damage.
pub open spec fn car_statics_eq(a: Car, b: Car) -> bool {
    &&& a.car_no == b.car_no
    &&& a.color == b.color
    &&& a.t_car_ms == b.t_car_ms
    &&& a.m_fuel_g == b.m_fuel_g
    &&& a.b_fuel_per_lap_g == b.b_fuel_per_lap_g
    &&& a.t_pit_refuel_per_kg_ms == b.t_pit_refuel_per_kg_ms
    &&& a.t_pit_tirechange_ms == b.t_pit_tirechange_ms
    &&& a.pit_location_mm == b.pit_location_mm
    &&& a.strategy == b.strategy
    &&& a.p_grid == b.p_grid
    &&& a.driver_idx == b.driver_idx
    &&& a.sh == b.sh
    &&& a.tireset == b.tireset
    &&& a.last_slick_compound == b.last_slick_compound
}

/// `diff * laptime / 5000`, truncating toward zero: the blocking margin.
pub open spec fn spec_mul_then_div_5000(diff: int, laptime: int) -> int {
    if diff >= 0 {
        diff * laptime / 5000
    } else {
        -((-diff) * laptime / 5000)
    }
}

/// Computes `spec_mul_then_div_5000`.
fn mul_then_div_5000(diff: i64, laptime: u64) -> (r: i64)
    requires
        -1_000_000 <= diff <= 1_000_000,
        laptime <= LAPTIME_INF_MS,
    ensures
        r == spec_mul_then_div_5000(diff as int, laptime as int),
        -1_000_000_000_000_000 <= r <= 1_000_000_000_000_000,
{
    if diff >= 0 {
        assert((diff as int) * laptime <= 1_000_000_000_000_000_000 && (diff as int) * laptime
            / 5000 <= 1_000_000_000_000_000) by (nonlinear_arith)
            requires
                0 <= diff <= 1_000_000,
                laptime <= LAPTIME_INF_MS,
        ;
        let m: u64 = (diff as u64) * laptime;
        (m / 5000) as i64
    } else {
        let mag: u64 = (-diff) as u64;
        assert(mag * laptime <= 1_000_000_000_000_000_000 && mag * laptime / 5000
            <= 1_000_000_000_000_000) by (nonlinear_arith)
            requires
                0 <= mag <= 1_000_000,
                laptime <= LAPTIME_INF_MS,
        ;
        let m: u64 = mag * laptime;
        -((m / 5000) as i64)
    }
}

/// Theoretical lap times live in `[1000, LAPTIME_INF_MS]`.
pub open spec fn spec_clamp_th(v: int) -> int {
    if v < 1000 {
        1000
    } else if v > LAPTIME_INF_MS as int {
        LAPTIME_INF_MS as int
    } else {
        v
    }
}

/// A matrix of zeros with `rows` rows of `cols` entries each.
fn build_zero_matrix(rows: usize, cols: usize) -> (r: Vec<Vec<u64>>)
    ensures
        r@.len() == rows,
        forall|i: int| 0 <= i < rows ==> (#[trigger] r@[i])@.len() == cols,
        forall|i: int, k: int| 0 <= i < rows && 0 <= k < cols ==> #[trigger] r@[i]@[k] == 0,
{
    let mut r: Vec<Vec<u64>> = Vec::new();
    let mut i: usize = 0;
    while i < rows
        invariant
            i <= rows,
            r@.len() == i,
            forall|a: int| 0 <= a < i ==> (#[trigger] r@[a])@.len() == cols,
            forall|a: int, k: int| 0 <= a < i && 0 <= k < cols ==> #[trigger] r@[a]@[k] == 0,
        decreases rows - i,
    {
        r.push(build_u64_vec(cols, 0));
        i = i + 1;
    }
    r
}

/// A vector of `n` copies of `value`.
fn build_u64_vec(n: usize, value: u64) -> (r: Vec<u64>)
    ensures
        r@.len() == n,
        forall|i: int| 0 <= i < n ==> r@[i] == value,
{
    let mut r: Vec<u64> = Vec::new();
    let mut i: usize = 0;
    while i < n
        invariant
            i <= n,
            r@.len() == i,
            forall|k: int| 0 <= k < i ==> r@[k] == value,
        decreases n - i,
    {
        r.push(value);
        i = i + 1;
    }
    r
}

/// A vector of `n` false flags.
fn build_bool_vec(n: usize) -> (r: Vec<bool>)
    ensures
        r@.len() == n,
        forall|i: int| 0 <= i < n ==> !r@[i],
{
    let mut r: Vec<bool> = Vec::new();
    let mut i: usize = 0;
    while i < n
        invariant
            i <= n,
            r@.len() == i,
            forall|k: int| 0 <= k < i ==> !r@[k],
        decreases n - i,
    {
        r.push(false);
        i = i + 1;
    }
    r
}

/// An element-exact copy of a coordinate vector.
fn copy_u64_vec(x: &Vec<u64>) -> (r: Vec<u64>)
    ensures
        r@ == x@,
{
    let mut r: Vec<u64> = Vec::new();
    let mut i: usize = 0;
    while i < x.len()
        invariant
            i <= x@.len(),
            r@.len() == i,
            forall|k: int| 0 <= k < i ==> r@[k] == x@[k],
        decreases x@.len() - i,
    {
        r.push(x[i]);
        i = i + 1;
    }
    proof {
        assert(r@ =~= x@);
    }
    r
}

/// An element-exact copy of a zone vector.
fn copy_zone_vec(x: &Vec<[u64; 2]>) -> (r: Vec<[u64; 2]>)
    ensures
        r@ == x@,
{
    let mut r: Vec<[u64; 2]> = Vec::new();
    let mut i: usize = 0;
    while i < x.len()
        invariant
            i <= x@.len(),
            r@.len() == i,
            forall|k: int| 0 <= k < i ==> r@[k] == x@[k],
        decreases x@.len() - i,
    {
        r.push(x[i]);
        i = i + 1;
    }
    proof {
        assert(r@ =~= x@);
    }
    r
}

/// Race-wide flag states: green, yellow, virtual safety car, safety car,
/// chequered.
#[derive(Debug, Clone, Copy, PartialEq, Eq, Structural)]
pub enum FlagState {
    G,
    Y,
    Vsc,
    Sc,
    C,
}

impl Default for FlagState {
    /// A race starts green.
    fn default() -> (r: FlagState)
        ensures
            r == FlagState::G,
    {
        FlagState::G
    }
}

/// The safety car as a free body on the track.
#[derive(Debug, Clone, Copy, PartialEq, Eq, Structural)]
pub struct SafetyCar {
    pub active: bool,
    pub s_track_mm: u64,
    pub speed_mm_s: u64,
    pub lap: u32,
}

impl SafetyCar {
    /// An inactive safety car at the line.
    pub fn new() -> (r: SafetyCar)
        ensures
            r == (SafetyCar { active: false, s_track_mm: 0, speed_mm_s: 50_000u64, lap: 0 }),
    {
        SafetyCar { active: false, s_track_mm: 0, speed_mm_s: 50_000, lap: 0 }
    }
}

/// Race-level parameters from the scenario input.
#[derive(Debug, Clone, PartialEq, Eq)]
pub struct RacePars {
    pub season: u32,
    pub tot_no_laps: u32,
    pub drs_allowed_lap: u32,
    pub min_t_dist_ms: u64,
    pub t_duel_ms: i64,
    pub t_overtake_loser_ms: i64,
    pub drs_window_ms: u64,
    pub use_drs: bool,
    pub participants: Vec<u32>,
    pub initial_weather: WeatherState,
    /// Probability of a weather change per minute, in ppm.
    pub rain_probability_ppm_per_min: u32,
}

impl RacePars {
    pub open spec fn wf(self) -> bool {
        &&& 1 <= self.tot_no_laps <= 10_000
        &&& self.min_t_dist_ms <= 1_000_000
        &&& -1_000_000_000 <= self.t_duel_ms <= 1_000_000_000
        &&& -1_000_000_000 <= self.t_overtake_loser_ms <= 1_000_000_000
        &&& 1 <= self.participants@.len() <= 1000
        &&& self.rain_probability_ppm_per_min <= 1_000_000
    }
}

/// Engine constants; `default` gives the documented baseline values.
#[derive(Debug, Clone, Copy, PartialEq, Eq, Structural)]
pub struct SimConstants {
    /// Spare fuel fraction in thousandths; configuration data for loaders.
    pub fuel_margin_milli: u32,
    pub failure_rate_per_hour_ppm: u32,
    pub collision_factor: u32,
    pub min_weather_duration_ms: u64,
    /// Soft countdown once the safety-car lineup has formed.
    pub sc_soft_countdown_ms: u64,
    /// Hard upper bound on a safety-car phase.
    pub sc_hard_cap_ms: u64,
    pub sc_target_gap_mm: u64,
    pub sc_gap_tolerance_mm: u64,
    /// Catch-up gain towards the target gap, in thousandths per second.
    pub sc_catchup_milli: u32,
    pub sc_speed_mm_s: u64,
    /// Standard deviation of the sampled pit standstill time.
    pub pit_standstill_sd_ms: u64,
}

impl SimConstants {
    pub open spec fn wf(self) -> bool {
        &&& self.failure_rate_per_hour_ppm <= 1_000_000_000
        &&& self.collision_factor <= 1_000_000
        &&& self.min_weather_duration_ms <= 1_000_000_000_000
        &&& self.sc_soft_countdown_ms <= 1_000_000_000
        &&& self.sc_hard_cap_ms <= 1_000_000_000
        &&& self.sc_target_gap_mm <= 100_000_000
        &&& self.sc_gap_tolerance_mm <= 100_000_000
        &&& self.sc_catchup_milli <= 1_000_000
        &&& 1 <= self.sc_speed_mm_s <= 1_000_000
        &&& self.pit_standstill_sd_ms <= 1_000_000
    }
}

impl Default for SimConstants {
    /// The documented defaults: 0.05 fuel margin, 0.02 failures per hour, a
    /// collision factor of 20, 200 s minimum weather duration, 10 s soft and
    /// 300 s hard safety-car countdown, 15 m target gap with 5 m tolerance,
    /// 0.5/s catch-up, 50 m/s safety-car speed and 0.4 s standstill scatter.
    fn default() -> (r: SimConstants)
        ensures
            r.wf(),
            r == (SimConstants {
                fuel_margin_milli: 50u32,
                failure_rate_per_hour_ppm: 20_000u32,
                collision_factor: 20u32,
                min_weather_duration_ms: 200_000u64,
                sc_soft_countdown_ms: 10_000u64,
                sc_hard_cap_ms: 300_000u64,
                sc_target_gap_mm: 15_000u64,
                sc_gap_tolerance_mm: 5_000u64,
                sc_catchup_milli: 500u32,
                sc_speed_mm_s: 50_000u64,
                pit_standstill_sd_ms: 400u64,
            }),
    {
        SimConstants {
            fuel_margin_milli: 50,
            failure_rate_per_hour_ppm: 20_000,
            collision_factor: 20,
            min_weather_duration_ms: 200_000,
            sc_soft_countdown_ms: 10_000,
            sc_hard_cap_ms: 300_000,
            sc_target_gap_mm: 15_000,
            sc_gap_tolerance_mm: 5_000,
            sc_catchup_milli: 500,
            sc_speed_mm_s: 50_000,
            pit_standstill_sd_ms: 400,
        }
    }
}

/// The aggregate race state.
#[derive(Debug)]
pub struct Race {
    pub timestep_size_ms: u64,
    pub cur_racetime_ms: u64,
    pub safety_car: SafetyCar,
    pub sc_timer_ms: u64,
    /// Cars whose retirement already triggered (or was absorbed by) a
    /// safety-car deployment.
    pub sc_triggers: Vec<bool>,
    pub season: u32,
    pub tot_no_laps: u32,
    pub drs_allowed_lap: u32,
    pub cur_lap_leader: u32,
    pub min_t_dist_ms: u64,
    pub t_duel_ms: i64,
    pub t_overtake_loser_ms: i64,
    pub drs_window_ms: u64,
    pub use_drs: bool,
    pub flag_state: FlagState,
    pub weather_state: WeatherState,
    pub t_since_weather_change_ms: u64,
    pub rain_probability_ppm_per_min: u32,
    pub sim_consts: SimConstants,
    pub track: Track,
    pub race_finished: Vec<bool>,
    pub laptimes: Vec<Vec<u64>>,
    pub racetimes: Vec<Vec<u64>>,
    pub cur_laptimes: Vec<u64>,
    pub cur_th_laptimes: Vec<u64>,
    pub cars_list: Vec<Car>,
    pub drivers_list: Vec<Driver>,
    pub weather_history: Vec<WeatherState>,
    pub events: Vec<RaceEvent>,
    pub rng: rand::rngs::StdRng,
}

impl Race {
    /// Number of cars.
    pub open spec fn n(self) -> int {
        self.cars_list@.len() as int
    }

    /// The global invariant: every container sized to the grid, every car and
    /// driver well-formed on this track, lap times in range, and the
    /// accounting law over the time matrices.
    pub open spec fn wf(self) -> bool {
        &&& 1 <= self.timestep_size_ms <= 1000
        &&& self.cur_racetime_ms <= RACETIME_CAP_MS
        &&& 1 <= self.tot_no_laps <= 10_000
        &&& 1 <= self.cur_lap_leader
        &&& self.min_t_dist_ms <= 1_000_000
        &&& -1_000_000_000 <= self.t_duel_ms <= 1_000_000_000
        &&& -1_000_000_000 <= self.t_overtake_loser_ms <= 1_000_000_000
        &&& self.rain_probability_ppm_per_min <= 1_000_000
        &&& self.track.wf()
        &&& self.sim_consts.wf()
        &&& 1 <= self.n() <= 1000
        &&& self.sc_triggers@.len() == self.n()
        &&& self.race_finished@.len() == self.n()
        &&& self.cur_laptimes@.len() == self.n()
        &&& self.cur_th_laptimes@.len() == self.n()
        &&& self.laptimes@.len() == self.n()
        &&& self.racetimes@.len() == self.n()
        &&& forall|i: int|
            0 <= i < self.n() ==> (#[trigger] self.laptimes@[i])@.len() == self.tot_no_laps + 1
        &&& forall|i: int|
            0 <= i < self.n() ==> (#[trigger] self.racetimes@[i])@.len() == self.tot_no_laps + 1
        &&& forall|i: int| 0 <= i < self.n() ==> (#[trigger] self.cars_list@[i]).wf()
        &&& forall|i: int|
            0 <= i < self.n() ==> (#[trigger] self.cars_list@[i]).sh.track_length_mm
                == self.track.length_mm
        &&& forall|i: int|
            0 <= i < self.n() ==> (#[trigger] self.cars_list@[i]).pit_location_mm
                < self.track.length_mm
        &&& forall|i: int|
            0 <= i < self.n() ==> (#[trigger] self.cars_list@[i]).driver_idx
                < self.drivers_list@.len()
        &&& forall|d: int| 0 <= d < self.drivers_list@.len() ==> (#[trigger] self.drivers_list@[d]).wf()
        &&& forall|i: int|
            0 <= i < self.n() ==> self.timestep_size_ms <= #[trigger] self.cur_laptimes@[i]
                <= LAPTIME_INF_MS
        &&& forall|i: int|
            0 <= i < self.n() ==> 1000 <= #[trigger] self.cur_th_laptimes@[i] <= LAPTIME_INF_MS
        &&& self.safety_car.s_track_mm < self.track.length_mm
        &&& 1 <= self.safety_car.speed_mm_s <= 1_000_000
        &&& self.sc_timer_ms <= 1_000_000_000
        &&& self.accounting_ok()
    }

    /// The accounting law: row 0 of the race-time matrix is zero and every
    /// written lap extends the cumulative sum, all entries bounded.
    pub open spec fn accounting_ok(self) -> bool {
        forall|i: int, k: int|
            0 <= i < self.n() && 0 <= k <= self.tot_no_laps ==> {
                &&& #[trigger] self.laptimes@[i]@[k] <= 3 * RACETIME_CAP_MS
                &&& self.racetimes@[i]@[k] <= 3 * RACETIME_CAP_MS
                &&& (k == 0 ==> self.racetimes@[i]@[k] == 0 && self.laptimes@[i]@[k] == 0)
                &&& (k >= 1 && self.laptimes@[i]@[k] > 0 ==> self.racetimes@[i]@[k]
                    == self.racetimes@[i]@[k - 1] + self.laptimes@[i]@[k])
                &&& (k > self.cars_list@[i].sh.compl_lap_cur ==> self.racetimes@[i]@[k] == 0
                    && self.laptimes@[i]@[k] == 0)
            }
    }

    /// True iff every car has taken the chequered flag.
    pub fn get_all_finished(&self) -> (r: bool)
        ensures
            r == forall|i: int| 0 <= i < self.race_finished@.len() ==> self.race_finished@[i],
    {
        let mut i: usize = 0;
        let n: usize = self.race_finished.len();
        let mut all: bool = true;
        while i < n
            invariant
                i <= n,
                n == self.race_finished@.len(),
                all == forall|k: int| 0 <= k < i ==> self.race_finished@[k],
            decreases n - i,
        {
            if !self.race_finished[i] {
                all = false;
            }
            i = i + 1;
        }
        all
    }

    /// The pace floor imposed by the flag: 110% of race pace under yellow,
    /// 140% under a virtual or physical safety car, none under green or
    /// chequered.
    pub open spec fn spec_min_laptime_flag_state(self) -> int {
        match self.flag_state {
            FlagState::Y => (self.t_q_plus_gap() * 1100) / 1000,
            FlagState::Vsc => (self.t_q_plus_gap() * 1400) / 1000,
            FlagState::Sc => (self.t_q_plus_gap() * 1400) / 1000,
            _ => 0,
        }
    }

    pub open spec fn t_q_plus_gap(self) -> int {
        self.track.t_q_ms + self.track.t_gap_racepace_ms
    }

    fn get_min_laptime_flag_state(&self) -> (r: u64)
        requires
            self.wf(),
        ensures
            r == self.spec_min_laptime_flag_state(),
            r <= 2_800_000_000,
    {
        let base: u64 = self.track.t_q_ms + self.track.t_gap_racepace_ms;
        match self.flag_state {
            FlagState::Y => base * 1100 / 1000,
            FlagState::Vsc => base * 1400 / 1000,
            FlagState::Sc => base * 1400 / 1000,
            _ => 0,
        }
    }

    /// One car's lap fraction (micro-laps) after advancing virtually by
    /// `t_ms`, wrapped into `[0, 1_000_000)`.
    pub open spec fn spec_projected_frac(self, i: int, t_ms: int) -> int {
        let f0 = self.cars_list@[i].sh.spec_s_cur() * 1_000_000 / (self.track.length_mm as int);
        let f1 = f0 + t_ms * 1_000_000 / (self.cur_laptimes@[i] as int);
        let f2 = if f1 >= 1_000_000 {
            f1 - 1_000_000
        } else {
            f1
        };
        if f2 >= 1_000_000 {
            999_999int
        } else {
            f2
        }
    }

    /// Projected lap-fraction gap (micro-laps) from rear to front after both
    /// advance by `t_ms`, wrapped into `[0, 1_000_000)`.
    pub open spec fn spec_projected_delta_lap_frac(self, idx_front: int, idx_rear: int, t_ms: int)
        -> int {
        let ff = self.spec_projected_frac(idx_front, t_ms);
        let fr = self.spec_projected_frac(idx_rear, t_ms);
        if ff >= fr {
            ff - fr
        } else {
            ff + 1_000_000 - fr
        }
    }

    /// The projected time gap: the wrapped lap-fraction difference times the
    /// rear car's current lap time.
    pub open spec fn spec_projected_delta_t(self, idx_front: int, idx_rear: int, t_ms: int)
        -> int {
        self.spec_projected_delta_lap_frac(idx_front, idx_rear, t_ms) * self.cur_laptimes@[idx_rear]
            / 1_000_000
    }

    /// Projected time gap from the rear car to the front car after advancing
    /// both by `timestep_size_ms`: the wrapped lap-fraction difference times
    /// the rear car's current lap time.
    pub fn calc_projected_delta_t(&self, idx_front: usize, idx_rear: usize, timestep_size_ms: u64)
        -> (r: u64)
        requires
            self.wf(),
            idx_front < self.n(),
            idx_rear < self.n(),
            timestep_size_ms <= 1000,
        ensures
            r == self.spec_projected_delta_t(
                idx_front as int,
                idx_rear as int,
                timestep_size_ms as int,
            ),
            r <= LAPTIME_INF_MS,
    {
        let delta_frac: u64 = self.calc_projected_delta_lap_frac(
            idx_front,
            idx_rear,
            timestep_size_ms,
        );
        let cur_rear: u64 = self.cur_laptimes[idx_rear];
        assert(delta_frac * cur_rear <= 1_000_000_000_000_000_000) by (nonlinear_arith)
            requires
                delta_frac < 1_000_000,
                cur_rear <= LAPTIME_INF_MS,
        ;
        let r: u64 = delta_frac * cur_rear / 1_000_000;
        assert(delta_frac * cur_rear / 1_000_000 <= LAPTIME_INF_MS) by (nonlinear_arith)
            requires
                delta_frac < 1_000_000,
                cur_rear <= LAPTIME_INF_MS,
        ;
        r
    }

    /// Projected lap-fraction gap (micro-laps) from rear to front after both
    /// advance by `timestep_size_ms`, wrapped into `[0, 1_000_000)`.
    fn calc_projected_delta_lap_frac(
        &self,
        idx_front: usize,
        idx_rear: usize,
        timestep_size_ms: u64,
    ) -> (r: u64)
        requires
            self.wf(),
            idx_front < self.n(),
            idx_rear < self.n(),
            timestep_size_ms <= 1000,
        ensures
            r == self.spec_projected_delta_lap_frac(
                idx_front as int,
                idx_rear as int,
                timestep_size_ms as int,
            ),
            r < 1_000_000,
    {
        let mut frac_front: u64 = self.cars_list[idx_front].sh.get_lap_fracs().1;
        let mut frac_rear: u64 = self.cars_list[idx_rear].sh.get_lap_fracs().1;

        // advance both cars virtually by the step
        let adv_front: u64 = timestep_size_ms * 1_000_000 / self.cur_laptimes[idx_front];
        let adv_rear: u64 = timestep_size_ms * 1_000_000 / self.cur_laptimes[idx_rear];
        assert(adv_front <= 1_000_000_000 && adv_rear <= 1_000_000_000) by (nonlinear_arith)
            requires
                adv_front == timestep_size_ms * 1_000_000 / (
                self.cur_laptimes@[idx_front as int] as int),
                adv_rear == timestep_size_ms * 1_000_000 / (
                self.cur_laptimes@[idx_rear as int] as int),
                timestep_size_ms <= 1000,
                1 <= self.cur_laptimes@[idx_front as int],
                1 <= self.cur_laptimes@[idx_rear as int],
        ;
        frac_front = frac_front + adv_front;
        frac_rear = frac_rear + adv_rear;
        if frac_front >= 1_000_000 {
            frac_front = frac_front - 1_000_000;
        }
        if frac_rear >= 1_000_000 {
            frac_rear = frac_rear - 1_000_000;
        }
        let frac_front_c: u64 = if frac_front >= 1_000_000 {
            999_999
        } else {
            frac_front
        };
        let frac_rear_c: u64 = if frac_rear >= 1_000_000 {
            999_999
        } else {
            frac_rear
        };

        if frac_front_c >= frac_rear_c {
            frac_front_c - frac_rear_c
        } else {
            frac_front_c + 1_000_000 - frac_rear_c
        }
    }

    /// Builds the race: validates the grid (distinct positions, known car
    /// numbers and drivers, start coordinates on the track), creates the cars
    /// sorted by car number, and projects the first theoretical lap times.
    pub fn new(
        race_pars: RacePars,
        sim_consts: SimConstants,
        track_pars: TrackPars,
        multipliers: Vec<u64>,
        driver_pars_all: Vec<DriverPars>,
        mut car_pars_all: Vec<CarPars>,
        timestep_size_ms: u64,
        seed: u64,
    ) -> (r: Result<Race, InputValueError>)
        requires
            race_pars.wf(),
            sim_consts.wf(),
            track_pars.wf(),
            track_pars.pit_zone[0] != track_pars.pit_zone[1],
            1 <= multipliers@.len() <= 1_000_000,
            forall|i: int| 0 <= i < multipliers@.len() ==> 500 <= #[trigger] multipliers@[i] <= 2000,
            forall|d: int| 0 <= d < driver_pars_all@.len() ==> (#[trigger] driver_pars_all@[d]).wf(),
            forall|c: int| 0 <= c < car_pars_all@.len() ==> (#[trigger] car_pars_all@[c]).wf(),
            driver_pars_all@.len() <= 10_000,
            car_pars_all@.len() <= 10_000,
            1 <= timestep_size_ms <= 1000,
        ensures
            track_pars.d_per_gridpos_mm == 0 ==> r is Err,
            r is Ok ==> {
                let race = r.unwrap();
                &&& race.wf()
                &&& race.cur_racetime_ms == 0
                &&& race.flag_state == FlagState::G
                &&& race.cur_lap_leader == 1
                &&& race.weather_state == race_pars.initial_weather
                &&& race.tot_no_laps == race_pars.tot_no_laps
                &&& race.timestep_size_ms == timestep_size_ms
                &&& race.n() == race_pars.participants@.len()
                &&& race.events@.len() == 0
                &&& (forall|i: int, j: int|
                    0 <= i < j < race.n() ==> (#[trigger] race.cars_list@[i]).p_grid != (
                    #[trigger] race.cars_list@[j]).p_grid)
                &&& (forall|i: int, j: int|
                    0 <= i < j < race.n() ==> (#[trigger] race.cars_list@[i]).car_no <= (
                    #[trigger] race.cars_list@[j]).car_no)
                &&& (forall|i: int|
                    0 <= i < race.n() ==> (#[trigger] race.cars_list@[i]).status
                        == CarStatus::Running)
            },
    {
        // grid spacing of zero would stack cars on one spot
        if track_pars.d_per_gridpos_mm == 0 {
            return Err(InputValueError);
        }
        let no_cars: usize = race_pars.participants.len();

        // create drivers
        let mut drivers_list: Vec<Driver> = Vec::new();
        let mut d: usize = 0;
        while d < driver_pars_all.len()
            invariant
                d <= driver_pars_all@.len(),
                forall|k: int| 0 <= k < driver_pars_all@.len() ==> (#[trigger] driver_pars_all@[k]).wf(),
                drivers_list@.len() == d,
                forall|k: int| 0 <= k < d ==> (#[trigger] drivers_list@[k]).wf(),
                forall|k: int|
                    0 <= k < d ==> (#[trigger] drivers_list@[k]).initials@ == driver_pars_all@[k].initials@,
            decreases driver_pars_all@.len() - d,
        {
            drivers_list.push(Driver::new(&driver_pars_all[d]));
            d = d + 1;
        }

        // take the participants in ascending car-number order
        let mut participant_keys: Vec<u64> = Vec::new();
        let mut p: usize = 0;
        while p < no_cars
            invariant
                p <= no_cars,
                no_cars == race_pars.participants@.len(),
                participant_keys@.len() == p,
                forall|k: int|
                    0 <= k < p ==> #[trigger] participant_keys@[k] == race_pars.participants@[k],
            decreases no_cars - p,
        {
            participant_keys.push(race_pars.participants[p] as u64);
            p = p + 1;
        }
        let order: Vec<usize> = argsort(&participant_keys, SortOrder::Ascending);

        // create cars, consuming their parameter records
        let mut cars_list: Vec<Car> = Vec::new();
        let mut c: usize = 0;
        while c < no_cars
            invariant
                c <= no_cars,
                no_cars == race_pars.participants@.len(),
                no_cars <= 1000,
                order@.len() == no_cars,
                participant_keys@.len() == no_cars,
                forall|k: int|
                    0 <= k < no_cars ==> #[trigger] participant_keys@[k]
                        == race_pars.participants@[k],
                forall|k: int| 0 <= k < no_cars ==> #[trigger] order@[k] < no_cars,
                forall|a: int, b: int|
                    0 <= a < b < no_cars ==> crate::general::in_order(
                        SortOrder::Ascending,
                        participant_keys@[order@[a] as int],
                        participant_keys@[order@[b] as int],
                    ),
                forall|k: int| 0 <= k < car_pars_all@.len() ==> (#[trigger] car_pars_all@[k]).wf(),
                drivers_list@.len() == driver_pars_all@.len(),
                forall|k: int| 0 <= k < drivers_list@.len() ==> (#[trigger] drivers_list@[k]).wf(),
                cars_list@.len() == c,
                forall|k: int| 0 <= k < c ==> (#[trigger] cars_list@[k]).wf(),
                forall|k: int|
                    0 <= k < c ==> (#[trigger] cars_list@[k]).car_no
                        == race_pars.participants@[order@[k] as int],
                forall|k: int|
                    0 <= k < c ==> (#[trigger] cars_list@[k]).driver_idx < drivers_list@.len(),
                forall|k: int|
                    0 <= k < c ==> (#[trigger] cars_list@[k]).status == CarStatus::Running,
                forall|k: int|
                    0 <= k < c ==> (#[trigger] cars_list@[k]).pit_location_mm
                        < track_pars.length_mm,
            decreases no_cars - c,
        {
            let car_no: u32 = race_pars.participants[order[c]];

            // find this car's parameters
            let mut found_car: Option<usize> = None;
            let mut ci: usize = 0;
            while ci < car_pars_all.len()
                invariant
                    ci <= car_pars_all@.len(),
                    forall|k: int| 0 <= k < car_pars_all@.len() ==> (#[trigger] car_pars_all@[k]).wf(),
                    found_car is Some ==> found_car.unwrap() < car_pars_all@.len()
                        && car_pars_all@[found_car.unwrap() as int].car_no == car_no,
                decreases car_pars_all@.len() - ci,
            {
                if car_pars_all[ci].car_no == car_no {
                    found_car = Some(ci);
                }
                ci = ci + 1;
            }
            let car_idx: usize = match found_car {
                Some(x) => x,
                None => {
                    return Err(InputValueError);
                },
            };
            let ghost pre_remove = car_pars_all@;
            let car_pars: CarPars = car_pars_all.remove(car_idx);
            proof {
                assert(car_pars.wf());
                assert forall|k: int|
                    0 <= k < car_pars_all@.len() implies (#[trigger] car_pars_all@[k]).wf() by {
                    if k < car_idx {
                        assert(car_pars_all@[k] == pre_remove[k]);
                    } else {
                        assert(car_pars_all@[k] == pre_remove[k + 1]);
                    }
                }
            }
            if car_pars.pit_location_mm >= track_pars.length_mm {
                return Err(InputValueError);
            }

            // find the start driver by initials
            let start_initials: &String = &car_pars.strategy[0].driver_initials;
            let mut found_driver: Option<usize> = None;
            let mut di: usize = 0;
            while di < drivers_list.len()
                invariant
                    di <= drivers_list@.len(),
                    found_driver is Some ==> found_driver.unwrap() < drivers_list@.len(),
                decreases drivers_list@.len() - di,
            {
                if drivers_list[di].initials == *start_initials {
                    found_driver = Some(di);
                }
                di = di + 1;
            }
            let driver_idx: usize = match found_driver {
                Some(x) => x,
                None => {
                    return Err(InputValueError);
                },
            };

            cars_list.push(Car::new(car_pars, driver_idx));
            c = c + 1;
        }

        // distinct grid positions (simultaneous starts are rejected)
        let mut a: usize = 0;
        while a < no_cars
            invariant
                a <= no_cars,
                no_cars == cars_list@.len(),
                forall|i: int, j: int|
                    0 <= i < j < no_cars && i < a ==> (#[trigger] cars_list@[i]).p_grid != (
                    #[trigger] cars_list@[j]).p_grid,
            decreases no_cars - a,
        {
            let mut b: usize = a + 1;
            while b < no_cars
                invariant
                    a < b <= no_cars || (a + 1 == b && b > no_cars),
                    a < no_cars,
                    no_cars == cars_list@.len(),
                    forall|j: int|
                        a < j < b ==> (#[trigger] cars_list@[j]).p_grid != cars_list@[a as int].p_grid,
                decreases no_cars - b,
            {
                if cars_list[b].p_grid == cars_list[a].p_grid {
                    return Err(InputValueError);
                }
                b = b + 1;
            }
            a = a + 1;
        }

        proof {
            assert forall|i: int, j: int|
                0 <= i < j < no_cars implies (#[trigger] cars_list@[i]).car_no <= (
            #[trigger] cars_list@[j]).car_no by {
                assert(crate::general::in_order(
                    SortOrder::Ascending,
                    participant_keys@[order@[i] as int],
                    participant_keys@[order@[j] as int],
                ));
            }
        }

        let track: Track = Track::new(track_pars, multipliers);

        // place every car on the grid
        let mut idx: usize = 0;
        while idx < no_cars
            invariant
                idx <= no_cars,
                no_cars == cars_list@.len(),
                1 <= no_cars <= 1000,
                track.wf(),
                drivers_list@.len() <= 10_000,
                forall|k: int| 0 <= k < drivers_list@.len() ==> (#[trigger] drivers_list@[k]).wf(),
                forall|k: int| 0 <= k < no_cars ==> (#[trigger] cars_list@[k]).wf(),
                forall|k: int|
                    0 <= k < no_cars ==> (#[trigger] cars_list@[k]).driver_idx
                        < drivers_list@.len(),
                forall|k: int|
                    0 <= k < no_cars ==> (#[trigger] cars_list@[k]).status == CarStatus::Running,
                forall|k: int|
                    0 <= k < no_cars ==> (#[trigger] cars_list@[k]).pit_location_mm
                        < track.length_mm,
                forall|i: int, j: int|
                    0 <= i < j < no_cars ==> (#[trigger] cars_list@[i]).p_grid != (
                    #[trigger] cars_list@[j]).p_grid,
                forall|i: int, j: int|
                    0 <= i < j < no_cars ==> (#[trigger] cars_list@[i]).car_no <= (
                    #[trigger] cars_list@[j]).car_no,
                forall|k: int|
                    0 <= k < idx ==> (#[trigger] cars_list@[k]).sh.track_length_mm
                        == track.length_mm,
            decreases no_cars - idx,
        {
            let p_grid: u32 = cars_list[idx].p_grid;
            let length: u64 = track.length_mm;
            assert(-1_000_000_000_000 <= ((p_grid - 1) as int) * track.d_per_gridpos_mm
                <= 1_000_000_000_000) by (nonlinear_arith)
                requires
                    1 <= p_grid <= 1000,
                    -100_000_000 <= track.d_per_gridpos_mm <= 100_000_000,
            ;
            let s_start_raw: i64 = track.d_first_gridpos_mm + ((p_grid - 1) as i64)
                * track.d_per_gridpos_mm;
            if !(-(length as i64) < s_start_raw && s_start_raw < length as i64) {
                return Err(InputValueError);
            }
            let drs_points: Vec<u64> = copy_u64_vec(&track.drs_measurement_points);
            let pit_zone: [u64; 2] = track.pit_zone;
            let zones: Vec<[u64; 2]> = copy_zone_vec(&track.overtaking_zones);
            let corners: Vec<[u64; 2]> = copy_zone_vec(&track.corners);
            let car = &mut cars_list[idx];
            car.sh.initialize_state_handler(
                race_pars.use_drs,
                track.turn_1_mm,
                race_pars.drs_window_ms,
                s_start_raw,
                length,
                drs_points,
                pit_zone,
                zones,
                corners,
            );
            idx = idx + 1;
        }

        // time matrices, all zero
        let rows: usize = race_pars.tot_no_laps as usize + 1;
        let laptimes: Vec<Vec<u64>> = build_zero_matrix(no_cars, rows);
        let racetimes: Vec<Vec<u64>> = build_zero_matrix(no_cars, rows);

        let mut race = Race {
            timestep_size_ms,
            cur_racetime_ms: 0,
            safety_car: SafetyCar::new(),
            sc_timer_ms: 0,
            sc_triggers: build_bool_vec(no_cars),
            season: race_pars.season,
            tot_no_laps: race_pars.tot_no_laps,
            drs_allowed_lap: race_pars.drs_allowed_lap,
            cur_lap_leader: 1,
            min_t_dist_ms: race_pars.min_t_dist_ms,
            t_duel_ms: race_pars.t_duel_ms,
            t_overtake_loser_ms: race_pars.t_overtake_loser_ms,
            drs_window_ms: race_pars.drs_window_ms,
            use_drs: race_pars.use_drs,
            flag_state: FlagState::G,
            weather_state: race_pars.initial_weather,
            t_since_weather_change_ms: 0,
            rain_probability_ppm_per_min: race_pars.rain_probability_ppm_per_min,
            sim_consts,
            track,
            race_finished: build_bool_vec(no_cars),
            laptimes,
            racetimes,
            cur_laptimes: build_u64_vec(no_cars, LAPTIME_INF_MS),
            cur_th_laptimes: build_u64_vec(no_cars, LAPTIME_INF_MS),
            cars_list,
            drivers_list,
            weather_history: Vec::new(),
            events: Vec::new(),
            rng: rng_from_seed(seed),
        };

        // project the first theoretical lap times
        let mut idx2: usize = 0;
        while idx2 < no_cars
            invariant
                idx2 <= no_cars,
                no_cars == race.n(),
                race.wf(),
                race.cur_racetime_ms == 0,
                race.flag_state == FlagState::G,
                race.cur_lap_leader == 1,
                race.weather_state == race_pars.initial_weather,
                race.tot_no_laps == race_pars.tot_no_laps,
                race.timestep_size_ms == timestep_size_ms,
                race.events@.len() == 0,
                forall|i: int, j: int|
                    0 <= i < j < race.n() ==> (#[trigger] race.cars_list@[i]).p_grid != (
                    #[trigger] race.cars_list@[j]).p_grid,
                forall|i: int, j: int|
                    0 <= i < j < race.n() ==> (#[trigger] race.cars_list@[i]).car_no <= (
                    #[trigger] race.cars_list@[j]).car_no,
                forall|i: int|
                    0 <= i < race.n() ==> (#[trigger] race.cars_list@[i]).status
                        == CarStatus::Running,
            decreases no_cars - idx2,
        {
            race.calc_th_laptime(idx2);
            idx2 = idx2 + 1;
        }

        Ok(race)
    }

    /// Projects the theoretical lap time of one car: qualifying pace plus race
    /// gap plus the car's own time loss, plus pace noise with standard
    /// deviation `(1000 - consistency) * 2` ms — exactly zero for a fully
    /// consistent driver. A retired car projects to the infinite lap time.
    pub fn calc_th_laptime(&mut self, idx: usize)
        requires
            old(self).wf(),
            idx < old(self).n(),
        ensures
            final(self).wf(),
            final(self).cars_list == old(self).cars_list,
            final(self).cur_laptimes == old(self).cur_laptimes,
            final(self).laptimes == old(self).laptimes,
            final(self).racetimes == old(self).racetimes,
            final(self).race_finished == old(self).race_finished,
            final(self).sc_triggers == old(self).sc_triggers,
            final(self).events == old(self).events,
            final(self).flag_state == old(self).flag_state,
            final(self).weather_state == old(self).weather_state,
            final(self).cur_lap_leader == old(self).cur_lap_leader,
            final(self).cur_racetime_ms == old(self).cur_racetime_ms,
            final(self).safety_car == old(self).safety_car,
            final(self).sc_timer_ms == old(self).sc_timer_ms,
            final(self).drivers_list == old(self).drivers_list,
            final(self).track == old(self).track,
            final(self).weather_history == old(self).weather_history,
            final(self).t_since_weather_change_ms == old(self).t_since_weather_change_ms,
            final(self).tot_no_laps == old(self).tot_no_laps,
            final(self).timestep_size_ms == old(self).timestep_size_ms,
            final(self).sim_consts == old(self).sim_consts,
            final(self).min_t_dist_ms == old(self).min_t_dist_ms,
            final(self).t_duel_ms == old(self).t_duel_ms,
            final(self).t_overtake_loser_ms == old(self).t_overtake_loser_ms,
            final(self).rain_probability_ppm_per_min == old(self).rain_probability_ppm_per_min,
            final(self).use_drs == old(self).use_drs,
            final(self).season == old(self).season,
            final(self).drs_allowed_lap == old(self).drs_allowed_lap,
            final(self).drs_window_ms == old(self).drs_window_ms,
            final(self).cur_th_laptimes@.len() == old(self).cur_th_laptimes@.len(),
            forall|j: int|
                0 <= j < old(self).n() && j != idx ==> final(self).cur_th_laptimes@[j] == old(self).cur_th_laptimes@[j],
            old(self).cars_list@[idx as int].status == CarStatus::DNF ==> final(self).cur_th_laptimes@[idx as int] == LAPTIME_INF_MS,
            old(self).cars_list@[idx as int].status == CarStatus::Running ==> ({
                let car = old(self).cars_list@[idx as int];
                let driver = old(self).drivers_list@[car.driver_idx as int];
                let base = old(self).t_q_plus_gap() + crate::car::spec_basic_timeloss(
                    car,
                    driver,
                    old(self).track.s_mass_us_per_kg,
                    old(self).weather_state == WeatherState::Rain,
                );
                let sigma = (1000 - driver.consistency_milli) * 2;
                exists|noise: int|
                    -6 * sigma <= noise <= 6 * sigma && (driver.consistency_milli == 1000
                        ==> noise == 0) && final(self).cur_th_laptimes@[idx as int]
                        == #[trigger] spec_clamp_th(base + noise)
            }),
    {
        if matches!(self.cars_list[idx].status, CarStatus::DNF) {
            self.cur_th_laptimes.set(idx, LAPTIME_INF_MS);
            return ;
        }
        let driver_idx: usize = self.cars_list[idx].driver_idx;
        let consistency: u32 = self.drivers_list[driver_idx].consistency_milli;
        let is_wet: bool = matches!(self.weather_state, WeatherState::Rain);
        let s_mass: u64 = self.track.s_mass_us_per_kg;
        let basic: i64;
        {
            let car = &self.cars_list[idx];
            let driver = &self.drivers_list[driver_idx];
            basic = car.calc_basic_timeloss(driver, s_mass, is_wet);
        }
        let sigma_ms: i64 = (1000 - consistency) as i64 * 2;
        let noise: i64 = draw_normal_noise_ms(&mut self.rng, sigma_ms);
        let base: i64 = (self.track.t_q_ms as i64) + (self.track.t_gap_racepace_ms as i64) + basic;
        let th_raw: i64 = base + noise;
        let th: u64 = if th_raw < 1000 {
            1000
        } else if th_raw > LAPTIME_INF_MS as i64 {
            LAPTIME_INF_MS
        } else {
            th_raw as u64
        };
        self.cur_th_laptimes.set(idx, th);
        proof {
            let car = old(self).cars_list@[idx as int];
            let driver = old(self).drivers_list@[car.driver_idx as int];
            let b = old(self).t_q_plus_gap() + crate::car::spec_basic_timeloss(
                car,
                driver,
                old(self).track.s_mass_us_per_kg,
                old(self).weather_state == WeatherState::Rain,
            );
            assert(self.cur_th_laptimes@[idx as int] == spec_clamp_th(b + noise));
        }
    }

    /// The lap time of one car before interaction resolution: infinite for a
    /// retired car; the pit-lane pace (scaled by the remaining driving share
    /// when a standstill ends this step, infinite while it lasts) for a car in
    /// the pit; otherwise the theoretical lap time shaped by the local speed
    /// multiplier, floored by the flag, with DRS (dry only), duel and corner
    /// additives. Always clamped to `[timestep, LAPTIME_INF_MS]`.
    pub open spec fn spec_base_laptime(self, i: int) -> int {
        let car = self.cars_list@[i];
        let dt = self.timestep_size_ms as int;
        if car.status == CarStatus::DNF {
            LAPTIME_INF_MS as int
        } else if car.sh.pit_act {
            let drive = self.track.length_mm * 1000 / (self.track.pit_speedlimit_mm_s as int);
            let raw = drive * self.track.real_length_pit_zone_mm / (
            self.track.track_length_pit_zone_mm as int);
            let pit_pace = if raw > LAPTIME_INF_MS as int {
                LAPTIME_INF_MS as int
            } else {
                raw
            };
            if !car.sh.pit_standstill_act {
                spec_clamp_laptime(pit_pace, dt)
            } else {
                if car.sh.t_standstill_ms + dt <= car.sh.t_standstill_target_ms {
                    LAPTIME_INF_MS as int
                } else {
                    let t_driving = car.sh.t_standstill_ms + dt - car.sh.t_standstill_target_ms;
                    spec_clamp_laptime(pit_pace * dt / t_driving, dt)
                }
            }
        } else {
            let mult = self.track.multipliers@[self.track.spec_multiplier_idx(car.sh.spec_s_cur())];
            let base = self.cur_th_laptimes@[i] * 1000 / (mult as int);
            let floor = self.spec_min_laptime_flag_state();
            let floored = if base < floor {
                floor
            } else {
                base
            };
            let frac = self.track.overtaking_zones_lap_frac_micro as int;
            let d_drs = if car.sh.drs_act && self.weather_state == WeatherState::Dry && frac > 0 {
                spec_scale_time_by_frac(self.track.t_drseffect_ms as int, frac)
            } else {
                0
            };
            let d_duel = if car.sh.duel_act && frac > 0 {
                spec_scale_time_by_frac(self.t_duel_ms as int, frac)
            } else {
                0
            };
            let d_corner = if car.sh.corner_act {
                500int
            } else {
                0int
            };
            spec_clamp_laptime(floored + d_drs + d_duel + d_corner, dt)
        }
    }

    /// Computes `spec_base_laptime` for one car.
    fn base_laptime_for_car(&self, i: usize) -> (r: u64)
        requires
            self.wf(),
            i < self.n(),
        ensures
            r == self.spec_base_laptime(i as int),
            self.timestep_size_ms <= r <= LAPTIME_INF_MS,
    {
        let dt: u64 = self.timestep_size_ms;
        if matches!(self.cars_list[i].status, CarStatus::DNF) {
            return LAPTIME_INF_MS;
        }
        if self.cars_list[i].sh.pit_act {
            let drive: u64 = self.track.length_mm * 1000 / self.track.pit_speedlimit_mm_s;
            assert(drive <= 100_000_000_000);
            assert(drive * self.track.real_length_pit_zone_mm <= 10_000_000_000_000_000_000)
                by (nonlinear_arith)
                requires
                    drive <= 100_000_000_000,
                    self.track.real_length_pit_zone_mm <= 100_000_000,
            ;
            let raw: u64 = drive * self.track.real_length_pit_zone_mm
                / self.track.track_length_pit_zone_mm;
            let pit_pace: u64 = if raw > LAPTIME_INF_MS {
                LAPTIME_INF_MS
            } else {
                raw
            };
            if !self.cars_list[i].sh.pit_standstill_act {
                return clamp_laptime(pit_pace as i64, dt);
            }
            match self.cars_list[i].sh.check_leaves_standstill(dt) {
                None => LAPTIME_INF_MS,
                Some(t_driving) => {
                    assert(pit_pace * dt <= 1_000_000_000_000_000 && pit_pace * dt / (
                    t_driving as int) <= 1_000_000_000_000_000) by (nonlinear_arith)
                        requires
                            pit_pace <= LAPTIME_INF_MS,
                            dt <= 1000,
                            1 <= t_driving,
                    ;
                    let scaled: u64 = pit_pace * dt / t_driving;
                    clamp_laptime(scaled as i64, dt)
                },
            }
        } else {
            let s_cur: u64 = self.cars_list[i].sh.get_s_tracks().1;
            let mult: u64 = self.track.multiplier_at(s_cur);
            let base: u64 = self.cur_th_laptimes[i] * 1000 / mult;
            assert(base <= 2_000_000_000_000) by (nonlinear_arith)
                requires
                    base == self.cur_th_laptimes@[i as int] * 1000 / (mult as int),
                    self.cur_th_laptimes@[i as int] <= LAPTIME_INF_MS,
                    500 <= mult,
            ;
            let floor: u64 = self.get_min_laptime_flag_state();
            let floored: u64 = if base < floor {
                floor
            } else {
                base
            };
            let frac: u64 = self.track.overtaking_zones_lap_frac_micro;
            let mut cur: i64 = floored as i64;
            if self.cars_list[i].sh.drs_act && matches!(self.weather_state, WeatherState::Dry)
                && frac > 0 {
                cur = cur + scale_time_by_frac(self.track.t_drseffect_ms, frac);
            }
            if self.cars_list[i].sh.duel_act && frac > 0 {
                cur = cur + scale_time_by_frac(self.t_duel_ms, frac);
            }
            if self.cars_list[i].sh.corner_act {
                cur = cur + 500;
            }
            clamp_laptime(cur, dt)
        }
    }

    /// Current lap times for this step: the per-car base lap time, then —
    /// outside a safety-car phase — pairwise interaction resolution (dirty
    /// air, front-driver mistakes, minor contact, overtake and blocking,
    /// collisions); under the safety car the lineup pacing of `sc_pace_cars`.
    /// Every retired car stands at the infinite lap time.
    fn calc_cur_laptimes(&mut self)
        requires
            old(self).wf(),
        ensures
            final(self).wf(),
            final(self).n() == old(self).n(),
            step_statics(*old(self), *final(self)),
            final(self).laptimes == old(self).laptimes,
            final(self).racetimes == old(self).racetimes,
            final(self).race_finished == old(self).race_finished,
            final(self).cur_th_laptimes == old(self).cur_th_laptimes,
            final(self).flag_state == old(self).flag_state,
            final(self).weather_state == old(self).weather_state,
            final(self).cur_lap_leader == old(self).cur_lap_leader,
            final(self).cur_racetime_ms == old(self).cur_racetime_ms,
            final(self).safety_car == old(self).safety_car,
            final(self).t_since_weather_change_ms == old(self).t_since_weather_change_ms,
            final(self).weather_history == old(self).weather_history,
            final(self).sc_triggers == old(self).sc_triggers,
            final(self).sc_timer_ms <= old(self).sc_timer_ms,
            forall|i: int|
                0 <= i < old(self).n() ==> car_statics_eq(
                    #[trigger] final(self).cars_list@[i],
                    old(self).cars_list@[i],
                ),
            forall|i: int|
                0 <= i < old(self).n() && old(self).cars_list@[i].status == CarStatus::DNF
                    ==> (#[trigger] final(self).cars_list@[i]).status == CarStatus::DNF,
            forall|i: int|
                0 <= i < old(self).n() && (#[trigger] final(self).cars_list@[i]).status
                    == CarStatus::DNF ==> final(self).cur_laptimes@[i] == LAPTIME_INF_MS,
            events_prefix(old(self).events@, final(self).events@),
            // a lone car races at exactly its base lap time; so does the whole
            // field on the first step of a safety-car phase
            old(self).flag_state != FlagState::Sc && old(self).n() == 1 ==> final(self).cur_laptimes@[0] == old(self).spec_base_laptime(0),
            old(self).flag_state == FlagState::Sc && !old(self).safety_car.active
                ==> forall|i: int|
                0 <= i < old(self).n() ==> #[trigger] final(self).cur_laptimes@[i] == old(self).spec_base_laptime(i),
    {
        let n: usize = self.cars_list.len();
        let dt: u64 = self.timestep_size_ms;

        // base lap times per car
        let mut i: usize = 0;
        while i < n
            invariant
                i <= n,
                n == self.n(),
                n == old(self).n(),
                self.wf(),
                step_statics(*old(self), *self),
                self.cars_list == old(self).cars_list,
                self.laptimes == old(self).laptimes,
                self.racetimes == old(self).racetimes,
                self.race_finished == old(self).race_finished,
                self.cur_th_laptimes == old(self).cur_th_laptimes,
                self.flag_state == old(self).flag_state,
                self.weather_state == old(self).weather_state,
                self.cur_lap_leader == old(self).cur_lap_leader,
                self.cur_racetime_ms == old(self).cur_racetime_ms,
                self.safety_car == old(self).safety_car,
                self.drivers_list == old(self).drivers_list,
                self.track == old(self).track,
                self.tot_no_laps == old(self).tot_no_laps,
                self.timestep_size_ms == old(self).timestep_size_ms,
                self.sim_consts == old(self).sim_consts,
                self.t_since_weather_change_ms == old(self).t_since_weather_change_ms,
                self.weather_history == old(self).weather_history,
                self.sc_triggers == old(self).sc_triggers,
                self.sc_timer_ms == old(self).sc_timer_ms,
                self.events == old(self).events,
                self.rng == old(self).rng,
                forall|k: int|
                    0 <= k < i && self.cars_list@[k].status == CarStatus::DNF
                        ==> #[trigger] self.cur_laptimes@[k] == LAPTIME_INF_MS,
                forall|k: int|
                    0 <= k < i ==> #[trigger] self.cur_laptimes@[k] == old(self).spec_base_laptime(
                        k,
                    ),
            decreases n - i,
        {
            let ghost pre = *self;
            let v: u64 = self.base_laptime_for_car(i);
            self.cur_laptimes.set(i, v);
            proof {
                lemma_accounting_preserved(pre, *self);
                assert(pre.spec_base_laptime(i as int) == old(self).spec_base_laptime(i as int));
            }
            i = i + 1;
        }

        if matches!(self.flag_state, FlagState::Sc) {
            self.sc_pace_cars();
            return ;
        }
        if n < 2 {
            return ;
        }
        self.resolve_interactions();
    }

    /// Pairwise interaction resolution in on-track order, starting after the
    /// biggest gap. Lap-time adjustments are buffered and applied afterwards,
    /// skipping cars standing at the infinite lap time.
    fn resolve_interactions(&mut self)
        requires
            old(self).wf(),
            old(self).n() >= 2,
            dnf_inf_ok(*old(self)),
        ensures
            final(self).wf(),
            interactions_frame(*old(self), *final(self)),
            dnf_inf_ok(*final(self)),
    {
        let n: usize = self.cars_list.len();
        let dt: u64 = self.timestep_size_ms;
        let idxs_sorted: Vec<usize> = self.get_idx_list_sorted_by_biggest_gap();
        let pairs: Vec<[usize; 2]> = self.get_car_pair_idxs_list(&idxs_sorted, true);

        let mut updates: Vec<(usize, i64)> = Vec::new();
        let mut pi: usize = 0;
        while pi < pairs.len()
            invariant
                pi <= pairs@.len(),
                n == self.n(),
                n == old(self).n(),
                dt == self.timestep_size_ms,
                self.wf(),
                interactions_frame(*old(self), *self),
                dnf_inf_ok(*self),
                forall|k: int|
                    0 <= k < pairs@.len() ==> (#[trigger] pairs@[k])[0] < n && pairs@[k][1] < n,
                forall|k: int|
                    0 <= k < updates@.len() ==> (#[trigger] updates@[k]).0 < n
                        && -2_000_000_000_000_000 <= updates@[k].1 <= 2_000_000_000_000_000,
            decreases pairs@.len() - pi,
        {
            let idx_front: usize = pairs[pi][0];
            let idx_rear: usize = pairs[pi][1];
            let ghost prev = *self;
            if idx_front != idx_rear {
                self.resolve_pair(idx_front, idx_rear, &mut updates);
                proof {
                    lemma_interactions_frame_trans(*old(self), prev, *self);
                }
            }
            pi = pi + 1;
        }

        // apply buffered adjustments; an infinite lap time absorbs them
        let mut k: usize = 0;
        while k < updates.len()
            invariant
                k <= updates@.len(),
                n == self.n(),
                n == old(self).n(),
                dt == self.timestep_size_ms,
                self.wf(),
                interactions_frame(*old(self), *self),
                dnf_inf_ok(*self),
                forall|j: int|
                    0 <= j < updates@.len() ==> (#[trigger] updates@[j]).0 < n
                        && -2_000_000_000_000_000 <= updates@[j].1 <= 2_000_000_000_000_000,
            decreases updates@.len() - k,
        {
            let ghost pre = *self;
            let (idx, adj): (usize, i64) = updates[k];
            let cur: u64 = self.cur_laptimes[idx];
            if cur < LAPTIME_INF_MS {
                let v: u64 = clamp_laptime(cur as i64 + adj, dt);
                self.cur_laptimes.set(idx, v);
            }
            proof {
                lemma_accounting_preserved(pre, *self);
            }
            k = k + 1;
        }
    }

    /// Resolves one (front, rear) pair, buffering lap-time adjustments:
    /// dirty air, front-driver mistakes, minor contact, overtake or blocking,
    /// and collisions, in that order.
    fn resolve_pair(&mut self, idx_front: usize, idx_rear: usize, updates: &mut Vec<(usize, i64)>)
        requires
            old(self).wf(),
            idx_front < old(self).n(),
            idx_rear < old(self).n(),
            idx_front != idx_rear,
            updates_ok(old(updates)@, old(self).n()),
            dnf_inf_ok(*old(self)),
        ensures
            final(self).wf(),
            interactions_frame(*old(self), *final(self)),
            updates_ok(final(updates)@, old(self).n()),
            dnf_inf_ok(*final(self)),
    {
        if matches!(self.cars_list[idx_front].status, CarStatus::DNF) || matches!(
            self.cars_list[idx_rear].status,
            CarStatus::DNF,
        ) {
            return ;
        }
        let dt: u64 = self.timestep_size_ms;
        let delta_proj: u64 = self.calc_projected_delta_t(idx_front, idx_rear, dt);
        let front_pit: bool = self.cars_list[idx_front].sh.pit_act;
        let rear_pit: bool = self.cars_list[idx_rear].sh.pit_act;

        let ghost s1 = *self;
        self.pair_dirty_air(idx_front, idx_rear, delta_proj, front_pit, rear_pit, updates);
        let ghost s2 = *self;
        self.pair_mistakes(idx_front, idx_rear, delta_proj, front_pit, rear_pit, updates);
        let ghost s3 = *self;
        self.pair_contact(idx_front, idx_rear, delta_proj, updates);
        let ghost s4 = *self;
        self.pair_battle(idx_front, idx_rear, delta_proj, front_pit, updates);
        let ghost s5 = *self;
        self.pair_collision(idx_front, idx_rear, delta_proj, front_pit, rear_pit);
        proof {
            lemma_interactions_frame_trans(s1, s2, s3);
            lemma_interactions_frame_trans(s1, s3, s4);
            lemma_interactions_frame_trans(s1, s4, s5);
            lemma_interactions_frame_trans(s1, s5, *self);
        }
    }

    /// Dirty air: within two seconds of projected gap the rear car loses
    /// `0.3 * intensity` seconds and wears its tires by `1 + intensity`.
    fn pair_dirty_air(
        &mut self,
        idx_front: usize,
        idx_rear: usize,
        delta_proj_ms: u64,
        front_pit: bool,
        rear_pit: bool,
        updates: &mut Vec<(usize, i64)>,
    )
        requires
            old(self).wf(),
            idx_front < old(self).n(),
            idx_rear < old(self).n(),
            updates_ok(old(updates)@, old(self).n()),
            dnf_inf_ok(*old(self)),
        ensures
            final(self).wf(),
            interactions_frame(*old(self), *final(self)),
            updates_ok(final(updates)@, old(self).n()),
            dnf_inf_ok(*final(self)),
    {
        let ghost pre = *self;
        if delta_proj_ms < 2000 && !front_pit && !rear_pit {
            let intensity: u64 = 1000 - delta_proj_ms / 2;
            updates.push((idx_rear, (300 * intensity / 1000) as i64));
            let rear_car = &mut self.cars_list[idx_rear];
            rear_car.dirty_air_wear_factor_milli = 1000 + intensity;
        }
        proof {
            lemma_accounting_preserved(pre, *self);
        }
    }

    /// Front-driver mistakes under pressure: an inconsistent driver ahead of a
    /// close pursuer locks up (time and tire wear) or runs wide (the pursuer
    /// gains), each half of the time.
    fn pair_mistakes(
        &mut self,
        idx_front: usize,
        idx_rear: usize,
        delta_proj_ms: u64,
        front_pit: bool,
        rear_pit: bool,
        updates: &mut Vec<(usize, i64)>,
    )
        requires
            old(self).wf(),
            idx_front < old(self).n(),
            idx_rear < old(self).n(),
            updates_ok(old(updates)@, old(self).n()),
            dnf_inf_ok(*old(self)),
        ensures
            final(self).wf(),
            interactions_frame(*old(self), *final(self)),
            updates_ok(final(updates)@, old(self).n()),
            dnf_inf_ok(*final(self)),
    {
        let ghost pre = *self;
        if delta_proj_ms < 1000 && !front_pit && !rear_pit {
            let c_front: u64 = self.drivers_list[self.cars_list[idx_front].driver_idx]
                .consistency_milli as u64;
            let intensity: u64 = 1000 - delta_proj_ms / 2;
            assert((1000 - c_front) * intensity <= 1_000_000) by (nonlinear_arith)
                requires
                    c_front <= 1000,
                    intensity <= 1000,
            ;
            let p_ppm: u64 = (1000 - c_front) * intensity / 20;
            if bernoulli(&mut self.rng, p_ppm) {
                if bernoulli(&mut self.rng, 500_000) {
                    // lock-up: time loss and flat-spotted tires
                    updates.push((idx_front, 1200));
                    let front_car = &mut self.cars_list[idx_front];
                    if front_car.dirty_air_wear_factor_milli <= 8_000 {
                        front_car.dirty_air_wear_factor_milli =
                            front_car.dirty_air_wear_factor_milli + 2000;
                    } else {
                        front_car.dirty_air_wear_factor_milli = 10_000;
                    }
                } else {
                    // wide off line: the front loses, the rear gains a little
                    updates.push((idx_front, 800));
                    updates.push((idx_rear, -300));
                }
            }
        }
        proof {
            lemma_accounting_preserved(pre, *self);
        }
    }

    /// Minor contact: very close running risks a small damage penalty, mostly
    /// for the rear car.
    fn pair_contact(
        &mut self,
        idx_front: usize,
        idx_rear: usize,
        delta_proj_ms: u64,
        updates: &mut Vec<(usize, i64)>,
    )
        requires
            old(self).wf(),
            idx_front < old(self).n(),
            idx_rear < old(self).n(),
            updates_ok(old(updates)@, old(self).n()),
            dnf_inf_ok(*old(self)),
        ensures
            final(self).wf(),
            interactions_frame(*old(self), *final(self)),
            updates_ok(final(updates)@, old(self).n()),
            dnf_inf_ok(*final(self)),
    {
        let ghost pre = *self;
        if delta_proj_ms < 300 {
            let a_front: u64 = self.drivers_list[self.cars_list[idx_front].driver_idx]
                .aggression_milli as u64;
            let a_rear: u64 = self.drivers_list[self.cars_list[idx_rear].driver_idx]
                .aggression_milli as u64;
            let p_ppm: u64 = 5 * (a_front + a_rear);
            if bernoulli(&mut self.rng, p_ppm) {
                let victim: usize = if bernoulli(&mut self.rng, 700_000) {
                    idx_rear
                } else {
                    idx_front
                };
                let victim_car = &mut self.cars_list[victim];
                if victim_car.damage_penalty_ms <= 999_999_700 {
                    victim_car.damage_penalty_ms = victim_car.damage_penalty_ms + 300;
                }
            }
        }
        proof {
            lemma_accounting_preserved(pre, *self);
        }
    }

    /// Overtake or close battle: within the minimum time distance a clearly
    /// faster pursuer passes outside corners (both lose a little time);
    /// otherwise the rear is held at the front's pace plus a closing margin.
    fn pair_battle(
        &mut self,
        idx_front: usize,
        idx_rear: usize,
        delta_proj_ms: u64,
        front_pit: bool,
        updates: &mut Vec<(usize, i64)>,
    )
        requires
            old(self).wf(),
            idx_front < old(self).n(),
            idx_rear < old(self).n(),
            updates_ok(old(updates)@, old(self).n()),
            dnf_inf_ok(*old(self)),
        ensures
            final(self).wf(),
            interactions_frame(*old(self), *final(self)),
            updates_ok(final(updates)@, old(self).n()),
            dnf_inf_ok(*final(self)),
    {
        let ghost pre = *self;
        if !front_pit && delta_proj_ms < self.min_t_dist_ms {
            let a_front: u64 = self.drivers_list[self.cars_list[idx_front].driver_idx]
                .aggression_milli as u64;
            let a_rear: u64 = self.drivers_list[self.cars_list[idx_rear].driver_idx]
                .aggression_milli as u64;
            let in_corner: bool = self.cars_list[idx_front].sh.corner_act
                || self.cars_list[idx_rear].sh.corner_act;
            let t_micro: u64 = 1_000_000 + 300 * a_front - 700 * a_rear;
            let theta_raw: u64 = 200 * t_micro / 1_000_000;
            let theta: u64 = if theta_raw < 50 {
                50
            } else {
                theta_raw
            };
            let th_front: u64 = self.cur_th_laptimes[idx_front];
            let th_rear: u64 = self.cur_th_laptimes[idx_rear];
            if th_front > th_rear && th_front - th_rear > theta && !in_corner {
                // the rear gets by; both lose a little time
                updates.push((idx_rear, 100));
                updates.push((idx_front, self.t_overtake_loser_ms));
            } else {
                // blocking: hold the rear at the front's pace plus a margin
                let delta_now: u64 = self.calc_projected_delta_t(idx_front, idx_rear, 0);
                let diff: i64 = if delta_now > 1_000_000 {
                    (self.min_t_dist_ms as i64) - 1_000_000
                } else {
                    (self.min_t_dist_ms as i64) - (delta_now as i64)
                };
                let cur_rear: u64 = self.cur_laptimes[idx_rear];
                let gap_add: i64 = mul_then_div_5000(diff, cur_rear);
                let target: i64 = self.cur_laptimes[idx_front] as i64 + gap_add;
                if (cur_rear as i64) < target {
                    updates.push((idx_rear, target - cur_rear as i64));
                }
            }
        }
        proof {
            lemma_accounting_preserved(pre, *self);
        }
    }

    /// Collisions: at very close range a hazard scaled by corners, aggression
    /// and the collision factor retires both cars and logs a crash.
    fn pair_collision(
        &mut self,
        idx_front: usize,
        idx_rear: usize,
        delta_proj_ms: u64,
        front_pit: bool,
        rear_pit: bool,
    )
        requires
            old(self).wf(),
            idx_front < old(self).n(),
            idx_rear < old(self).n(),
            dnf_inf_ok(*old(self)),
        ensures
            final(self).wf(),
            interactions_frame(*old(self), *final(self)),
            dnf_inf_ok(*final(self)),
    {
        let ghost pre = *self;
        if delta_proj_ms < 300 && !front_pit && !rear_pit {
            let dt: u64 = self.timestep_size_ms;
            let a_front: u64 = self.drivers_list[self.cars_list[idx_front].driver_idx]
                .aggression_milli as u64;
            let a_rear: u64 = self.drivers_list[self.cars_list[idx_rear].driver_idx]
                .aggression_milli as u64;
            let in_corner: bool = self.cars_list[idx_front].sh.corner_act
                || self.cars_list[idx_rear].sh.corner_act;
            let corner_mult: u64 = if in_corner {
                15
            } else {
                1
            };
            let damp: u64 = 200 + 800 * (a_front + a_rear) / 1000;
            let cf: u64 = self.sim_consts.collision_factor as u64;
            assert(4 * corner_mult * damp <= 108_000 && 4 * corner_mult * damp * cf
                <= 108_000_000_000) by (nonlinear_arith)
                requires
                    corner_mult <= 15,
                    damp <= 1800,
                    cf <= 1_000_000,
            ;
            let lam: u64 = 4 * corner_mult * damp * cf;
            assert(lam * dt <= 108_000_000_000_000) by (nonlinear_arith)
                requires
                    lam <= 108_000_000_000,
                    dt <= 1000,
            ;
            let p_ppm: u64 = lam * dt / 1_000_000;
            if bernoulli(&mut self.rng, p_ppm) {
                let no_front: u32 = self.cars_list[idx_front].car_no;
                let no_rear: u32 = self.cars_list[idx_rear].car_no;
                let front_car = &mut self.cars_list[idx_front];
                front_car.status = CarStatus::DNF;
                let rear_car = &mut self.cars_list[idx_rear];
                rear_car.status = CarStatus::DNF;
                self.cur_laptimes.set(idx_front, LAPTIME_INF_MS);
                self.cur_laptimes.set(idx_rear, LAPTIME_INF_MS);
                self.events.push(
                    RaceEvent {
                        kind: EventKind::Crash,
                        lap: self.cur_lap_leader,
                        time_ms: self.cur_racetime_ms,
                        cars: vec![no_front, no_rear],
                    },
                );
            }
        }
        proof {
            lemma_accounting_preserved(pre, *self);
        }
    }

    /// On-track order: car indices sorted by current position, descending.
    fn get_car_order_on_track(&self) -> (r: Vec<usize>)
        requires
            self.wf(),
        ensures
            r@.len() == self.n(),
            forall|i: int| 0 <= i < r@.len() ==> r@[i] < self.n(),
            forall|i: int, j: int| 0 <= i < j < r@.len() ==> r@[i] != r@[j],
    {
        let mut s_tracks: Vec<u64> = Vec::new();
        let mut i: usize = 0;
        let n: usize = self.cars_list.len();
        while i < n
            invariant
                i <= n,
                n == self.n(),
                self.wf(),
                s_tracks@.len() == i,
            decreases n - i,
        {
            s_tracks.push(self.cars_list[i].sh.get_s_tracks().1);
            i = i + 1;
        }
        argsort(&s_tracks, SortOrder::Descending)
    }

    /// Adjacent (front, rear) pairs of an on-track order, the rear of the last
    /// pair wrapping to the order's head; optionally without the wrap pair.
    fn get_car_pair_idxs_list(&self, idxs: &Vec<usize>, del_last_pair: bool) -> (r: Vec<
        [usize; 2],
    >)
        requires
            idxs@.len() >= 1,
            forall|i: int| 0 <= i < idxs@.len() ==> #[trigger] idxs@[i] < self.n(),
        ensures
            r@.len() == if del_last_pair {
                idxs@.len() - 1
            } else {
                idxs@.len() as int
            },
            forall|i: int|
                0 <= i < r@.len() ==> (#[trigger] r@[i])[0] < self.n() && r@[i][1] < self.n(),
            forall|i: int|
                0 <= i < r@.len() ==> (#[trigger] r@[i])[0] == idxs@[i] && r@[i][1] == idxs@[(i + 1)
                    % (idxs@.len() as int)],
    {
        let n: usize = idxs.len();
        let mut pairs: Vec<[usize; 2]> = Vec::new();
        let mut i: usize = 0;
        while i < n
            invariant
                i <= n,
                n == idxs@.len(),
                n >= 1,
                forall|k: int| 0 <= k < n ==> #[trigger] idxs@[k] < self.n(),
                pairs@.len() == i,
                forall|k: int|
                    0 <= k < i ==> (#[trigger] pairs@[k])[0] == idxs@[k] && pairs@[k][1] == idxs@[(k
                        + 1) % (n as int)],
                forall|k: int|
                    0 <= k < i ==> (#[trigger] pairs@[k])[0] < self.n() && pairs@[k][1] < self.n(),
            decreases n - i,
        {
            let rear: usize = if i + 1 < n {
                idxs[i + 1]
            } else {
                idxs[0]
            };
            proof {
                if i + 1 < n {
                    assert(((i + 1) as int) % (n as int) == i + 1) by (nonlinear_arith)
                        requires
                            0 <= i,
                            i + 1 < n,
                    ;
                } else {
                    assert(((i + 1) as int) % (n as int) == 0) by (nonlinear_arith)
                        requires
                            i + 1 == n,
                            n >= 1,
                    ;
                }
            }
            pairs.push([idxs[i], rear]);
            i = i + 1;
        }
        if del_last_pair {
            pairs.pop();
        }
        pairs
    }

    /// On-track order rotated so that iteration starts right after the
    /// biggest projected gap, avoiding chain artifacts.
    fn get_idx_list_sorted_by_biggest_gap(&self) -> (r: Vec<usize>)
        requires
            self.wf(),
            self.n() >= 1,
        ensures
            r@.len() == self.n(),
            forall|i: int| 0 <= i < r@.len() ==> r@[i] < self.n(),
            forall|i: int, j: int| 0 <= i < j < r@.len() ==> r@[i] != r@[j],
    {
        let idx_list_sorted: Vec<usize> = self.get_car_order_on_track();
        let n: usize = idx_list_sorted.len();
        let pairs: Vec<[usize; 2]> = self.get_car_pair_idxs_list(&idx_list_sorted, false);

        let mut delta_fracs: Vec<u64> = Vec::new();
        let mut k: usize = 0;
        while k < pairs.len()
            invariant
                k <= pairs@.len(),
                self.wf(),
                forall|j: int|
                    0 <= j < pairs@.len() ==> (#[trigger] pairs@[j])[0] < self.n() && pairs@[j][1]
                        < self.n(),
                delta_fracs@.len() == k,
            decreases pairs@.len() - k,
        {
            let d: u64 = self.calc_projected_delta_lap_frac(pairs[k][0], pairs[k][1], 0);
            delta_fracs.push(d);
            k = k + 1;
        }

        let start: usize = if delta_fracs.len() > 0 {
            let pair_idx_biggest_gap: usize = argmax(&delta_fracs);
            if pair_idx_biggest_gap + 1 < n {
                pair_idx_biggest_gap + 1
            } else {
                0
            }
        } else {
            0
        };

        // rotate left by `start`
        let mut rotated: Vec<usize> = Vec::new();
        let mut t: usize = 0;
        while t < n
            invariant
                t <= n,
                start < n,
                n <= 1000,
                n == idx_list_sorted@.len(),
                n == self.n(),
                forall|i: int| 0 <= i < n ==> #[trigger] idx_list_sorted@[i] < self.n(),
                forall|i: int, j: int|
                    0 <= i < j < n ==> idx_list_sorted@[i] != idx_list_sorted@[j],
                rotated@.len() == t,
                forall|i: int|
                    0 <= i < t ==> #[trigger] rotated@[i] == idx_list_sorted@[
                        if start + i < n {
                            start + i
                        } else {
                            start + i - n
                        }
                    ],
                forall|i: int| 0 <= i < t ==> #[trigger] rotated@[i] < self.n(),
            decreases n - t,
        {
            let src: usize = if start + t < n {
                start + t
            } else {
                start + t - n
            };
            rotated.push(idx_list_sorted[src]);
            t = t + 1;
        }
        proof {
            assert forall|i: int, j: int| 0 <= i < j < n implies rotated@[i] != rotated@[j] by {
                let si = if start + i < n {
                    start + i
                } else {
                    start + i - n
                };
                let sj = if start + j < n {
                    start + j
                } else {
                    start + j - n
                };
                assert(si != sj);
                if si < sj {
                    assert(idx_list_sorted@[si] != idx_list_sorted@[sj]);
                } else {
                    assert(idx_list_sorted@[sj] != idx_list_sorted@[si]);
                }
            }
        }
        rotated
    }

    /// True iff an arc-length spacing behind the safety car or the car ahead
    /// lies within the target gap plus or minus the tolerance: the lineup
    /// criterion for releasing the safety car.
    pub fn sc_gap_within(&self, gap_mm: u64) -> (r: bool)
        requires
            self.wf(),
            gap_mm <= 200_000_000,
        ensures
            r == (self.sim_consts.sc_target_gap_mm <= gap_mm + self.sim_consts.sc_gap_tolerance_mm
                && gap_mm <= self.sim_consts.sc_target_gap_mm
                + self.sim_consts.sc_gap_tolerance_mm),
    {
        gap_mm + self.sim_consts.sc_gap_tolerance_mm >= self.sim_consts.sc_target_gap_mm && gap_mm
            <= self.sim_consts.sc_target_gap_mm + self.sim_consts.sc_gap_tolerance_mm
    }

    /// Safety-car pacing: the queue behind the safety car in race-progress
    /// order; each running car targets the pace that closes its spacing to the
    /// car ahead towards the target gap, clamped between a crawl and its own
    /// theoretical pace. When every spacing lies within the tolerance, the
    /// countdown drops to the soft countdown.
    fn sc_pace_cars(&mut self)
        requires
            old(self).wf(),
            forall|k: int|
                0 <= k < old(self).n() && old(self).cars_list@[k].status == CarStatus::DNF
                    ==> #[trigger] old(self).cur_laptimes@[k] == LAPTIME_INF_MS,
        ensures
            final(self).wf(),
            final(self).n() == old(self).n(),
            step_statics(*old(self), *final(self)),
            final(self).cars_list == old(self).cars_list,
            final(self).laptimes == old(self).laptimes,
            final(self).racetimes == old(self).racetimes,
            final(self).race_finished == old(self).race_finished,
            final(self).cur_th_laptimes == old(self).cur_th_laptimes,
            final(self).flag_state == old(self).flag_state,
            final(self).weather_state == old(self).weather_state,
            final(self).cur_lap_leader == old(self).cur_lap_leader,
            final(self).cur_racetime_ms == old(self).cur_racetime_ms,
            final(self).safety_car == old(self).safety_car,
            final(self).drivers_list == old(self).drivers_list,
            final(self).track == old(self).track,
            final(self).tot_no_laps == old(self).tot_no_laps,
            final(self).timestep_size_ms == old(self).timestep_size_ms,
            final(self).sim_consts == old(self).sim_consts,
            final(self).t_since_weather_change_ms == old(self).t_since_weather_change_ms,
            final(self).weather_history == old(self).weather_history,
            final(self).sc_triggers == old(self).sc_triggers,
            final(self).events == old(self).events,
            final(self).sc_timer_ms == old(self).sc_timer_ms || final(self).sc_timer_ms == (
            if old(self).sim_consts.sc_soft_countdown_ms < old(self).sc_timer_ms {
                old(self).sim_consts.sc_soft_countdown_ms as int
            } else {
                old(self).sc_timer_ms as int
            }),
            final(self).sc_timer_ms <= old(self).sc_timer_ms,
            !old(self).safety_car.active ==> final(self).cur_laptimes == old(self).cur_laptimes,
            forall|i: int|
                0 <= i < old(self).n() && (#[trigger] final(self).cars_list@[i]).status
                    == CarStatus::DNF ==> final(self).cur_laptimes@[i] == LAPTIME_INF_MS,
    {
        if !self.safety_car.active {
            return ;
        }
        let n: usize = self.cars_list.len();
        let dt: u64 = self.timestep_size_ms;

        // order by race progress, leader first
        let mut prog_keys: Vec<u64> = Vec::new();
        let mut i: usize = 0;
        while i < n
            invariant
                i <= n,
                n == self.n(),
                self.wf(),
                prog_keys@.len() == i,
            decreases n - i,
        {
            let p: i64 = self.cars_list[i].sh.get_race_prog();
            prog_keys.push((p + 1000) as u64);
            i = i + 1;
        }
        let order: Vec<usize> = argsort(&prog_keys, SortOrder::Descending);

        let mut s_front: u64 = self.safety_car.s_track_mm;
        let mut all_within: bool = true;
        let mut k: usize = 0;
        while k < order.len()
            invariant
                k <= order@.len(),
                n == self.n(),
                dt == self.timestep_size_ms,
                self.wf(),
                order@.len() == n,
                forall|j: int| 0 <= j < n ==> #[trigger] order@[j] < n,
                s_front < self.track.length_mm,
                step_statics(*old(self), *self),
                self.cars_list == old(self).cars_list,
                self.laptimes == old(self).laptimes,
                self.racetimes == old(self).racetimes,
                self.race_finished == old(self).race_finished,
                self.cur_th_laptimes == old(self).cur_th_laptimes,
                self.flag_state == old(self).flag_state,
                self.weather_state == old(self).weather_state,
                self.cur_lap_leader == old(self).cur_lap_leader,
                self.cur_racetime_ms == old(self).cur_racetime_ms,
                self.safety_car == old(self).safety_car,
                self.drivers_list == old(self).drivers_list,
                self.track == old(self).track,
                self.tot_no_laps == old(self).tot_no_laps,
                self.timestep_size_ms == old(self).timestep_size_ms,
                self.sim_consts == old(self).sim_consts,
                self.t_since_weather_change_ms == old(self).t_since_weather_change_ms,
                self.weather_history == old(self).weather_history,
                self.sc_triggers == old(self).sc_triggers,
                self.events == old(self).events,
                self.sc_timer_ms == old(self).sc_timer_ms,
                forall|j: int|
                    0 <= j < old(self).n() && (#[trigger] self.cars_list@[j]).status
                        == CarStatus::DNF ==> self.cur_laptimes@[j] == LAPTIME_INF_MS,
            decreases order@.len() - k,
        {
            let idx: usize = order[k];
            let running: bool = matches!(self.cars_list[idx].status, CarStatus::Running);
            let pit: bool = self.cars_list[idx].sh.pit_act;
            if running && !pit {
                let s_car: u64 = self.cars_list[idx].sh.get_s_tracks().1;
                let length: u64 = self.track.length_mm;
                let gap: u64 = if s_front >= s_car {
                    s_front - s_car
                } else {
                    s_front + length - s_car
                };
                if !self.sc_gap_within(gap) {
                    all_within = false;
                }
                let v_sc: u64 = self.safety_car.speed_mm_s;
                let target_gap: u64 = self.sim_consts.sc_target_gap_mm;
                let catchup: u64 = self.sim_consts.sc_catchup_milli as u64;
                let adj: i64 = if gap >= target_gap {
                    assert((gap - target_gap) * catchup <= 200_000_000_000_000) by (nonlinear_arith)
                        requires
                            gap <= 200_000_000,
                            catchup <= 1_000_000,
                    ;
                    let m: u64 = (gap - target_gap) * catchup / 1000;
                    m as i64
                } else {
                    assert((target_gap - gap) * catchup <= 200_000_000_000_000) by (nonlinear_arith)
                        requires
                            target_gap <= 100_000_000,
                            catchup <= 1_000_000,
                    ;
                    let m: u64 = (target_gap - gap) * catchup / 1000;
                    -(m as i64)
                };
                let v_raw: i64 = v_sc as i64 + adj;
                let th: u64 = self.cur_th_laptimes[idx];
                let v_max_raw: u64 = length * 1000 / th;
                let v_max: u64 = if v_max_raw < 10_000 {
                    10_000
                } else {
                    v_max_raw
                };
                let v_target: u64 = if v_raw < 10_000 {
                    10_000
                } else if v_raw > v_max as i64 {
                    v_max
                } else {
                    v_raw as u64
                };
                let laptime: u64 = length * 1000 / v_target;
                let v: u64 = clamp_laptime(laptime as i64, dt);
                let ghost pre = *self;
                self.cur_laptimes.set(idx, v);
                proof {
                    lemma_accounting_preserved(pre, *self);
                }
                s_front = s_car;
            } else if !running {
                let ghost pre = *self;
                self.cur_laptimes.set(idx, LAPTIME_INF_MS);
                proof {
                    lemma_accounting_preserved(pre, *self);
                }
            }
            k = k + 1;
        }

        if all_within && self.sc_timer_ms > self.sim_consts.sc_soft_countdown_ms {
            self.sc_timer_ms = self.sim_consts.sc_soft_countdown_ms;
        }
    }

    /// Duel and corner activity plus the pit entry/exit transitions for every
    /// car, fed with the projected gaps to its neighbours in on-track order.
    fn handle_state_transitions(&mut self)
        requires
            old(self).wf(),
        ensures
            final(self).wf(),
            step_statics(*old(self), *final(self)),
            final(self).laptimes == old(self).laptimes,
            final(self).racetimes == old(self).racetimes,
            final(self).race_finished == old(self).race_finished,
            final(self).cur_laptimes == old(self).cur_laptimes,
            final(self).cur_th_laptimes == old(self).cur_th_laptimes,
            final(self).flag_state == old(self).flag_state,
            final(self).weather_state == old(self).weather_state,
            final(self).t_since_weather_change_ms == old(self).t_since_weather_change_ms,
            final(self).weather_history == old(self).weather_history,
            final(self).cur_lap_leader == old(self).cur_lap_leader,
            final(self).cur_racetime_ms == old(self).cur_racetime_ms,
            final(self).safety_car == old(self).safety_car,
            final(self).sc_timer_ms == old(self).sc_timer_ms,
            final(self).sc_triggers == old(self).sc_triggers,
            final(self).events == old(self).events,
            forall|i: int|
                0 <= i < old(self).n() ==> car_step_eq(
                    #[trigger] final(self).cars_list@[i],
                    old(self).cars_list@[i],
                ),
            forall|i: int|
                0 <= i < old(self).n() ==> sh_progress_eq(
                    (#[trigger] final(self).cars_list@[i]).sh,
                    old(self).cars_list@[i].sh,
                ),
    {
        let n: usize = self.cars_list.len();
        let idxs_sorted: Vec<usize> = self.get_car_order_on_track();
        let pairs: Vec<[usize; 2]> = self.get_car_pair_idxs_list(&idxs_sorted, false);
        let np: usize = pairs.len();

        let mut delta_ts: Vec<u64> = Vec::new();
        let mut i: usize = 0;
        while i < np
            invariant
                i <= np,
                self.wf(),
                self == old(self),
                np == pairs@.len(),
                forall|k: int|
                    0 <= k < np ==> (#[trigger] pairs@[k])[0] < self.n() && pairs@[k][1] < self.n(),
                delta_ts@.len() == i,
            decreases np - i,
        {
            let d: u64 = self.calc_projected_delta_t(pairs[i][0], pairs[i][1], 0);
            delta_ts.push(d);
            i = i + 1;
        }

        let mut k: usize = 0;
        while k < np
            invariant
                k <= np,
                self.wf(),
                self.n() == old(self).n(),
                np == pairs@.len(),
                np >= 1,
                delta_ts@.len() == np,
                forall|j: int|
                    0 <= j < np ==> (#[trigger] pairs@[j])[0] < self.n() && pairs@[j][1] < self.n(),
                step_statics(*old(self), *self),
                self.laptimes == old(self).laptimes,
                self.racetimes == old(self).racetimes,
                self.race_finished == old(self).race_finished,
                self.cur_laptimes == old(self).cur_laptimes,
                self.cur_th_laptimes == old(self).cur_th_laptimes,
                self.flag_state == old(self).flag_state,
                self.weather_state == old(self).weather_state,
                self.t_since_weather_change_ms == old(self).t_since_weather_change_ms,
                self.weather_history == old(self).weather_history,
                self.cur_lap_leader == old(self).cur_lap_leader,
                self.cur_racetime_ms == old(self).cur_racetime_ms,
                self.safety_car == old(self).safety_car,
                self.sc_timer_ms == old(self).sc_timer_ms,
                self.sc_triggers == old(self).sc_triggers,
                self.events == old(self).events,
                self.rng == old(self).rng,
                forall|j: int|
                    0 <= j < old(self).n() ==> car_step_eq(
                        #[trigger] self.cars_list@[j],
                        old(self).cars_list@[j],
                    ),
                forall|j: int|
                    0 <= j < old(self).n() ==> sh_progress_eq(
                        (#[trigger] self.cars_list@[j]).sh,
                        old(self).cars_list@[j].sh,
                    ),
            decreases np - k,
        {
            let car_idx: usize = pairs[k][1];
            let j: usize = if k + 1 < np {
                k + 1
            } else {
                0
            };
            let compl: u32 = self.cars_list[car_idx].sh.get_compl_lap();
            let next_lap: u32 = if compl < u32::MAX {
                compl + 1
            } else {
                compl
            };
            let pit: bool = self.cars_list[car_idx].pit_this_lap(next_lap);
            let dtf: u64 = delta_ts[k];
            let dtr: u64 = delta_ts[j];
            // a lone car has no neighbours to duel with
            let dtf_c: u64 = if np < 2 || dtf > 1000 {
                1000
            } else {
                dtf
            };
            let dtr_c: u64 = if np < 2 || dtr > 1000 {
                1000
            } else {
                dtr
            };
            let ghost pre = *self;
            let car = &mut self.cars_list[car_idx];
            car.sh.check_state_transition(dtf_c, dtr_c, pit);
            proof {
                lemma_accounting_preserved(pre, *self);
            }
            k = k + 1;
        }
    }

    /// Pit standstill handling around the pit box crossing: arms the
    /// standstill with the partial drive time of this step and a sampled
    /// standstill target, executes the tire change, pins the car at its box,
    /// and afterwards accumulates or releases the wait.
    fn handle_pit_standstill(&mut self)
        requires
            old(self).wf(),
        ensures
            final(self).wf(),
            step_statics(*old(self), *final(self)),
            final(self).laptimes == old(self).laptimes,
            final(self).racetimes == old(self).racetimes,
            final(self).race_finished == old(self).race_finished,
            final(self).cur_laptimes == old(self).cur_laptimes,
            final(self).flag_state == old(self).flag_state,
            final(self).weather_state == old(self).weather_state,
            final(self).t_since_weather_change_ms == old(self).t_since_weather_change_ms,
            final(self).weather_history == old(self).weather_history,
            final(self).cur_lap_leader == old(self).cur_lap_leader,
            final(self).cur_racetime_ms == old(self).cur_racetime_ms,
            final(self).safety_car == old(self).safety_car,
            final(self).sc_timer_ms == old(self).sc_timer_ms,
            final(self).sc_triggers == old(self).sc_triggers,
            final(self).events == old(self).events,
            forall|i: int|
                0 <= i < old(self).n() ==> (#[trigger] final(self).cars_list@[i]).status == old(self).cars_list@[i].status,
            forall|i: int|
                0 <= i < old(self).n() ==> (#[trigger] final(self).cars_list@[i]).sh.compl_lap_cur
                    == old(self).cars_list@[i].sh.compl_lap_cur,
            forall|i: int|
                0 <= i < old(self).n() ==> (#[trigger] final(self).cars_list@[i]).strategy == old(self).cars_list@[i].strategy,
            forall|i: int|
                0 <= i < old(self).n() ==> (#[trigger] final(self).cars_list@[i]).sh.s_track_prev_mm
                    == old(self).cars_list@[i].sh.s_track_prev_mm && final(self).cars_list@[i].sh.compl_lap_prev == old(self).cars_list@[i].sh.compl_lap_prev,
            // only a car pinned at its box moves: anyone not in standstill
            // afterwards stands where it stood
            forall|i: int|
                0 <= i < old(self).n() && !(#[trigger] final(self).cars_list@[i]).sh.pit_standstill_act ==> final(self).cars_list@[i].sh.s_track_cur_mm
                    == old(self).cars_list@[i].sh.s_track_cur_mm,
    {
        let n: usize = self.cars_list.len();
        let dt: u64 = self.timestep_size_ms;
        let pits_aft: bool = self.track.pits_aft_finishline;
        let length: u64 = self.track.length_mm;
        let mut i: usize = 0;
        while i < n
            invariant
                i <= n,
                n == self.n(),
                n == old(self).n(),
                dt == self.timestep_size_ms,
                length == self.track.length_mm,
                pits_aft == self.track.pits_aft_finishline,
                self.wf(),
                step_statics(*old(self), *self),
                self.laptimes == old(self).laptimes,
                self.racetimes == old(self).racetimes,
                self.race_finished == old(self).race_finished,
                self.cur_laptimes == old(self).cur_laptimes,
                self.flag_state == old(self).flag_state,
                self.weather_state == old(self).weather_state,
                self.t_since_weather_change_ms == old(self).t_since_weather_change_ms,
                self.weather_history == old(self).weather_history,
                self.cur_lap_leader == old(self).cur_lap_leader,
                self.cur_racetime_ms == old(self).cur_racetime_ms,
                self.safety_car == old(self).safety_car,
                self.sc_timer_ms == old(self).sc_timer_ms,
                self.sc_triggers == old(self).sc_triggers,
                self.events == old(self).events,
                forall|j: int|
                    0 <= j < old(self).n() ==> (#[trigger] self.cars_list@[j]).status == old(self).cars_list@[j].status,
                forall|j: int|
                    0 <= j < old(self).n() ==> (#[trigger] self.cars_list@[j]).sh.compl_lap_cur
                        == old(self).cars_list@[j].sh.compl_lap_cur,
                forall|j: int|
                    0 <= j < old(self).n() ==> (#[trigger] self.cars_list@[j]).strategy == old(self).cars_list@[j].strategy,
                forall|j: int|
                    0 <= j < old(self).n() ==> (#[trigger] self.cars_list@[j]).sh.s_track_prev_mm
                        == old(self).cars_list@[j].sh.s_track_prev_mm
                        && self.cars_list@[j].sh.compl_lap_prev == old(self).cars_list@[j].sh.compl_lap_prev,
                forall|j: int|
                    0 <= j < old(self).n() && !(#[trigger] self.cars_list@[j]).sh.pit_standstill_act
                        ==> self.cars_list@[j].sh.s_track_cur_mm == old(self).cars_list@[j].sh.s_track_cur_mm,
                forall|j: int|
                    i <= j < n ==> #[trigger] self.cars_list@[j] == old(self).cars_list@[j],
            decreases n - i,
        {
            let pit_act: bool = self.cars_list[i].sh.pit_act;
            let standstill_act: bool = self.cars_list[i].sh.pit_standstill_act;
            if pit_act && !standstill_act {
                let pit_location: u64 = self.cars_list[i].pit_location_mm;
                if self.cars_list[i].sh.get_s_track_passed_this_step(pit_location) {
                    let s_tracks: (u64, u64) = self.cars_list[i].sh.get_s_tracks();
                    let cur: u64 = self.cur_laptimes[i];
                    let cur_c: u64 = if cur > 100_000_000 {
                        100_000_000
                    } else {
                        cur
                    };
                    let t_part_drive: u64 = if !pits_aft {
                        let diff: u64 = if pit_location > s_tracks.0 {
                            pit_location - s_tracks.0
                        } else {
                            0
                        };
                        assert(diff * cur_c <= 10_000_000_000_000_000) by (nonlinear_arith)
                            requires
                                diff <= 100_000_000,
                                cur_c <= 100_000_000,
                        ;
                        let t: u64 = diff * cur_c / length;
                        if t > dt {
                            dt
                        } else {
                            t
                        }
                    } else {
                        let diff: u64 = if s_tracks.1 > pit_location {
                            s_tracks.1 - pit_location
                        } else {
                            0
                        };
                        assert(diff * cur_c <= 10_000_000_000_000_000) by (nonlinear_arith)
                            requires
                                diff <= 100_000_000,
                                cur_c <= 100_000_000,
                        ;
                        let sub: u64 = diff * cur_c / length;
                        let sub_c: u64 = if sub > dt {
                            dt
                        } else {
                            sub
                        };
                        dt - sub_c
                    };
                    let compl: u32 = self.cars_list[i].sh.get_compl_lap();
                    let inlap: u32 = if pits_aft {
                        compl
                    } else {
                        if compl < u32::MAX {
                            compl + 1
                        } else {
                            compl
                        }
                    };
                    let t_tc: u64 = self.cars_list[i].t_add_pit_standstill(inlap);
                    let sd: u64 = self.sim_consts.pit_standstill_sd_ms;
                    let noise: i64 = draw_normal_noise_ms(&mut self.rng, sd as i64);
                    let target_raw: i64 = t_tc as i64 + noise;
                    let target: u64 = if target_raw < 0 {
                        0
                    } else {
                        target_raw as u64
                    };
                    let elapsed: u64 = dt - t_part_drive;
                    let ghost pre = *self;
                    let car = &mut self.cars_list[i];
                    car.sh.act_pit_standstill(elapsed, target);
                    car.perform_pitstop(inlap);
                    car.sh.set_s_track(pit_location);
                    proof {
                        lemma_accounting_preserved(pre, *self);
                    }
                    self.calc_th_laptime(i);
                }
            } else if standstill_act {
                let ghost pre = *self;
                let leaves: bool = self.cars_list[i].sh.check_leaves_standstill(dt).is_some();
                let car = &mut self.cars_list[i];
                if !leaves {
                    car.sh.increment_t_standstill(dt);
                } else {
                    car.sh.deact_pit_standstill();
                }
                proof {
                    lemma_accounting_preserved(pre, *self);
                }
            }
            i = i + 1;
        }
    }

    /// Lap rollovers: raises the leader lap (never lowering it), hoists the
    /// chequered flag once the leader has done all laps and then marks every
    /// car finished, writes each completed lap's time as the crossing-time
    /// difference extending the cumulative race time (touching no other matrix
    /// entry), ages tires by the consumed wear factor, burns fuel, draws
    /// engine failures and reprojects lap times.
    #[verifier::rlimit(100)]
    fn handle_lap_transitions(&mut self)
        requires
            old(self).wf(),
            old(self).cur_racetime_ms >= old(self).timestep_size_ms,
        ensures
            final(self).wf(),
            step_statics(*old(self), *final(self)),
            final(self).cur_lap_leader >= old(self).cur_lap_leader,
            forall|i: int|
                0 <= i < old(self).n() ==> final(self).cur_lap_leader > (#[trigger] old(self).cars_list@[i]).sh.compl_lap_cur || final(self).cur_lap_leader == u32::MAX,
            final(self).cur_laptimes == old(self).cur_laptimes,
            final(self).cur_racetime_ms == old(self).cur_racetime_ms,
            final(self).weather_state == old(self).weather_state,
            final(self).t_since_weather_change_ms == old(self).t_since_weather_change_ms,
            final(self).safety_car == old(self).safety_car,
            final(self).sc_timer_ms == old(self).sc_timer_ms,
            final(self).sc_triggers == old(self).sc_triggers,
            // the chequered flag comes out exactly when the leader is done,
            // and then the whole field is marked finished at once
            (final(self).flag_state == FlagState::C) == (old(self).flag_state == FlagState::C
                || final(self).cur_lap_leader > old(self).tot_no_laps),
            final(self).flag_state == old(self).flag_state || final(self).flag_state
                == FlagState::C,
            final(self).flag_state == FlagState::C ==> forall|i: int|
                0 <= i < old(self).n() ==> final(self).race_finished@[i],
            final(self).flag_state != FlagState::C ==> final(self).race_finished == old(self).race_finished,
            events_prefix(old(self).events@, final(self).events@),
            // each completed lap is written as the crossing-time difference,
            // extending the cumulative race time; no other row moves
            forall|i: int|
                0 <= i < old(self).n() && lap_written(*old(self), i) ==> #[trigger] rows_written_ok(
                    *old(self),
                    *final(self),
                    i,
                ),
            forall|i: int|
                0 <= i < old(self).n() && !lap_written(*old(self), i)
                    ==> #[trigger] rows_unchanged_ok(*old(self), *final(self), i),
            // cars without a rollover are untouched
            forall|i: int|
                0 <= i < old(self).n() && !(#[trigger] old(self).cars_list@[i]).sh.spec_new_lap()
                    ==> final(self).cars_list@[i] == old(self).cars_list@[i] && final(self).cur_th_laptimes@[i] == old(self).cur_th_laptimes@[i],
            // rollover bookkeeping: wear consumed into the stint age, wear
            // factor reset, fuel burned, strategy untouched; with a zero
            // failure rate nobody retires
            forall|i: int|
                0 <= i < old(self).n() && (#[trigger] old(self).cars_list@[i]).sh.spec_new_lap()
                    && old(self).cars_list@[i].status == CarStatus::Running ==> ({
                    let pre_car = old(self).cars_list@[i];
                    let post_car = final(self).cars_list@[i];
                    &&& post_car.tireset.compound == pre_car.tireset.compound
                    &&& post_car.tireset.age_cur_stint_millilaps == (if pre_car.tireset.age_cur_stint_millilaps
                        + pre_car.dirty_air_wear_factor_milli <= crate::tireset::AGE_CAP_MILLILAPS {
                        pre_car.tireset.age_cur_stint_millilaps
                            + pre_car.dirty_air_wear_factor_milli
                    } else {
                        crate::tireset::AGE_CAP_MILLILAPS as int
                    })
                    &&& post_car.dirty_air_wear_factor_milli == 1000
                    &&& post_car.m_fuel_g == (if pre_car.m_fuel_g >= pre_car.b_fuel_per_lap_g {
                        pre_car.m_fuel_g - pre_car.b_fuel_per_lap_g
                    } else {
                        0int
                    })
                    &&& post_car.strategy == pre_car.strategy
                    &&& post_car.sh == pre_car.sh
                    &&& (old(self).sim_consts.failure_rate_per_hour_ppm == 0 ==> post_car.status
                        == CarStatus::Running)
                }),
            forall|i: int|
                0 <= i < old(self).n() && old(self).cars_list@[i].status == CarStatus::DNF
                    ==> (#[trigger] final(self).cars_list@[i]).status == CarStatus::DNF,
            forall|i: int|
                0 <= i < old(self).n() && (#[trigger] final(self).cars_list@[i]).status
                    == CarStatus::DNF && old(self).cars_list@[i].sh.spec_new_lap() ==> final(self).cur_th_laptimes@[i] == LAPTIME_INF_MS,
            forall|i: int|
                0 <= i < old(self).n() ==> (#[trigger] final(self).cars_list@[i]).sh == old(self).cars_list@[i].sh,
    {
        let n: usize = self.cars_list.len();
        let dt: u64 = self.timestep_size_ms;

        // leader lap
        let mut i: usize = 0;
        while i < n
            invariant
                i <= n,
                n == self.n(),
                self.wf(),
                self.cur_lap_leader >= old(self).cur_lap_leader,
                forall|j: int|
                    0 <= j < i ==> self.cur_lap_leader > (#[trigger] old(self).cars_list@[j]).sh.compl_lap_cur || self.cur_lap_leader == u32::MAX,
                *self == (Race { cur_lap_leader: self.cur_lap_leader, ..*old(self) }),
            decreases n - i,
        {
            let compl: u32 = self.cars_list[i].sh.get_compl_lap();
            if compl >= self.cur_lap_leader {
                if compl < u32::MAX {
                    self.cur_lap_leader = compl + 1;
                } else {
                    self.cur_lap_leader = u32::MAX;
                }
            }
            i = i + 1;
        }

        // record the weather of the lap the leader just opened
        if self.weather_history.len() < 100_000 {
            self.weather_history.push(self.weather_state);
        }

        if self.cur_lap_leader > self.tot_no_laps && !matches!(self.flag_state, FlagState::C) {
            self.flag_state = FlagState::C;
        }

        // at completion the whole field is marked finished at once
        if matches!(self.flag_state, FlagState::C) {
            let mut f: usize = 0;
            while f < n
                invariant
                    f <= n,
                    n == self.n(),
                    self.wf(),
                    self.race_finished@.len() == n,
                    self.cur_lap_leader >= old(self).cur_lap_leader,
                    forall|j: int|
                        0 <= j < n ==> self.cur_lap_leader > (#[trigger] old(self).cars_list@[j]).sh.compl_lap_cur || self.cur_lap_leader == u32::MAX,
                    self.flag_state == FlagState::C,
                    old(self).flag_state == FlagState::C || self.cur_lap_leader > old(self).tot_no_laps,
                    forall|j: int| 0 <= j < f ==> self.race_finished@[j],
                    *self == (Race {
                        cur_lap_leader: self.cur_lap_leader,
                        flag_state: self.flag_state,
                        weather_history: self.weather_history,
                        race_finished: self.race_finished,
                        ..*old(self)
                    }),
                decreases n - f,
            {
                self.race_finished.set(f, true);
                f = f + 1;
            }
        }

        // per-car rollover accounting
        let mut c: usize = 0;
        while c < n
            invariant
                c <= n,
                n == self.n(),
                n == old(self).n(),
                dt == self.timestep_size_ms,
                self.wf(),
                self.cur_racetime_ms >= dt,
                step_statics(*old(self), *self),
                self.cur_lap_leader >= old(self).cur_lap_leader,
                forall|j: int|
                    0 <= j < n ==> self.cur_lap_leader > (#[trigger] old(self).cars_list@[j]).sh.compl_lap_cur || self.cur_lap_leader == u32::MAX,
                (self.flag_state == FlagState::C) == (old(self).flag_state == FlagState::C
                    || self.cur_lap_leader > old(self).tot_no_laps),
                self.flag_state == old(self).flag_state || self.flag_state == FlagState::C,
                self.flag_state == FlagState::C ==> forall|j: int|
                    0 <= j < n ==> self.race_finished@[j],
                self.flag_state != FlagState::C ==> self.race_finished == old(self).race_finished,
                self.race_finished@.len() == n,
                self.cur_laptimes == old(self).cur_laptimes,
                self.cur_racetime_ms == old(self).cur_racetime_ms,
                self.weather_state == old(self).weather_state,
                self.t_since_weather_change_ms == old(self).t_since_weather_change_ms,
                self.safety_car == old(self).safety_car,
                self.sc_timer_ms == old(self).sc_timer_ms,
                self.sc_triggers == old(self).sc_triggers,
                events_prefix(old(self).events@, self.events@),
                // unprocessed cars and their projections are untouched
                forall|j: int|
                    c <= j < n ==> #[trigger] self.cars_list@[j] == old(self).cars_list@[j],
                forall|j: int|
                    c <= j < n ==> #[trigger] self.cur_th_laptimes@[j] == old(self).cur_th_laptimes@[j],
                // written and untouched rows of the time matrices
                forall|j: int|
                    0 <= j < c && lap_written(*old(self), j) ==> #[trigger] rows_written_ok(
                        *old(self),
                        *self,
                        j,
                    ),
                forall|j: int|
                    0 <= j < n && !(j < c && lap_written(*old(self), j))
                        ==> #[trigger] rows_unchanged_ok(*old(self), *self, j),
                // processed cars carry the rollover postconditions
                forall|j: int|
                    0 <= j < c && !(#[trigger] old(self).cars_list@[j]).sh.spec_new_lap()
                        ==> self.cars_list@[j] == old(self).cars_list@[j] && self.cur_th_laptimes@[j]
                        == old(self).cur_th_laptimes@[j],
                forall|j: int|
                    0 <= j < c && (#[trigger] old(self).cars_list@[j]).sh.spec_new_lap() && old(self).cars_list@[j].status == CarStatus::Running ==> ({
                        let pre_car = old(self).cars_list@[j];
                        let post_car = self.cars_list@[j];
                        &&& post_car.tireset.compound == pre_car.tireset.compound
                        &&& post_car.tireset.age_cur_stint_millilaps == (if pre_car.tireset.age_cur_stint_millilaps
                            + pre_car.dirty_air_wear_factor_milli
                            <= crate::tireset::AGE_CAP_MILLILAPS {
                            pre_car.tireset.age_cur_stint_millilaps
                                + pre_car.dirty_air_wear_factor_milli
                        } else {
                            crate::tireset::AGE_CAP_MILLILAPS as int
                        })
                        &&& post_car.dirty_air_wear_factor_milli == 1000
                        &&& post_car.m_fuel_g == (if pre_car.m_fuel_g >= pre_car.b_fuel_per_lap_g {
                            pre_car.m_fuel_g - pre_car.b_fuel_per_lap_g
                        } else {
                            0int
                        })
                        &&& post_car.strategy == pre_car.strategy
                        &&& post_car.sh == pre_car.sh
                        &&& (old(self).sim_consts.failure_rate_per_hour_ppm == 0
                            ==> post_car.status == CarStatus::Running)
                    }),
                forall|j: int|
                    0 <= j < n && old(self).cars_list@[j].status == CarStatus::DNF
                        ==> (#[trigger] self.cars_list@[j]).status == CarStatus::DNF,
                forall|j: int|
                    0 <= j < c && (#[trigger] self.cars_list@[j]).status == CarStatus::DNF && old(self).cars_list@[j].sh.spec_new_lap() ==> self.cur_th_laptimes@[j]
                        == LAPTIME_INF_MS,
                forall|j: int|
                    0 <= j < n ==> (#[trigger] self.cars_list@[j]).sh == old(self).cars_list@[j].sh,
            decreases n - c,
        {
            let ghost it0 = *self;
            if self.cars_list[c].sh.get_new_lap() {
                let frac_prev: u64 = self.cars_list[c].sh.get_lap_fracs().0;
                let cur: u64 = self.cur_laptimes[c];
                assert((1_000_000 - frac_prev) * cur <= 1_000_000_000_000_000_000)
                    by (nonlinear_arith)
                    requires
                        frac_prev < 1_000_000,
                        cur <= LAPTIME_INF_MS,
                ;
                let t_part_old: u64 = (1_000_000 - frac_prev) * cur / 1_000_000;
                let t_part_c: u64 = if t_part_old > LAPTIME_INF_MS {
                    LAPTIME_INF_MS
                } else {
                    t_part_old
                };
                let compl: u32 = self.cars_list[c].sh.get_compl_lap();

                let mut lap_t: u64 = cur;
                if 1 <= compl && compl as usize <= self.tot_no_laps as usize {
                    let ghost pre = *self;
                    let ki: usize = compl as usize;
                    let crossing: u64 = self.cur_racetime_ms - dt + t_part_c;
                    proof {
                        assert(lap_written(*old(self), c as int));
                        assert(rows_unchanged_ok(*old(self), *self, c as int));
                        assert(self.laptimes@[c as int] == old(self).laptimes@[c as int]);
                        assert(self.racetimes@[c as int] == old(self).racetimes@[c as int]);
                        assert(crossing == spec_crossing_time(*old(self), c as int));
                    }
                    let rt_prev: u64 = self.racetimes[c][ki - 1];
                    let lt: u64 = if crossing >= rt_prev {
                        crossing - rt_prev
                    } else {
                        0
                    };
                    let rt: u64 = rt_prev + lt;
                    let lap_row = &mut self.laptimes[c];
                    lap_row.set(ki, lt);
                    let rt_row = &mut self.racetimes[c];
                    rt_row.set(ki, rt);
                    lap_t = if lt > 0 {
                        lt
                    } else {
                        cur
                    };
                    proof {
                        assert(ki == pre.cars_list@[c as int].sh.compl_lap_cur);
                        assert(rt_prev == old(self).racetimes@[c as int]@[ki - 1]);
                        assert(lt == spec_written_lap(*old(self), c as int));
                        assert(self.laptimes@[c as int]@ =~= old(self).laptimes@[c as int]@.update(
                            ki as int,
                            lt,
                        ));
                        assert(self.racetimes@[c as int]@ =~= old(self).racetimes@[c as int]@.update(ki as int, rt));
                        assert(lt == spec_written_lap(*old(self), c as int) as u64);
                        assert(rt == (old(self).racetimes@[c as int]@[ki - 1] + spec_written_lap(
                            *old(self),
                            c as int,
                        )) as u64);
                        assert(rows_written_ok(*old(self), *self, c as int));
                        assert forall|j: int|
                            0 <= j < n && j != c implies #[trigger] self.laptimes@[j]
                            == pre.laptimes@[j] && self.racetimes@[j] == pre.racetimes@[j] by {}
                        assert(pre.laptimes@[c as int]@[ki - 1] <= 3 * RACETIME_CAP_MS);
                        assert(rt <= 3 * RACETIME_CAP_MS);
                        assert forall|a: int, b: int|
                            0 <= a < self.n() && 0 <= b <= self.tot_no_laps implies {
                            &&& #[trigger] self.laptimes@[a]@[b] <= 3 * RACETIME_CAP_MS
                            &&& self.racetimes@[a]@[b] <= 3 * RACETIME_CAP_MS
                            &&& (b == 0 ==> self.racetimes@[a]@[b] == 0 && self.laptimes@[a]@[b]
                                == 0)
                            &&& (b >= 1 && self.laptimes@[a]@[b] > 0 ==> self.racetimes@[a]@[b]
                                == self.racetimes@[a]@[b - 1] + self.laptimes@[a]@[b])
                            &&& (b > self.cars_list@[a].sh.compl_lap_cur
                                ==> self.racetimes@[a]@[b] == 0 && self.laptimes@[a]@[b] == 0)
                        } by {
                            assert(pre.laptimes@[a]@[b] <= 3 * RACETIME_CAP_MS);
                            if a != c {
                                assert(self.laptimes@[a] == pre.laptimes@[a]);
                                assert(self.racetimes@[a] == pre.racetimes@[a]);
                            } else {
                                if b != ki {
                                    assert(self.laptimes@[a]@[b] == pre.laptimes@[a]@[b]);
                                    assert(self.racetimes@[a]@[b] == pre.racetimes@[a]@[b]);
                                    if b == ki + 1 {
                                        assert(pre.laptimes@[a]@[b] == 0);
                                    } else if b >= 1 {
                                        assert(self.racetimes@[a]@[b - 1] == pre.racetimes@[a]@[b
                                            - 1]);
                                    }
                                } else {
                                    assert(self.laptimes@[a]@[b] == lt);
                                    assert(self.racetimes@[a]@[b] == rt);
                                    assert(self.racetimes@[a]@[b - 1] == pre.racetimes@[a]@[b - 1]);
                                }
                            }
                        }
                        assert(self.accounting_ok());
                    }
                }

                let draw: u32 = rng_draw_ppm(&mut self.rng);
                let failure_rate: u32 = self.sim_consts.failure_rate_per_hour_ppm;
                let was_running: bool = matches!(self.cars_list[c].status, CarStatus::Running);
                let ghost pre2 = *self;
                let car = &mut self.cars_list[c];
                car.drive_lap(lap_t, failure_rate, draw);
                proof {
                    lemma_accounting_preserved(pre2, *self);
                    assert(self.wf());
                }
                let now_dnf: bool = matches!(self.cars_list[c].status, CarStatus::DNF);
                if was_running && now_dnf {
                    let car_no: u32 = self.cars_list[c].car_no;
                    self.events.push(
                        RaceEvent {
                            kind: EventKind::EngineFailure,
                            lap: self.cur_lap_leader,
                            time_ms: self.cur_racetime_ms,
                            cars: vec![car_no],
                        },
                    );
                }
                proof {
                    assert(self.wf());
                }
                self.calc_th_laptime(c);
            }
            proof {
                assert forall|j: int|
                    0 <= j < n && !(j < c + 1 && lap_written(*old(self), j))
                    implies #[trigger] rows_unchanged_ok(*old(self), *self, j) by {
                    assert(rows_unchanged_ok(*old(self), it0, j));
                    assert(self.laptimes@[j] == it0.laptimes@[j]);
                    assert(self.racetimes@[j] == it0.racetimes@[j]);
                }
                assert forall|j: int|
                    0 <= j < c + 1 && lap_written(*old(self), j) implies #[trigger] rows_written_ok(
                    *old(self),
                    *self,
                    j,
                ) by {
                    if j < c {
                        assert(rows_written_ok(*old(self), it0, j));
                        assert(self.laptimes@[j] == it0.laptimes@[j]);
                        assert(self.racetimes@[j] == it0.racetimes@[j]);
                    }
                }
            }
            c = c + 1;
        }
    }

    /// Weather regime: once the minimum duration has passed, a per-step
    /// Bernoulli draw toggles the weather; on a change every running car's
    /// strategy is rescheduled — onto intermediates at the next stop when rain
    /// starts, back onto the last slick within two laps when it dries up.
    fn weather_step(&mut self)
        requires
            old(self).wf(),
        ensures
            final(self).wf(),
            step_statics(*old(self), *final(self)),
            final(self).laptimes == old(self).laptimes,
            final(self).racetimes == old(self).racetimes,
            final(self).race_finished == old(self).race_finished,
            final(self).cur_laptimes == old(self).cur_laptimes,
            final(self).cur_th_laptimes == old(self).cur_th_laptimes,
            final(self).flag_state == old(self).flag_state,
            final(self).weather_history == old(self).weather_history,
            final(self).cur_lap_leader == old(self).cur_lap_leader,
            final(self).cur_racetime_ms == old(self).cur_racetime_ms,
            final(self).safety_car == old(self).safety_car,
            final(self).sc_timer_ms == old(self).sc_timer_ms,
            final(self).sc_triggers == old(self).sc_triggers,
            events_prefix(old(self).events@, final(self).events@),
            forall|i: int|
                0 <= i < old(self).n() ==> (#[trigger] final(self).cars_list@[i]).status == old(self).cars_list@[i].status && final(self).cars_list@[i].sh == old(self).cars_list@[i].sh && final(self).cars_list@[i].tireset == old(self).cars_list@[i].tireset,
            // after a switch to dry, no running car is left on rain tires
            // without a slick stop within two laps (unless its strategy is
            // full)
            old(self).weather_state == WeatherState::Rain && final(self).weather_state
                == WeatherState::Dry ==> forall|i: int|
                0 <= i < old(self).n() && (#[trigger] final(self).cars_list@[i]).status
                    == CarStatus::Running && !final(self).cars_list@[i].tireset.compound.spec_is_slick()
                    && final(self).cars_list@[i].strategy@.len() < crate::car::STRATEGY_CAP
                    ==> exists|e: int|
                    0 <= e < final(self).cars_list@[i].strategy@.len() && (#[trigger] final(self).cars_list@[i].strategy@[e]).inlap <= final(self).cars_list@[i].sh.compl_lap_cur + 2 && (final(self).cars_list@[i].strategy@[e].compound matches Some(cc) && cc.spec_is_slick()),
    {
        let dt: u64 = self.timestep_size_ms;
        if self.t_since_weather_change_ms <= RACETIME_CAP_MS {
            self.t_since_weather_change_ms = self.t_since_weather_change_ms + dt;
        }
        if self.t_since_weather_change_ms < self.sim_consts.min_weather_duration_ms {
            return ;
        }
        assert((self.rain_probability_ppm_per_min as u64) * dt <= 1_000_000_000)
            by (nonlinear_arith)
            requires
                self.rain_probability_ppm_per_min <= 1_000_000,
                dt <= 1000,
        ;
        let p_ppm: u64 = (self.rain_probability_ppm_per_min as u64) * dt / 60_000;
        if !bernoulli(&mut self.rng, p_ppm) {
            return ;
        }
        self.t_since_weather_change_ms = 0;
        if matches!(self.weather_state, WeatherState::Dry) {
            self.weather_state = WeatherState::Rain;
            self.events.push(
                RaceEvent {
                    kind: EventKind::WeatherRainStart,
                    lap: self.cur_lap_leader,
                    time_ms: self.cur_racetime_ms,
                    cars: Vec::new(),
                },
            );
            self.schedule_rain_tires();
        } else {
            self.weather_state = WeatherState::Dry;
            self.events.push(
                RaceEvent {
                    kind: EventKind::WeatherDryStart,
                    lap: self.cur_lap_leader,
                    time_ms: self.cur_racetime_ms,
                    cars: Vec::new(),
                },
            );
            self.schedule_dry_tires();
        }
    }

    /// Rain has started: every running car on slicks gets an intermediate
    /// stop at its next inlap.
    fn schedule_rain_tires(&mut self)
        requires
            old(self).wf(),
        ensures
            final(self).wf(),
            step_statics(*old(self), *final(self)),
            weather_schedule_frame(*old(self), *final(self)),
    {
        let n: usize = self.cars_list.len();
        let mut i: usize = 0;
        while i < n
            invariant
                i <= n,
                n == self.n(),
                n == old(self).n(),
                self.wf(),
                step_statics(*old(self), *self),
                weather_schedule_frame(*old(self), *self),
            decreases n - i,
        {
            let running: bool = matches!(self.cars_list[i].status, CarStatus::Running);
            let slick: bool = self.cars_list[i].get_current_compound().is_slick();
            if running && slick {
                let compl: u32 = self.cars_list[i].sh.get_compl_lap();
                let inlap: u32 = if compl < u32::MAX {
                    compl + 1
                } else {
                    compl
                };
                let ghost pre = *self;
                let car = &mut self.cars_list[i];
                car.schedule_weather_strategy(inlap, Compound::Intermediate);
                proof {
                    lemma_accounting_preserved(pre, *self);
                }
            }
            i = i + 1;
        }
    }

    /// Rain has stopped: every running car on intermediates is rescheduled
    /// onto its last slick for the next lap, cars on full wets one lap later.
    fn schedule_dry_tires(&mut self)
        requires
            old(self).wf(),
        ensures
            final(self).wf(),
            step_statics(*old(self), *final(self)),
            weather_schedule_frame(*old(self), *final(self)),
            forall|i: int|
                0 <= i < old(self).n() && (#[trigger] final(self).cars_list@[i]).status
                    == CarStatus::Running && !final(self).cars_list@[i].tireset.compound.spec_is_slick()
                    && final(self).cars_list@[i].strategy@.len() < crate::car::STRATEGY_CAP
                    ==> exists|e: int|
                    0 <= e < final(self).cars_list@[i].strategy@.len() && (#[trigger] final(self).cars_list@[i].strategy@[e]).inlap <= final(self).cars_list@[i].sh.compl_lap_cur + 2 && (final(self).cars_list@[i].strategy@[e].compound matches Some(cc) && cc.spec_is_slick()),
    {
        let n: usize = self.cars_list.len();
        let mut i: usize = 0;
        while i < n
            invariant
                i <= n,
                n == self.n(),
                n == old(self).n(),
                self.wf(),
                step_statics(*old(self), *self),
                weather_schedule_frame(*old(self), *self),
                forall|j: int|
                    0 <= j < i && (#[trigger] self.cars_list@[j]).status == CarStatus::Running
                        && !self.cars_list@[j].tireset.compound.spec_is_slick()
                        && self.cars_list@[j].strategy@.len() < crate::car::STRATEGY_CAP
                        ==> exists|e: int|
                        0 <= e < self.cars_list@[j].strategy@.len() && (#[trigger] self.cars_list@[j].strategy@[e]).inlap
                            <= self.cars_list@[j].sh.compl_lap_cur + 2 && (self.cars_list@[j].strategy@[e].compound matches Some(cc)
                            && cc.spec_is_slick()),
            decreases n - i,
        {
            let running: bool = matches!(self.cars_list[i].status, CarStatus::Running);
            let compound: Compound = self.cars_list[i].get_current_compound();
            if running && !compound.is_slick() {
                let slick_target: Compound = match self.cars_list[i].last_slick_compound {
                    Some(c) => c,
                    None => Compound::Medium,
                };
                let compl: u32 = self.cars_list[i].sh.get_compl_lap();
                let ahead: u32 = if matches!(compound, Compound::Intermediate) {
                    1
                } else {
                    2
                };
                let inlap: u32 = if compl <= u32::MAX - ahead {
                    compl + ahead
                } else {
                    u32::MAX
                };
                let ghost pre = *self;
                let car = &mut self.cars_list[i];
                car.schedule_weather_strategy(inlap, slick_target);
                proof {
                    lemma_accounting_preserved(pre, *self);
                    let si = i as int;
                    assert(slick_target.spec_is_slick());
                    if crate::car::spec_find_entry_idx(pre.cars_list@[si].strategy@, inlap) >= 0
                        || pre.cars_list@[si].strategy@.len() < crate::car::STRATEGY_CAP {
                        assert(exists|e: int|
                            0 <= e < self.cars_list@[si].strategy@.len() && (#[trigger] self.cars_list@[si].strategy@[e]).inlap
                                == inlap && self.cars_list@[si].strategy@[e].compound == Some(
                                slick_target,
                            ));
                    } else {
                        assert(self.cars_list@[si].strategy@ == pre.cars_list@[si].strategy@);
                        assert(self.cars_list@[si].strategy@.len()
                            >= crate::car::STRATEGY_CAP);
                    }
                }
            }
            i = i + 1;
        }
    }

    /// Safety-car deployment check: a retirement outside the pit lane under a
    /// racing flag moves the race to the safety-car flag, arms the hard-cap
    /// countdown and consumes every current retirement as a trigger.
    fn check_sc_trigger(&mut self)
        requires
            old(self).wf(),
        ensures
            final(self).wf(),
            step_statics(*old(self), *final(self)),
            final(self).laptimes == old(self).laptimes,
            final(self).racetimes == old(self).racetimes,
            final(self).race_finished == old(self).race_finished,
            final(self).cur_laptimes == old(self).cur_laptimes,
            final(self).cur_th_laptimes == old(self).cur_th_laptimes,
            final(self).weather_state == old(self).weather_state,
            final(self).t_since_weather_change_ms == old(self).t_since_weather_change_ms,
            final(self).weather_history == old(self).weather_history,
            final(self).cur_lap_leader == old(self).cur_lap_leader,
            final(self).cur_racetime_ms == old(self).cur_racetime_ms,
            final(self).events == old(self).events,
            final(self).cars_list == old(self).cars_list,
            final(self).flag_state == old(self).flag_state || final(self).flag_state
                == FlagState::Sc,
            old(self).flag_state == FlagState::Sc || old(self).flag_state == FlagState::C
                ==> *final(self) == *old(self),
            // a fresh retirement outside the pit lane under a racing flag
            // deploys the safety car within this step
            (old(self).flag_state != FlagState::Sc && old(self).flag_state != FlagState::C
                && exists|i: int|
                0 <= i < old(self).n() && (#[trigger] old(self).cars_list@[i]).status
                    == CarStatus::DNF && !old(self).cars_list@[i].sh.pit_act && !old(self).sc_triggers@[i] && !old(self).race_finished@[i]) ==> final(self).flag_state
                == FlagState::Sc,
    {
        if matches!(self.flag_state, FlagState::Sc) || matches!(self.flag_state, FlagState::C) {
            return ;
        }
        let n: usize = self.cars_list.len();
        let mut found: bool = false;
        let mut i: usize = 0;
        while i < n
            invariant
                i <= n,
                n == self.n(),
                self.wf(),
                self == old(self),
                found == exists|k: int|
                    0 <= k < i && (#[trigger] self.cars_list@[k]).status == CarStatus::DNF
                        && !self.cars_list@[k].sh.pit_act && !self.sc_triggers@[k]
                        && !self.race_finished@[k],
            decreases n - i,
        {
            let hit: bool = matches!(self.cars_list[i].status, CarStatus::DNF)
                && !self.cars_list[i].sh.pit_act && !self.sc_triggers[i] && !self.race_finished[i];
            if hit {
                found = true;
                assert(self.cars_list@[i as int].status == CarStatus::DNF);
            }
            i = i + 1;
        }
        if found {
            self.flag_state = FlagState::Sc;
            self.sc_timer_ms = self.sim_consts.sc_hard_cap_ms;
            self.safety_car.active = false;
            let mut j: usize = 0;
            while j < n
                invariant
                    j <= n,
                    n == self.n(),
                    self.wf(),
                    self.flag_state == FlagState::Sc,
                    self.sc_triggers@.len() == n,
                    *self == (Race {
                        flag_state: self.flag_state,
                        sc_timer_ms: self.sc_timer_ms,
                        safety_car: self.safety_car,
                        sc_triggers: self.sc_triggers,
                        ..*old(self)
                    }),
                decreases n - j,
            {
                if matches!(self.cars_list[j].status, CarStatus::DNF) {
                    self.sc_triggers.set(j, true);
                }
                j = j + 1;
            }
        }
    }

    /// Safety-car phase bookkeeping at the head of a step: counts the
    /// countdown down, inserts the safety car 500 m ahead of the leader on its
    /// first active step, advances it as a free body, and releases the race
    /// when the countdown runs out.
    fn handle_sc(&mut self)
        requires
            old(self).wf(),
        ensures
            final(self).wf(),
            step_statics(*old(self), *final(self)),
            final(self).laptimes == old(self).laptimes,
            final(self).racetimes == old(self).racetimes,
            final(self).race_finished == old(self).race_finished,
            final(self).cur_laptimes == old(self).cur_laptimes,
            final(self).cur_th_laptimes == old(self).cur_th_laptimes,
            final(self).weather_state == old(self).weather_state,
            final(self).t_since_weather_change_ms == old(self).t_since_weather_change_ms,
            final(self).weather_history == old(self).weather_history,
            final(self).cur_lap_leader == old(self).cur_lap_leader,
            final(self).cur_racetime_ms == old(self).cur_racetime_ms,
            final(self).cars_list == old(self).cars_list,
            final(self).sc_triggers == old(self).sc_triggers,
            events_prefix(old(self).events@, final(self).events@),
            old(self).flag_state != FlagState::Sc ==> final(self).flag_state == old(self).flag_state,
            final(self).flag_state == old(self).flag_state || final(self).flag_state
                == FlagState::G,
    {
        if !matches!(self.flag_state, FlagState::Sc) {
            if self.safety_car.active {
                self.safety_car.active = false;
            }
            return ;
        }
        let dt: u64 = self.timestep_size_ms;
        self.sc_timer_ms = if self.sc_timer_ms > dt {
            self.sc_timer_ms - dt
        } else {
            0
        };
        let length: u64 = self.track.length_mm;

        if !self.safety_car.active {
            // insertion ahead of the leader
            let n: usize = self.cars_list.len();
            let mut leader_idx: usize = 0;
            let mut k: usize = 0;
            while k < n
                invariant
                    k <= n,
                    n == self.n(),
                    self.wf(),
                    leader_idx < n,
                decreases n - k,
            {
                if (self.cars_list[k].sh.get_compl_lap() as u64) + 1 == self.cur_lap_leader as u64 {
                    leader_idx = k;
                }
                k = k + 1;
            }
            let s_leader: u64 = self.cars_list[leader_idx].sh.get_s_tracks().1;
            let s_raw: u64 = s_leader + 500_000;
            if s_raw >= length {
                self.safety_car.s_track_mm = s_raw % length;
                self.safety_car.lap = if self.cur_lap_leader < u32::MAX {
                    self.cur_lap_leader + 1
                } else {
                    u32::MAX
                };
            } else {
                self.safety_car.s_track_mm = s_raw;
                self.safety_car.lap = self.cur_lap_leader;
            }
            self.safety_car.speed_mm_s = self.sim_consts.sc_speed_mm_s;
            self.safety_car.active = true;
            self.events.push(
                RaceEvent {
                    kind: EventKind::ScDeployed,
                    lap: self.cur_lap_leader,
                    time_ms: self.cur_racetime_ms,
                    cars: Vec::new(),
                },
            );
        }

        // the safety car advances as a free body
        assert(self.safety_car.speed_mm_s * dt <= 1_000_000_000) by (nonlinear_arith)
            requires
                self.safety_car.speed_mm_s <= 1_000_000,
                dt <= 1000,
        ;
        let adv: u64 = self.safety_car.speed_mm_s * dt / 1000;
        let s_new: u64 = self.safety_car.s_track_mm + adv;
        if s_new >= length {
            self.safety_car.s_track_mm = s_new % length;
            self.safety_car.lap = if self.safety_car.lap < u32::MAX {
                self.safety_car.lap + 1
            } else {
                u32::MAX
            };
        } else {
            self.safety_car.s_track_mm = s_new;
        }

        if self.sc_timer_ms == 0 {
            self.flag_state = FlagState::G;
            self.safety_car.active = false;
            self.events.push(
                RaceEvent {
                    kind: EventKind::ScIn,
                    lap: self.cur_lap_leader,
                    time_ms: self.cur_racetime_ms,
                    cars: Vec::new(),
                },
            );
        }
    }

    /// Simulates one fixed time step, in the documented order: weather, the
    /// safety-car body, the deployment check, current lap times with
    /// interactions or lineup pacing, state transitions, position
    /// integration, and pit standstill and lap rollover around each other as
    /// the pit geometry demands. The leader lap never decreases and the event
    /// log is only appended to.
    #[verifier::rlimit(100)]
    pub fn simulate_timestep(&mut self)
        requires
            old(self).wf(),
            old(self).cur_racetime_ms + old(self).timestep_size_ms <= RACETIME_CAP_MS,
        ensures
            final(self).wf(),
            step_statics(*old(self), *final(self)),
            final(self).cur_racetime_ms == old(self).cur_racetime_ms + old(self).timestep_size_ms,
            final(self).cur_lap_leader >= old(self).cur_lap_leader,
            events_prefix(old(self).events@, final(self).events@),
            old(self).flag_state == FlagState::C ==> final(self).flag_state == FlagState::C,
            // the step's motion: previous position and lap shift up, and every
            // car not pinned at a pit box advances by dt * L / cur_laptime
            forall|i: int|
                0 <= i < old(self).n() ==> #[trigger] prev_shifted(*old(self), *final(self), i),
            forall|i: int|
                0 <= i < old(self).n() && !(#[trigger] final(self).cars_list@[i]).sh.pit_standstill_act ==> position_advanced(
                    *old(self),
                    *final(self),
                    i,
                ),
            // a fresh retirement outside the pit lane under a racing flag puts
            // the race behind the safety car within this step
            (old(self).flag_state != FlagState::Sc && old(self).flag_state != FlagState::C
                && exists|i: int|
                0 <= i < old(self).n() && (#[trigger] old(self).cars_list@[i]).status
                    == CarStatus::DNF && !old(self).cars_list@[i].sh.pit_act && !old(self).sc_triggers@[i] && !old(self).race_finished@[i]) ==> final(self).flag_state
                == FlagState::Sc || final(self).flag_state == FlagState::C,
    {
        self.cur_racetime_ms = self.cur_racetime_ms + self.timestep_size_ms;

        self.weather_step();
        let ghost s1 = *self;
        self.handle_sc();
        let ghost s2 = *self;
        self.check_sc_trigger();
        let ghost s3 = *self;
        proof {
            // a fresh retirement at entry is still one when the deployment
            // check runs
            if old(self).flag_state != FlagState::Sc && old(self).flag_state != FlagState::C
                && exists|i: int|
                0 <= i < old(self).n() && (#[trigger] old(self).cars_list@[i]).status
                    == CarStatus::DNF && !old(self).cars_list@[i].sh.pit_act && !old(self).sc_triggers@[i] && !old(self).race_finished@[i] {
                let i = choose|i: int|
                    0 <= i < old(self).n() && (#[trigger] old(self).cars_list@[i]).status
                        == CarStatus::DNF && !old(self).cars_list@[i].sh.pit_act && !old(self).sc_triggers@[i] && !old(self).race_finished@[i];
                assert(s1.cars_list@[i].status == CarStatus::DNF && s1.cars_list@[i].sh == old(self).cars_list@[i].sh);
                assert(s2.cars_list@[i] == s1.cars_list@[i]);
                assert(s2.cars_list@[i].status == CarStatus::DNF && !s2.cars_list@[i].sh.pit_act
                    && !s2.sc_triggers@[i] && !s2.race_finished@[i]);
                assert(s3.flag_state == FlagState::Sc);
            }
        }
        self.calc_cur_laptimes();
        let ghost s4 = *self;
        self.handle_state_transitions();
        let ghost s5 = *self;

        // position integration
        let n: usize = self.cars_list.len();
        let dt: u64 = self.timestep_size_ms;
        proof {
            assert forall|j: int|
                0 <= j < old(self).n() implies sh_progress_eq(
                (#[trigger] s5.cars_list@[j]).sh,
                old(self).cars_list@[j].sh,
            ) by {
                assert(s1.cars_list@[j].sh == old(self).cars_list@[j].sh);
                assert(s2.cars_list@[j] == s1.cars_list@[j]);
                assert(s3.cars_list@[j] == s2.cars_list@[j]);
                assert(car_statics_eq(s4.cars_list@[j], s3.cars_list@[j]));
                assert(car_step_eq(s5.cars_list@[j], s4.cars_list@[j]));
                assert(sh_progress_eq(s5.cars_list@[j].sh, s4.cars_list@[j].sh));
            }
        }
        let ghost bm = *self;
        let mut i: usize = 0;
        while i < n
            invariant
                i <= n,
                n == self.n(),
                n == bm.n(),
                dt == self.timestep_size_ms,
                self.wf(),
                self.cur_racetime_ms == bm.cur_racetime_ms,
                self.cur_racetime_ms >= dt,
                step_statics(bm, *self),
                self.cur_lap_leader == bm.cur_lap_leader,
                self.flag_state == bm.flag_state,
                self.cur_laptimes == bm.cur_laptimes,
                events_prefix(bm.events@, self.events@),
                forall|j: int| i <= j < n ==> #[trigger] self.cars_list@[j] == bm.cars_list@[j],
                forall|j: int| 0 <= j < i ==> #[trigger] prev_shifted(bm, *self, j),
                forall|j: int| 0 <= j < i ==> #[trigger] position_advanced(bm, *self, j),
                forall|j: int|
                    0 <= j < i ==> (#[trigger] self.cars_list@[j]).strategy
                        == bm.cars_list@[j].strategy && self.cars_list@[j].status
                        == bm.cars_list@[j].status && !self.cars_list@[j].sh.pit_standstill_act
                        == !bm.cars_list@[j].sh.pit_standstill_act,
            decreases n - i,
        {
            let ghost pre = *self;
            let cur: u64 = self.cur_laptimes[i];
            let car = &mut self.cars_list[i];
            car.sh.update_race_prog(cur, dt);
            proof {
                lemma_accounting_preserved(pre, *self);
                assert(prev_shifted(bm, *self, i as int));
                assert(position_advanced(bm, *self, i as int));
                assert forall|j: int| 0 <= j < i implies #[trigger] prev_shifted(bm, *self, j) by {
                    assert(prev_shifted(bm, pre, j));
                    assert(self.cars_list@[j] == pre.cars_list@[j]);
                }
                assert forall|j: int|
                    0 <= j < i implies #[trigger] position_advanced(bm, *self, j) by {
                    assert(position_advanced(bm, pre, j));
                    assert(self.cars_list@[j] == pre.cars_list@[j]);
                    assert(self.cur_laptimes@[j] == pre.cur_laptimes@[j]);
                }
            }
            i = i + 1;
        }
        let ghost s6 = *self;

        if !self.track.pits_aft_finishline {
            self.handle_pit_standstill();
        }
        let ghost s7 = *self;
        self.handle_lap_transitions();
        let ghost s8 = *self;
        if self.track.pits_aft_finishline {
            self.handle_pit_standstill();
        }

        proof {
            assert forall|j: int|
                0 <= j < old(self).n() implies #[trigger] prev_shifted(*old(self), *self, j) by {
                assert(prev_shifted(bm, s6, j));
                assert(s7.cars_list@[j].sh.s_track_prev_mm == s6.cars_list@[j].sh.s_track_prev_mm
                    && s7.cars_list@[j].sh.compl_lap_prev == s6.cars_list@[j].sh.compl_lap_prev);
                assert(s8.cars_list@[j].sh == s7.cars_list@[j].sh);
                assert(sh_progress_eq(bm.cars_list@[j].sh, old(self).cars_list@[j].sh));
            }
            assert forall|j: int|
                0 <= j < old(self).n() && !(#[trigger] self.cars_list@[j]).sh.pit_standstill_act
                implies position_advanced(*old(self), *self, j) by {
                assert(position_advanced(bm, s6, j));
                assert(s8.cars_list@[j].sh == s7.cars_list@[j].sh);
                assert(!s7.cars_list@[j].sh.pit_standstill_act
                    ==> s7.cars_list@[j].sh.s_track_cur_mm == s6.cars_list@[j].sh.s_track_cur_mm);
                assert(self.cars_list@[j].sh.compl_lap_cur == s6.cars_list@[j].sh.compl_lap_cur);
                assert(self.cur_laptimes@[j] == s6.cur_laptimes@[j]);
                assert(sh_progress_eq(bm.cars_list@[j].sh, old(self).cars_list@[j].sh));
            }
        }
    }

    /// The result payload: identification, both time matrices, the weather
    /// record, the event log and the final safety-car state.
    pub fn get_race_result(&self) -> (r: RaceResult)
        requires
            self.wf(),
        ensures
            r.tot_no_laps == self.tot_no_laps,
            r.car_driver_pairs@.len() == self.n(),
            forall|i: int|
                0 <= i < self.n() ==> (#[trigger] r.car_driver_pairs@[i]).car_no
                    == self.cars_list@[i].car_no,
            r.laptimes@.len() == self.n(),
            forall|i: int| 0 <= i < self.n() ==> (#[trigger] r.laptimes@[i])@ == self.laptimes@[i]@,
            r.racetimes@.len() == self.n(),
            forall|i: int|
                0 <= i < self.n() ==> (#[trigger] r.racetimes@[i])@ == self.racetimes@[i]@,
            r.sc_active == self.safety_car.active,
            r.sc_position_mm == self.safety_car.s_track_mm,
            r.events@.len() == self.events@.len(),
            r.weather_history@ == self.weather_history@,
    {
        let n: usize = self.cars_list.len();
        let mut pairs: Vec<CarDriverPair> = Vec::new();
        let mut i: usize = 0;
        while i < n
            invariant
                i <= n,
                n == self.n(),
                self.wf(),
                pairs@.len() == i,
                forall|k: int|
                    0 <= k < i ==> (#[trigger] pairs@[k]).car_no == self.cars_list@[k].car_no,
            decreases n - i,
        {
            let didx: usize = self.cars_list[i].driver_idx;
            pairs.push(
                CarDriverPair {
                    car_no: self.cars_list[i].car_no,
                    driver_initials: self.drivers_list[didx].initials.clone(),
                },
            );
            i = i + 1;
        }

        let mut history: Vec<WeatherState> = Vec::new();
        let mut h: usize = 0;
        while h < self.weather_history.len()
            invariant
                h <= self.weather_history@.len(),
                history@.len() == h,
                forall|k: int| 0 <= k < h ==> history@[k] == self.weather_history@[k],
            decreases self.weather_history@.len() - h,
        {
            history.push(self.weather_history[h]);
            h = h + 1;
        }
        proof {
            assert(history@ =~= self.weather_history@);
        }

        let mut events: Vec<RaceEvent> = Vec::new();
        let mut e: usize = 0;
        while e < self.events.len()
            invariant
                e <= self.events@.len(),
                events@.len() == e,
            decreases self.events@.len() - e,
        {
            let cars: Vec<u32> = copy_u32_vec(&self.events[e].cars);
            events.push(
                RaceEvent {
                    kind: self.events[e].kind,
                    lap: self.events[e].lap,
                    time_ms: self.events[e].time_ms,
                    cars,
                },
            );
            e = e + 1;
        }

        RaceResult {
            tot_no_laps: self.tot_no_laps,
            car_driver_pairs: pairs,
            laptimes: crate::race_result::copy_matrix(&self.laptimes),
            racetimes: crate::race_result::copy_matrix(&self.racetimes),
            sc_active: self.safety_car.active,
            sc_position_mm: self.safety_car.s_track_mm,
            weather_history: history,
            events,
        }
    }
}


/// The absolute time at which a car crossed the line this step: the step's
/// start plus the pre-crossing share of the step, estimated from the previous
/// lap fraction and the current lap time.
pub open spec fn spec_crossing_time(pre: Race, i: int) -> int {
    let frac_prev = pre.cars_list@[i].sh.spec_s_prev() * 1_000_000 / (pre.track.length_mm as int);
    let t_part = (1_000_000 - frac_prev) * pre.cur_laptimes@[i] / 1_000_000;
    let t_part_c = if t_part > LAPTIME_INF_MS as int {
        LAPTIME_INF_MS as int
    } else {
        t_part
    };
    pre.cur_racetime_ms - pre.timestep_size_ms + t_part_c
}

/// True when this step writes a lap entry for car `i`: a rollover whose lap
/// number lies in the recorded range.
pub open spec fn lap_written(pre: Race, i: int) -> bool {
    pre.cars_list@[i].sh.spec_new_lap() && 1 <= pre.cars_list@[i].sh.compl_lap_cur
        <= pre.tot_no_laps
}

/// The lap time written at a rollover: the crossing time minus the cumulative
/// race time of the previous lap, floored at zero.
pub open spec fn spec_written_lap(pre: Race, i: int) -> int {
    let cr = spec_crossing_time(pre, i);
    let prev = pre.racetimes@[i]@[pre.cars_list@[i].sh.compl_lap_cur - 1];
    if cr >= prev {
        cr - prev
    } else {
        0
    }
}

/// A rollover wrote car `i`'s lap: both matrix rows equal their old value
/// updated at the completed lap with the written lap time and the extended
/// cumulative race time.
pub open spec fn rows_written_ok(pre: Race, post: Race, i: int) -> bool {
    let k = pre.cars_list@[i].sh.compl_lap_cur as int;
    &&& post.laptimes@[i]@ == pre.laptimes@[i]@.update(k, spec_written_lap(pre, i) as u64)
    &&& post.racetimes@[i]@ == pre.racetimes@[i]@.update(
        k,
        (pre.racetimes@[i]@[k - 1] + spec_written_lap(pre, i)) as u64,
    )
}

/// Car `i`'s matrix rows are untouched.
pub open spec fn rows_unchanged_ok(pre: Race, post: Race, i: int) -> bool {
    post.laptimes@[i] == pre.laptimes@[i] && post.racetimes@[i] == pre.racetimes@[i]
}

/// The step shifted every car's previous position and lap counter to the
/// values it entered the step with.
pub open spec fn prev_shifted(pre: Race, post: Race, i: int) -> bool {
    &&& post.cars_list@[i].sh.s_track_prev_mm == pre.cars_list@[i].sh.s_track_cur_mm
    &&& post.cars_list@[i].sh.compl_lap_prev == pre.cars_list@[i].sh.compl_lap_cur
}

/// The step advanced car `i` by `dt * L / cur_laptime` from where it entered
/// the step, rolling the lap counter over at the line; `cur_laptime` is the
/// step's final current lap time.
pub open spec fn position_advanced(pre: Race, post: Race, i: int) -> bool {
    let dt = pre.timestep_size_ms as int;
    let l = pre.track.length_mm as int;
    let adv = dt * l / (post.cur_laptimes@[i] as int);
    let s_new = pre.cars_list@[i].sh.s_track_cur_mm + adv;
    let pre_compl = pre.cars_list@[i].sh.compl_lap_cur;
    let sh_post = post.cars_list@[i].sh;
    if s_new >= l {
        sh_post.s_track_cur_mm == s_new - l && sh_post.compl_lap_cur == (if pre_compl < u32::MAX {
            pre_compl + 1
        } else {
            pre_compl as int
        })
    } else {
        sh_post.s_track_cur_mm == s_new && sh_post.compl_lap_cur == pre_compl
    }
}

/// What no step function ever changes: configuration, geometry, grid size.
pub open spec fn step_statics(pre: Race, post: Race) -> bool {
    &&& post.cars_list@.len() == pre.cars_list@.len()
    &&& post.timestep_size_ms == pre.timestep_size_ms
    &&& post.tot_no_laps == pre.tot_no_laps
    &&& post.track == pre.track
    &&& post.drivers_list == pre.drivers_list
    &&& post.sim_consts == pre.sim_consts
    &&& post.season == pre.season
    &&& post.drs_allowed_lap == pre.drs_allowed_lap
    &&& post.min_t_dist_ms == pre.min_t_dist_ms
    &&& post.t_duel_ms == pre.t_duel_ms
    &&& post.t_overtake_loser_ms == pre.t_overtake_loser_ms
    &&& post.drs_window_ms == pre.drs_window_ms
    &&& post.use_drs == pre.use_drs
    &&& post.rain_probability_ppm_per_min == pre.rain_probability_ppm_per_min
}

/// Everything of a car that the state-transition pass leaves untouched.
pub open spec fn car_step_eq(a: Car, b: Car) -> bool {
    &&& a.car_no == b.car_no
    &&& a.color == b.color
    &&& a.status == b.status
    &&& a.t_car_ms == b.t_car_ms
    &&& a.m_fuel_g == b.m_fuel_g
    &&& a.b_fuel_per_lap_g == b.b_fuel_per_lap_g
    &&& a.t_pit_refuel_per_kg_ms == b.t_pit_refuel_per_kg_ms
    &&& a.t_pit_tirechange_ms == b.t_pit_tirechange_ms
    &&& a.pit_location_mm == b.pit_location_mm
    &&& a.strategy == b.strategy
    &&& a.p_grid == b.p_grid
    &&& a.driver_idx == b.driver_idx
    &&& a.tireset == b.tireset
    &&& a.dirty_air_wear_factor_milli == b.dirty_air_wear_factor_milli
    &&& a.last_slick_compound == b.last_slick_compound
    &&& a.damage_penalty_ms == b.damage_penalty_ms
}

/// The state handler's positions, lap counters and standstill bookkeeping —
/// what the state-transition pass leaves untouched.
pub open spec fn sh_progress_eq(a: crate::state_handler::StateHandler, b: crate::state_handler::StateHandler) -> bool {
    &&& a.s_track_prev_mm == b.s_track_prev_mm
    &&& a.s_track_cur_mm == b.s_track_cur_mm
    &&& a.compl_lap_prev == b.compl_lap_prev
    &&& a.compl_lap_cur == b.compl_lap_cur
    &&& a.t_standstill_ms == b.t_standstill_ms
    &&& a.t_standstill_target_ms == b.t_standstill_target_ms
    &&& a.track_length_mm == b.track_length_mm
    &&& a.pit_zone == b.pit_zone
    &&& a.corners == b.corners
    &&& a.overtaking_zones == b.overtaking_zones
}

/// What weather rescheduling may not touch: everything but the cars'
/// strategies and the generator.
pub open spec fn weather_schedule_frame(pre: Race, post: Race) -> bool {
    &&& post.laptimes == pre.laptimes
    &&& post.racetimes == pre.racetimes
    &&& post.race_finished == pre.race_finished
    &&& post.cur_laptimes == pre.cur_laptimes
    &&& post.cur_th_laptimes == pre.cur_th_laptimes
    &&& post.flag_state == pre.flag_state
    &&& post.weather_state == pre.weather_state
    &&& post.t_since_weather_change_ms == pre.t_since_weather_change_ms
    &&& post.weather_history == pre.weather_history
    &&& post.cur_lap_leader == pre.cur_lap_leader
    &&& post.cur_racetime_ms == pre.cur_racetime_ms
    &&& post.safety_car == pre.safety_car
    &&& post.sc_timer_ms == pre.sc_timer_ms
    &&& post.sc_triggers == pre.sc_triggers
    &&& post.events == pre.events
    &&& forall|i: int|
        0 <= i < pre.cars_list@.len() ==> (#[trigger] post.cars_list@[i]).status
            == pre.cars_list@[i].status && post.cars_list@[i].sh == pre.cars_list@[i].sh
            && post.cars_list@[i].tireset == pre.cars_list@[i].tireset
}

/// An element-exact copy of a car-number vector.
fn copy_u32_vec(x: &Vec<u32>) -> (r: Vec<u32>)
    ensures
        r@ == x@,
{
    let mut r: Vec<u32> = Vec::new();
    let mut i: usize = 0;
    while i < x.len()
        invariant
            i <= x@.len(),
            r@.len() == i,
            forall|k: int| 0 <= k < i ==> r@[k] == x@[k],
        decreases x@.len() - i,
    {
        r.push(x[i]);
        i = i + 1;
    }
    proof {
        assert(r@ =~= x@);
    }
    r
}

/// Every car always stands at a legal track coordinate: the wrapped position
/// of a well-formed state handler lies in `[0, L)`.
pub proof fn lemma_position_in_range(sh: crate::state_handler::StateHandler)
    requires
        sh.wf(),
    ensures
        0 <= sh.spec_s_cur() < sh.track_length_mm,
        0 <= sh.spec_s_prev() < sh.track_length_mm,
{
}

/// The accounting law: in a well-formed race, every written lap time extends
/// the cumulative race time, `racetimes[i][k] == racetimes[i][k-1] +
/// laptimes[i][k]` whenever `laptimes[i][k] > 0`.
pub proof fn lemma_racetime_accounting(r: Race, i: int, k: int)
    requires
        r.wf(),
        0 <= i < r.n(),
        1 <= k <= r.tot_no_laps,
        r.laptimes@[i]@[k] > 0,
    ensures
        r.racetimes@[i]@[k] == r.racetimes@[i]@[k - 1] + r.laptimes@[i]@[k],
{
}

/// Mutations that leave the time matrices alone and never lower a lap counter
/// preserve the accounting law.
pub proof fn lemma_accounting_preserved(pre: Race, post: Race)
    requires
        pre.accounting_ok(),
        post.laptimes == pre.laptimes,
        post.racetimes == pre.racetimes,
        post.tot_no_laps == pre.tot_no_laps,
        post.cars_list@.len() == pre.cars_list@.len(),
        forall|i: int|
            0 <= i < pre.cars_list@.len() ==> (#[trigger] post.cars_list@[i]).sh.compl_lap_cur
                >= pre.cars_list@[i].sh.compl_lap_cur,
    ensures
        post.accounting_ok(),
{
    assert forall|i: int, k: int|
        0 <= i < post.n() && 0 <= k <= post.tot_no_laps implies {
        &&& #[trigger] post.laptimes@[i]@[k] <= 3 * RACETIME_CAP_MS
        &&& post.racetimes@[i]@[k] <= 3 * RACETIME_CAP_MS
        &&& (k == 0 ==> post.racetimes@[i]@[k] == 0 && post.laptimes@[i]@[k] == 0)
        &&& (k >= 1 && post.laptimes@[i]@[k] > 0 ==> post.racetimes@[i]@[k]
            == post.racetimes@[i]@[k - 1] + post.laptimes@[i]@[k])
        &&& (k > post.cars_list@[i].sh.compl_lap_cur ==> post.racetimes@[i]@[k] == 0
            && post.laptimes@[i]@[k] == 0)
    } by {
        assert(pre.laptimes@[i]@[k] <= 3 * RACETIME_CAP_MS);
        assert(post.cars_list@[i].sh.compl_lap_cur >= pre.cars_list@[i].sh.compl_lap_cur);
    }
}

/// Creates and simulates a race headlessly and returns its results: the loop
/// drives fixed steps until the chequered flag is out or every car is marked
/// finished (or the race-clock cap is hit).
pub fn handle_race(
    race_pars: RacePars,
    sim_consts: SimConstants,
    track_pars: TrackPars,
    multipliers: Vec<u64>,
    driver_pars_all: Vec<DriverPars>,
    car_pars_all: Vec<CarPars>,
    timestep_size_ms: u64,
    seed: u64,
) -> (r: Result<RaceResult, InputValueError>)
    requires
        race_pars.wf(),
        sim_consts.wf(),
        track_pars.wf(),
        track_pars.pit_zone[0] != track_pars.pit_zone[1],
        1 <= multipliers@.len() <= 1_000_000,
        forall|i: int| 0 <= i < multipliers@.len() ==> 500 <= #[trigger] multipliers@[i] <= 2000,
        forall|d: int| 0 <= d < driver_pars_all@.len() ==> (#[trigger] driver_pars_all@[d]).wf(),
        forall|c: int| 0 <= c < car_pars_all@.len() ==> (#[trigger] car_pars_all@[c]).wf(),
        driver_pars_all@.len() <= 10_000,
        car_pars_all@.len() <= 10_000,
        1 <= timestep_size_ms <= 1000,
    ensures
        track_pars.d_per_gridpos_mm == 0 ==> r is Err,
        r is Ok ==> r.unwrap().tot_no_laps == race_pars.tot_no_laps,
        r is Ok ==> r.unwrap().car_driver_pairs@.len() == race_pars.participants@.len(),
{
    let race_result = Race::new(
        race_pars,
        sim_consts,
        track_pars,
        multipliers,
        driver_pars_all,
        car_pars_all,
        timestep_size_ms,
        seed,
    );
    let mut race: Race = match race_result {
        Ok(x) => x,
        Err(e) => {
            return Err(e);
        },
    };
    let ghost n0 = race.n();
    while !race.get_all_finished() && !(race.flag_state == FlagState::C)
        && race.cur_racetime_ms + race.timestep_size_ms <= RACETIME_CAP_MS
        invariant
            race.wf(),
            race.n() == n0,
            n0 == race_pars.participants@.len(),
            race.tot_no_laps == race_pars.tot_no_laps,
        decreases RACETIME_CAP_MS - race.cur_racetime_ms,
    {
        race.simulate_timestep();
    }
    Ok(race.get_race_result())
}

} // verus!