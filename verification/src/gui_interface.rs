//! Snapshot payloads for a visualization consumer: per-car progress and
//! instantaneous velocity, the race flag, safety-car state and weather, plus
//! the pacing decisions of the real-time loop (emission rate limit and sleep
//! budget).

use vstd::prelude::*;
use crate::car::CarStatus;
use crate::race::{FlagState, Race};
use crate::race_result::{RaceResult, WeatherState};

verus! {

/// At most this many snapshot emissions per race second.
pub const MAX_GUI_UPDATE_FREQUENCY: u64 = 20;

/// An RGB color.
#[derive(Debug, Clone, Copy, PartialEq, Eq, Structural)]
pub struct RgbColor {
    pub r: u8,
    pub g: u8,
    pub b: u8,
}

/// One car in a snapshot.
#[derive(Debug, Clone)]
pub struct CarState {
    pub car_no: u32,
    pub driver_initials: String,
    pub color: RgbColor,
    /// Race progress in milli-laps; negative only on the grid behind the line.
    pub race_prog_milli: i64,
    /// Instantaneous velocity in mm/s.
    pub velocity_mm_s: u64,
}

/// One snapshot of the whole race.
#[derive(Debug, Clone)]
pub struct RaceState {
    pub car_states: Vec<CarState>,
    pub flag_state: FlagState,
    pub sc_active: bool,
    /// Safety-car race progress in milli-laps.
    pub sc_race_prog_milli: u64,
    pub weather_is_rain: bool,
    /// The full result payload, present exactly once at the end of a race.
    pub final_result: Option<RaceResult>,
}

/// What `css-color-parser` decodes a color string to, when it parses.
pub uninterp spec fn css_color_of(s: Seq<char>) -> Option<(u8, u8, u8)>;

/// The library's view of an optional decoded color; an unparseable color
/// renders black.
pub open spec fn spec_rgb_or_black(c: Option<(u8, u8, u8)>) -> RgbColor {
    match c {
        Some(t) => RgbColor { r: t.0, g: t.1, b: t.2 },
        None => RgbColor { r: 0, g: 0, b: 0 },
    }
}

/// Relies on css_color_parser::Color's FromStr: decodes a CSS color string;
/// the result depends on the string alone.
#[verifier::external_body]
fn parse_css_color(s: &String) -> (r: Option<RgbColor>)
    ensures
        r == (match css_color_of(s@) {
            Some(t) => Some(RgbColor { r: t.0, g: t.1, b: t.2 }),
            None => None::<RgbColor>,
        }),
{
    match s.parse::<css_color_parser::Color>() {
        Ok(c) => Some(RgbColor { r: c.r, g: c.g, b: c.b }),
        Err(_) => None,
    }
}

/// The color a car is drawn with: its configured color, black when that does
/// not parse.
pub fn car_color(color: &String) -> (r: RgbColor)
    ensures
        r == spec_rgb_or_black(css_color_of(color@)),
{
    match parse_css_color(color) {
        Some(c) => c,
        None => RgbColor { r: 0, g: 0, b: 0 },
    }
}

/// The instantaneous display velocity of one car in mm/s: zero at a
/// standstill, the pit speed limit in the pit lane, the average pace under
/// the safety car, and otherwise the average pace shaped by the local speed
/// multiplier as `0.35 + 1.15 * m^2`.
pub open spec fn spec_velocity_mm_s(
    track_length_mm: u64,
    pit_speedlimit_mm_s: u64,
    cur_laptime_ms: u64,
    mult_milli: u64,
    standstill: bool,
    in_pit: bool,
    under_sc: bool,
) -> int {
    if standstill {
        0
    } else if in_pit {
        pit_speedlimit_mm_s as int
    } else if under_sc {
        track_length_mm * 1000 / (cur_laptime_ms as int)
    } else {
        let factor_milli = 350 + 1150 * mult_milli * mult_milli / 1_000_000;
        (track_length_mm * 1000 / (cur_laptime_ms as int)) * factor_milli / 1000
    }
}

/// Computes `spec_velocity_mm_s`.
fn velocity_mm_s(
    track_length_mm: u64,
    pit_speedlimit_mm_s: u64,
    cur_laptime_ms: u64,
    mult_milli: u64,
    standstill: bool,
    in_pit: bool,
    under_sc: bool,
) -> (r: u64)
    requires
        track_length_mm <= 100_000_000,
        1 <= cur_laptime_ms,
        500 <= mult_milli <= 2000,
    ensures
        r == spec_velocity_mm_s(
            track_length_mm,
            pit_speedlimit_mm_s,
            cur_laptime_ms,
            mult_milli,
            standstill,
            in_pit,
            under_sc,
        ),
{
    if standstill {
        0
    } else if in_pit {
        pit_speedlimit_mm_s
    } else if under_sc {
        track_length_mm * 1000 / cur_laptime_ms
    } else {
        assert(1150 * mult_milli * mult_milli <= 4_600_000_000) by (nonlinear_arith)
            requires
                mult_milli <= 2000,
        ;
        let factor_milli: u64 = 350 + 1150 * mult_milli * mult_milli / 1_000_000;
        let v_avg: u64 = track_length_mm * 1000 / cur_laptime_ms;
        assert(v_avg * factor_milli <= 1_000_000_000_000_000) by (nonlinear_arith)
            requires
                v_avg <= 100_000_000_000,
                factor_milli <= 4950,
        ;
        v_avg * factor_milli / 1000
    }
}

/// True when the rate limit allows another snapshot: at most
/// `MAX_GUI_UPDATE_FREQUENCY` emissions per race second.
pub fn should_emit_snapshot(cur_racetime_ms: u64, last_emit_ms: u64) -> (r: bool)
    requires
        last_emit_ms <= crate::race::RACETIME_CAP_MS,
    ensures
        r == (cur_racetime_ms >= last_emit_ms + 1000u64 / MAX_GUI_UPDATE_FREQUENCY),
{
    cur_racetime_ms >= last_emit_ms + 1000 / MAX_GUI_UPDATE_FREQUENCY
}

/// The real-time budget left in a step: the step length stretched by the
/// real-time factor (thousandths), minus the compute time already spent.
/// Negative when the simulation cannot keep up.
pub fn sleep_budget_ms(timestep_size_ms: u64, realtime_factor_milli: u64, elapsed_ms: u64) -> (r:
    i64)
    requires
        timestep_size_ms <= 1000,
        1 <= realtime_factor_milli <= 1_000_000,
        elapsed_ms <= 1_000_000_000,
    ensures
        r == timestep_size_ms * 1000 / (realtime_factor_milli as int) - elapsed_ms,
{
    let budget: u64 = timestep_size_ms * 1000 / realtime_factor_milli;
    budget as i64 - elapsed_ms as i64
}

/// Builds the snapshot of the current race state; the final result payload is
/// attached by the caller at race end.
pub fn get_race_state(race: &Race) -> (r: RaceState)
    requires
        race.wf(),
    ensures
        r.car_states@.len() == race.n(),
        r.sc_active == race.safety_car.active,
        r.flag_state == race.flag_state,
        r.weather_is_rain == (race.weather_state == WeatherState::Rain),
        r.final_result is None,
        forall|i: int|
            0 <= i < race.n() ==> (#[trigger] r.car_states@[i]).car_no
                == race.cars_list@[i].car_no,
        forall|i: int|
            0 <= i < race.n() ==> (#[trigger] r.car_states@[i]).race_prog_milli
                == race.cars_list@[i].sh.spec_race_prog_milli(),
{
    let n: usize = race.cars_list.len();
    let under_sc: bool = matches!(race.flag_state, FlagState::Sc);
    let mut car_states: Vec<CarState> = Vec::new();
    let mut i: usize = 0;
    while i < n
        invariant
            i <= n,
            n == race.n(),
            race.wf(),
            car_states@.len() == i,
            forall|k: int|
                0 <= k < i ==> (#[trigger] car_states@[k]).car_no == race.cars_list@[k].car_no,
            forall|k: int|
                0 <= k < i ==> (#[trigger] car_states@[k]).race_prog_milli
                    == race.cars_list@[k].sh.spec_race_prog_milli(),
        decreases n - i,
    {
        let color: RgbColor = car_color(&race.cars_list[i].color);
        let prog: i64 = race.cars_list[i].sh.get_race_prog();
        let s_cur: u64 = race.cars_list[i].sh.get_s_tracks().1;
        let mult: u64 = race.track.multiplier_at(s_cur);
        let cur: u64 = race.cur_laptimes[i];
        let velocity: u64 = velocity_mm_s(
            race.track.length_mm,
            race.track.pit_speedlimit_mm_s,
            cur,
            mult,
            race.cars_list[i].sh.pit_standstill_act,
            race.cars_list[i].sh.pit_act,
            under_sc,
        );
        let didx: usize = race.cars_list[i].driver_idx;
        car_states.push(
            CarState {
                car_no: race.cars_list[i].car_no,
                driver_initials: race.drivers_list[didx].initials.clone(),
                color,
                race_prog_milli: prog,
                velocity_mm_s: if matches!(race.cars_list[i].status, CarStatus::DNF) {
                    0
                } else {
                    velocity
                },
            },
        );
        i = i + 1;
    }

    let sc_prog: u64 = if race.safety_car.active {
        let frac: u64 = race.safety_car.s_track_mm * 1000 / race.track.length_mm;
        (race.safety_car.lap as u64) * 1000 + frac
    } else {
        0
    };

    RaceState {
        car_states,
        flag_state: race.flag_state,
        sc_active: race.safety_car.active,
        sc_race_prog_milli: sc_prog,
        weather_is_rain: matches!(race.weather_state, WeatherState::Rain),
        final_result: None,
    }
}

} // verus!
