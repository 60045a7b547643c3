//! Per-car state machine: on-track / pit-lane / pit-standstill, positions in
//! track coordinates and completed-lap counters.
//!
//! Positions are signed millimetres in `(-L, L)`: a car placed behind the
//! start-finish line on the grid carries a negative coordinate until it first
//! crosses the line. All public queries wrap into `[0, L)`.

use vstd::prelude::*;

verus! {

/// The three car states.
#[derive(Debug, Clone, Copy, PartialEq, Eq, Structural)]
pub enum State {
    OnTrack,
    Pitlane,
    PitStandstill,
}

/// Tracks one car's progress on the track and its state machine.
#[derive(Debug, Clone)]
pub struct StateHandler {
    // parameters
    pub pit_zone: [u64; 2],
    pub track_length_mm: u64,
    pub use_drs: bool,
    pub drs_blocked_s_mm: u64,
    pub drs_window_ms: u64,
    pub drs_measurement_points: Vec<u64>,
    pub overtaking_zones: Vec<[u64; 2]>,
    pub corners: Vec<[u64; 2]>,
    // track progress
    pub s_track_prev_mm: i64,
    pub s_track_cur_mm: i64,
    // state machine
    pub state: State,
    pub t_standstill_ms: u64,
    pub t_standstill_target_ms: u64,
    pub pit_act: bool,
    pub pit_standstill_act: bool,
    pub drs_act: bool,
    pub duel_act: bool,
    pub corner_act: bool,
    // race progress
    pub compl_lap_prev: u32,
    pub compl_lap_cur: u32,
}

/// Wraps a signed track coordinate into `[0, L)`.
pub open spec fn spec_wrap(s: int, length: int) -> int {
    if s < 0 {
        s + length
    } else {
        s
    }
}

/// Interval membership with wrap-around: a zone whose end does not lie
/// strictly after its start crosses the start-finish line.
pub open spec fn spec_in_zone(s: int, zone: [u64; 2]) -> bool {
    if zone[0] < zone[1] {
        zone[0] <= s <= zone[1]
    } else {
        s >= zone[0] || s <= zone[1]
    }
}

impl StateHandler {
    pub open spec fn wf(self) -> bool {
        &&& 1000 <= self.track_length_mm <= 100_000_000
        &&& -(self.track_length_mm as int) < self.s_track_prev_mm < self.track_length_mm
        &&& -(self.track_length_mm as int) < self.s_track_cur_mm < self.track_length_mm
        &&& self.pit_zone[0] < self.track_length_mm
        &&& self.pit_zone[1] < self.track_length_mm
        &&& forall|k: int|
            0 <= k < self.corners@.len() ==> (#[trigger] self.corners@[k])[0]
                < self.track_length_mm && self.corners@[k][1] < self.track_length_mm
        &&& forall|k: int|
            0 <= k < self.overtaking_zones@.len() ==> (#[trigger] self.overtaking_zones@[k])[0]
                < self.track_length_mm && self.overtaking_zones@[k][1] < self.track_length_mm
        &&& self.t_standstill_ms <= 4_000_000_000
        &&& self.t_standstill_target_ms <= 4_000_000_000
        &&& (self.pit_standstill_act <==> self.state == State::PitStandstill)
        &&& (self.pit_act <==> self.state != State::OnTrack)
        &&& self.compl_lap_prev <= self.compl_lap_cur
        &&& self.compl_lap_cur <= self.compl_lap_prev + 1
    }

    /// True when a new lap began in the last step.
    pub open spec fn spec_new_lap(self) -> bool {
        self.compl_lap_cur > self.compl_lap_prev
    }

    /// The sub-step crossing primitive: true iff the coordinate `s` lies in
    /// `(s_prev, s_cur]`, taking the lap rollover into account.
    pub open spec fn spec_crossed(self, s: int) -> bool {
        if self.spec_new_lap() {
            self.s_track_prev_mm < s || s <= self.s_track_cur_mm
        } else {
            self.s_track_prev_mm < s && s <= self.s_track_cur_mm
        }
    }

    /// The current position wrapped into `[0, L)`.
    pub open spec fn spec_s_cur(self) -> int {
        spec_wrap(self.s_track_cur_mm as int, self.track_length_mm as int)
    }

    /// The previous position wrapped into `[0, L)`.
    pub open spec fn spec_s_prev(self) -> int {
        spec_wrap(self.s_track_prev_mm as int, self.track_length_mm as int)
    }

    /// Race progress in milli-laps: completed laps plus the lap fraction. A
    /// grid position behind the line counts as negative progress on lap zero.
    pub open spec fn spec_race_prog_milli(self) -> int {
        self.compl_lap_cur * 1000 + self.spec_s_cur() * 1000 / (self.track_length_mm as int) + (
        if self.s_track_cur_mm < 0 {
            -1000int
        } else {
            0int
        })
    }

    /// True when the current position lies in one of the given zones or the
    /// start of one was crossed this step.
    pub open spec fn spec_in_or_entered_any(self, zones: Seq<[u64; 2]>) -> bool {
        exists|k: int|
            0 <= k < zones.len() && (self.spec_crossed(zones[k][0] as int) || spec_in_zone(
                self.spec_s_cur(),
                zones[k],
            ))
    }

    /// Sets the geometry and start position; the state machine starts on track.
    pub fn initialize_state_handler(
        &mut self,
        use_drs: bool,
        drs_blocked_s_mm: u64,
        drs_window_ms: u64,
        s_track_start_mm: i64,
        track_length_mm: u64,
        drs_measurement_points: Vec<u64>,
        pit_zone: [u64; 2],
        overtaking_zones: Vec<[u64; 2]>,
        corners: Vec<[u64; 2]>,
    )
        requires
            1000 <= track_length_mm <= 100_000_000,
            -(track_length_mm as int) < s_track_start_mm < track_length_mm,
            pit_zone[0] < track_length_mm,
            pit_zone[1] < track_length_mm,
            forall|k: int|
                0 <= k < corners@.len() ==> (#[trigger] corners@[k])[0] < track_length_mm
                    && corners@[k][1] < track_length_mm,
            forall|k: int|
                0 <= k < overtaking_zones@.len() ==> (#[trigger] overtaking_zones@[k])[0]
                    < track_length_mm && overtaking_zones@[k][1] < track_length_mm,
        ensures
            final(self).wf(),
            final(self).state == State::OnTrack,
            final(self).s_track_prev_mm == s_track_start_mm,
            final(self).s_track_cur_mm == s_track_start_mm,
            final(self).track_length_mm == track_length_mm,
            final(self).pit_zone == pit_zone,
            final(self).overtaking_zones == overtaking_zones,
            final(self).corners == corners,
            final(self).compl_lap_cur == 0,
            !final(self).pit_act,
            !final(self).pit_standstill_act,
    {
        self.pit_zone = pit_zone;
        self.track_length_mm = track_length_mm;
        self.use_drs = use_drs;
        self.drs_blocked_s_mm = drs_blocked_s_mm;
        self.drs_window_ms = drs_window_ms;
        self.drs_measurement_points = drs_measurement_points;
        self.overtaking_zones = overtaking_zones;
        self.corners = corners;
        self.s_track_prev_mm = s_track_start_mm;
        self.s_track_cur_mm = s_track_start_mm;
        self.state = State::OnTrack;
        self.t_standstill_ms = 0;
        self.t_standstill_target_ms = 0;
        self.pit_act = false;
        self.pit_standstill_act = false;
        self.drs_act = false;
        self.duel_act = false;
        self.corner_act = false;
        self.compl_lap_prev = 0;
        self.compl_lap_cur = 0;
    }

    /// True iff the coordinate was passed during the last step.
    pub fn get_s_track_passed_this_step(&self, s_track_mm: u64) -> (r: bool)
        requires
            self.wf(),
            s_track_mm < self.track_length_mm,
        ensures
            r == self.spec_crossed(s_track_mm as int),
    {
        let s: i64 = s_track_mm as i64;
        if self.get_new_lap() {
            self.s_track_prev_mm < s || s <= self.s_track_cur_mm
        } else {
            self.s_track_prev_mm < s && s <= self.s_track_cur_mm
        }
    }

    /// Updates duel and corner activity and runs the pit entry/exit
    /// transitions of the state machine.
    pub fn check_state_transition(
        &mut self,
        delta_t_front_ms: u64,
        delta_t_rear_ms: u64,
        pit_this_lap: bool,
    )
        requires
            old(self).wf(),
        ensures
            final(self).wf(),
            final(self).duel_act == (delta_t_front_ms < 1000 || delta_t_rear_ms < 1000),
            final(self).corner_act == old(self).spec_in_or_entered_any(old(self).corners@),
            old(self).state == State::OnTrack && pit_this_lap && old(self).spec_crossed(
                old(self).pit_zone[0] as int,
            ) ==> final(self).state == State::Pitlane && final(self).pit_act,
            old(self).state == State::OnTrack && !(pit_this_lap && old(self).spec_crossed(
                old(self).pit_zone[0] as int,
            )) ==> final(self).state == State::OnTrack && !final(self).pit_act,
            old(self).state == State::Pitlane && old(self).spec_crossed(
                old(self).pit_zone[1] as int,
            ) ==> final(self).state == State::OnTrack && !final(self).pit_act,
            old(self).state == State::Pitlane && !old(self).spec_crossed(
                old(self).pit_zone[1] as int,
            ) ==> final(self).state == State::Pitlane && final(self).pit_act,
            old(self).state == State::PitStandstill ==> final(self).state
                == State::PitStandstill,
            final(self).s_track_cur_mm == old(self).s_track_cur_mm,
            final(self).s_track_prev_mm == old(self).s_track_prev_mm,
            final(self).compl_lap_cur == old(self).compl_lap_cur,
            final(self).compl_lap_prev == old(self).compl_lap_prev,
            final(self).t_standstill_ms == old(self).t_standstill_ms,
            final(self).t_standstill_target_ms == old(self).t_standstill_target_ms,
            final(self).track_length_mm == old(self).track_length_mm,
            final(self).pit_zone == old(self).pit_zone,
            final(self).corners == old(self).corners,
            final(self).overtaking_zones == old(self).overtaking_zones,
    {
        let in_corner: bool = self.corner_active();
        self.duel_act = delta_t_front_ms < 1000 || delta_t_rear_ms < 1000;
        self.corner_act = in_corner;

        match self.state {
            State::OnTrack => {
                if pit_this_lap && self.get_s_track_passed_this_step_clamped(self.pit_zone[0]) {
                    self.state = State::Pitlane;
                    self.pit_act = true;
                }
            },
            State::Pitlane => {
                if self.get_s_track_passed_this_step_clamped(self.pit_zone[1]) {
                    self.state = State::OnTrack;
                    self.pit_act = false;
                }
            },
            State::PitStandstill => {},
        }
    }

    /// True when the car stands in a corner zone or crossed the start of one
    /// this step.
    fn corner_active(&self) -> (r: bool)
        requires
            self.wf(),
        ensures
            r == self.spec_in_or_entered_any(self.corners@),
    {
        let mut in_corner: bool = false;
        let mut k: usize = 0;
        let n: usize = self.corners.len();
        while k < n
            invariant
                self.wf(),
                k <= n,
                n == self.corners@.len(),
                in_corner == exists|j: int|
                    0 <= j < k && (self.spec_crossed(self.corners@[j][0] as int) || spec_in_zone(
                        self.spec_s_cur(),
                        self.corners@[j],
                    )),
            decreases n - k,
        {
            let zone: [u64; 2] = self.corners[k];
            let s_cur: u64 = self.wrapped_s_cur();
            let entered: bool = self.get_s_track_passed_this_step(zone[0]);
            let inside: bool = if zone[0] < zone[1] {
                zone[0] <= s_cur && s_cur <= zone[1]
            } else {
                s_cur >= zone[0] || s_cur <= zone[1]
            };
            if entered || inside {
                in_corner = true;
                assert(self.spec_crossed(self.corners@[k as int][0] as int) || spec_in_zone(
                    self.spec_s_cur(),
                    self.corners@[k as int],
                ));
            }
            k = k + 1;
        }
        in_corner
    }

    /// `get_s_track_passed_this_step` for callers that have the coordinate
    /// bound from `wf` rather than an explicit precondition.
    fn get_s_track_passed_this_step_clamped(&self, s_track_mm: u64) -> (r: bool)
        requires
            self.wf(),
            s_track_mm < self.track_length_mm,
        ensures
            r == self.spec_crossed(s_track_mm as int),
    {
        self.get_s_track_passed_this_step(s_track_mm)
    }

    /// Arms the standstill phase; only legal from the pit lane.
    pub fn act_pit_standstill(&mut self, t_standstill_ms: u64, t_standstill_target_ms: u64)
        requires
            old(self).wf(),
            old(self).state == State::Pitlane,
            t_standstill_ms <= 4_000_000_000,
            t_standstill_target_ms <= 4_000_000_000,
        ensures
            final(self).wf(),
            final(self).state == State::PitStandstill,
            final(self).pit_standstill_act,
            final(self).pit_act,
            final(self).t_standstill_ms == t_standstill_ms,
            final(self).t_standstill_target_ms == t_standstill_target_ms,
            *final(self) == (StateHandler {
                state: State::PitStandstill,
                pit_standstill_act: true,
                t_standstill_ms,
                t_standstill_target_ms,
                ..*old(self)
            }),
    {
        self.state = State::PitStandstill;
        self.pit_standstill_act = true;
        self.t_standstill_ms = t_standstill_ms;
        self.t_standstill_target_ms = t_standstill_target_ms;
    }

    /// Ends the standstill phase; only legal from standstill.
    pub fn deact_pit_standstill(&mut self)
        requires
            old(self).wf(),
            old(self).state == State::PitStandstill,
        ensures
            final(self).wf(),
            *final(self) == (StateHandler {
                state: State::Pitlane,
                pit_standstill_act: false,
                t_standstill_ms: 0,
                t_standstill_target_ms: 0,
                ..*old(self)
            }),
    {
        self.state = State::Pitlane;
        self.pit_standstill_act = false;
        self.t_standstill_ms = 0;
        self.t_standstill_target_ms = 0;
    }

    /// Accumulates standstill time within the target.
    pub fn increment_t_standstill(&mut self, timestep_size_ms: u64)
        requires
            old(self).wf(),
            old(self).state == State::PitStandstill,
            old(self).t_standstill_ms + timestep_size_ms <= old(self).t_standstill_target_ms,
        ensures
            final(self).wf(),
            *final(self) == (StateHandler {
                t_standstill_ms: (old(self).t_standstill_ms + timestep_size_ms) as u64,
                ..*old(self)
            }),
    {
        self.t_standstill_ms = self.t_standstill_ms + timestep_size_ms;
    }

    /// Returns the remaining driving time within this step when the standstill
    /// would end during it, `None` when the car stays put.
    pub fn check_leaves_standstill(&self, timestep_size_ms: u64) -> (r: Option<u64>)
        requires
            self.wf(),
            self.state == State::PitStandstill,
            timestep_size_ms <= 1000,
        ensures
            r == if self.t_standstill_ms + timestep_size_ms <= self.t_standstill_target_ms {
                Option::<u64>::None
            } else {
                Option::Some(
                    (self.t_standstill_ms + timestep_size_ms
                        - self.t_standstill_target_ms) as u64,
                )
            },
    {
        if self.t_standstill_ms + timestep_size_ms <= self.t_standstill_target_ms {
            None
        } else {
            Some(self.t_standstill_ms + timestep_size_ms - self.t_standstill_target_ms)
        }
    }

    /// The current position wrapped into `[0, L)`.
    fn wrapped_s_cur(&self) -> (r: u64)
        requires
            self.wf(),
        ensures
            r == self.spec_s_cur(),
            r < self.track_length_mm,
    {
        if self.s_track_cur_mm < 0 {
            (self.s_track_cur_mm + self.track_length_mm as i64) as u64
        } else {
            self.s_track_cur_mm as u64
        }
    }

    /// Previous and current lap fractions in micro-laps (`0..1_000_000`).
    pub fn get_lap_fracs(&self) -> (r: (u64, u64))
        requires
            self.wf(),
        ensures
            r.0 == self.spec_s_prev() * 1_000_000 / (self.track_length_mm as int),
            r.1 == self.spec_s_cur() * 1_000_000 / (self.track_length_mm as int),
            r.0 < 1_000_000,
            r.1 < 1_000_000,
    {
        let s_prev: u64 = if self.s_track_prev_mm < 0 {
            (self.s_track_prev_mm + self.track_length_mm as i64) as u64
        } else {
            self.s_track_prev_mm as u64
        };
        let s_cur: u64 = self.wrapped_s_cur();
        let frac_prev: u64 = s_prev * 1_000_000 / self.track_length_mm;
        let frac_cur: u64 = s_cur * 1_000_000 / self.track_length_mm;
        assert(s_prev * 1_000_000 / (self.track_length_mm as int) < 1_000_000) by (nonlinear_arith)
            requires
                s_prev < self.track_length_mm,
                self.track_length_mm >= 1,
        ;
        assert(s_cur * 1_000_000 / (self.track_length_mm as int) < 1_000_000) by (nonlinear_arith)
            requires
                s_cur < self.track_length_mm,
                self.track_length_mm >= 1,
        ;
        (frac_prev, frac_cur)
    }

    /// Previous and current positions wrapped into `[0, L)`: every car always
    /// stands at a legal track coordinate.
    pub fn get_s_tracks(&self) -> (r: (u64, u64))
        requires
            self.wf(),
        ensures
            r.0 == self.spec_s_prev(),
            r.1 == self.spec_s_cur(),
            r.0 < self.track_length_mm,
            r.1 < self.track_length_mm,
    {
        let s_prev: u64 = if self.s_track_prev_mm < 0 {
            (self.s_track_prev_mm + self.track_length_mm as i64) as u64
        } else {
            self.s_track_prev_mm as u64
        };
        (s_prev, self.wrapped_s_cur())
    }

    /// The number of completed laps.
    pub fn get_compl_lap(&self) -> (r: u32)
        ensures
            r == self.compl_lap_cur,
    {
        self.compl_lap_cur
    }

    /// Race progress in milli-laps.
    pub fn get_race_prog(&self) -> (r: i64)
        requires
            self.wf(),
        ensures
            r == self.spec_race_prog_milli(),
    {
        let s_cur: u64 = self.wrapped_s_cur();
        let frac: u64 = s_cur * 1000 / self.track_length_mm;
        assert(s_cur * 1000 / (self.track_length_mm as int) < 1000) by (nonlinear_arith)
            requires
                s_cur < self.track_length_mm,
                self.track_length_mm >= 1,
        ;
        let base: i64 = (self.compl_lap_cur as i64) * 1000 + frac as i64;
        if self.s_track_cur_mm < 0 {
            base - 1000
        } else {
            base
        }
    }

    /// True when a new lap began in the last step.
    pub fn get_new_lap(&self) -> (r: bool)
        ensures
            r == self.spec_new_lap(),
    {
        self.compl_lap_cur > self.compl_lap_prev
    }

    /// Places the car at the given track coordinate.
    pub fn set_s_track(&mut self, s_track_cur_mm: u64)
        requires
            old(self).wf(),
            s_track_cur_mm < old(self).track_length_mm,
        ensures
            final(self).wf(),
            *final(self) == (StateHandler { s_track_cur_mm: s_track_cur_mm as i64, ..*old(self) }),
    {
        self.s_track_cur_mm = s_track_cur_mm as i64;
    }

    /// Advances the position by `dt * L / laptime` and rolls the lap counter
    /// over at the line. A car covers at most one lap per step.
    pub fn update_race_prog(&mut self, cur_laptime_ms: u64, timestep_size_ms: u64)
        requires
            old(self).wf(),
            1 <= timestep_size_ms <= 1000,
            cur_laptime_ms >= timestep_size_ms,
        ensures
            final(self).wf(),
            final(self).compl_lap_prev == old(self).compl_lap_cur,
            final(self).s_track_prev_mm == old(self).s_track_cur_mm,
            ({
                let adv = timestep_size_ms * old(self).track_length_mm / (cur_laptime_ms as int);
                let s_new = old(self).s_track_cur_mm + adv;
                if s_new >= old(self).track_length_mm {
                    final(self).s_track_cur_mm == s_new - old(self).track_length_mm
                        && final(self).compl_lap_cur == (if old(self).compl_lap_cur < u32::MAX {
                        old(self).compl_lap_cur + 1
                    } else {
                        old(self).compl_lap_cur as int
                    })
                } else {
                    final(self).s_track_cur_mm == s_new && final(self).compl_lap_cur == old(
                        self,
                    ).compl_lap_cur
                }
            }),
            final(self).state == old(self).state,
            final(self).pit_act == old(self).pit_act,
            final(self).pit_standstill_act == old(self).pit_standstill_act,
            final(self).track_length_mm == old(self).track_length_mm,
            final(self).pit_zone == old(self).pit_zone,
            final(self).corners == old(self).corners,
            final(self).overtaking_zones == old(self).overtaking_zones,
            final(self).t_standstill_ms == old(self).t_standstill_ms,
            final(self).t_standstill_target_ms == old(self).t_standstill_target_ms,
            final(self).compl_lap_cur >= old(self).compl_lap_cur,
    {
        self.compl_lap_prev = self.compl_lap_cur;
        self.s_track_prev_mm = self.s_track_cur_mm;

        assert(timestep_size_ms * self.track_length_mm <= 100_000_000_000) by (nonlinear_arith)
            requires
                timestep_size_ms <= 1000,
                self.track_length_mm <= 100_000_000,
        ;
        let adv: u64 = timestep_size_ms * self.track_length_mm / cur_laptime_ms;
        assert(timestep_size_ms * self.track_length_mm / (cur_laptime_ms as int)
            <= self.track_length_mm) by (nonlinear_arith)
            requires
                1 <= cur_laptime_ms,
                timestep_size_ms <= cur_laptime_ms,
                self.track_length_mm >= 0,
        ;
        let s_new: i64 = self.s_track_cur_mm + adv as i64;
        if s_new >= self.track_length_mm as i64 {
            self.s_track_cur_mm = s_new - self.track_length_mm as i64;
            if self.compl_lap_cur < u32::MAX {
                self.compl_lap_cur = self.compl_lap_cur + 1;
            }
        } else {
            self.s_track_cur_mm = s_new;
        }
    }
}

impl Default for StateHandler {
    /// A parked handler on a unit track; `initialize_state_handler` installs
    /// the real geometry.
    fn default() -> (r: StateHandler)
        ensures
            r.wf(),
            r.state == State::OnTrack,
            r.compl_lap_cur == 0,
            !r.pit_act,
            !r.pit_standstill_act,
    {
        StateHandler {
            pit_zone: [0, 0],
            track_length_mm: 1000,
            use_drs: false,
            drs_blocked_s_mm: 0,
            drs_window_ms: 0,
            drs_measurement_points: Vec::new(),
            overtaking_zones: Vec::new(),
            corners: Vec::new(),
            s_track_prev_mm: 0,
            s_track_cur_mm: 0,
            state: State::OnTrack,
            t_standstill_ms: 0,
            t_standstill_target_ms: 0,
            pit_act: false,
            pit_standstill_act: false,
            drs_act: false,
            duel_act: false,
            corner_act: false,
            compl_lap_prev: 0,
            compl_lap_cur: 0,
        }
    }
}

} // verus!
