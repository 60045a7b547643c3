//! Immutable track geometry: zones, pit lane and per-arc-length speed
//! multipliers.
//!
//! The multipliers are built from per-sample curvatures (micro-radians per
//! metre, computed by the caller from the centerline): each sample gets
//! `(1/(1+kappa))^5`, floored at one half, and the vector is normalized so
//! that its mean is one. Multipliers are thousandths.

use vstd::prelude::*;
use crate::state_handler::spec_in_zone;

verus! {

/// Raw track parameters, as read from the track configuration.
///
/// * `t_q_ms` - (ms) best qualifying lap time
/// * `t_gap_racepace_ms` - (ms) gap between qualifying and race pace
/// * `s_mass_us_per_kg` - (microseconds per kg) lap-time mass sensitivity
/// * `t_drseffect_ms` - (ms) lap-time change with DRS open, negative
/// * `pit_speedlimit_mm_s` - (mm/s) pit lane speed limit
/// * `d_per_gridpos_mm` - (mm) distance between two grid positions
/// * `d_first_gridpos_mm` - (mm) distance of the first grid slot from the line
/// * `real_length_pit_zone_mm` - (mm) real pit lane length
/// * `pit_zone` - (mm) start and end of the pit zone, may wrap past the line
/// * `pits_aft_finishline` - true when the pit box area lies after the line
#[derive(Debug, Clone, PartialEq, Eq)]
pub struct TrackPars {
    pub name: String,
    pub t_q_ms: u64,
    pub t_gap_racepace_ms: u64,
    pub s_mass_us_per_kg: u64,
    pub t_drseffect_ms: i64,
    pub pit_speedlimit_mm_s: u64,
    pub t_loss_firstlap_ms: u64,
    pub d_per_gridpos_mm: i64,
    pub d_first_gridpos_mm: i64,
    pub length_mm: u64,
    pub real_length_pit_zone_mm: u64,
    pub s12_mm: u64,
    pub s23_mm: u64,
    pub drs_measurement_points: Vec<u64>,
    pub turn_1_mm: u64,
    pub pit_zone: [u64; 2],
    pub pits_aft_finishline: bool,
    pub overtaking_zones: Vec<[u64; 2]>,
    pub corners: Vec<[u64; 2]>,
}

impl TrackPars {
    /// Ranges under which all race arithmetic stays exact.
    pub open spec fn wf(self) -> bool {
        &&& 1000 <= self.t_q_ms <= 1_000_000_000
        &&& self.t_gap_racepace_ms <= 1_000_000_000
        &&& self.s_mass_us_per_kg <= 1_000_000
        &&& -1_000_000_000 <= self.t_drseffect_ms <= 1_000_000_000
        &&& 1 <= self.pit_speedlimit_mm_s <= 1_000_000
        &&& self.t_loss_firstlap_ms <= 1_000_000_000
        &&& 1000 <= self.length_mm <= 100_000_000
        &&& -(self.length_mm as int) < self.d_per_gridpos_mm < self.length_mm
        &&& -(self.length_mm as int) < self.d_first_gridpos_mm < self.length_mm
        &&& self.real_length_pit_zone_mm <= 100_000_000
        &&& self.s12_mm < self.length_mm
        &&& self.s23_mm < self.length_mm
        &&& self.turn_1_mm < self.length_mm
        &&& self.pit_zone[0] < self.length_mm
        &&& self.pit_zone[1] < self.length_mm
        &&& self.drs_measurement_points@.len() <= 1000
        &&& forall|k: int|
            0 <= k < self.drs_measurement_points@.len() ==> #[trigger] self.drs_measurement_points@[k]
                < self.length_mm
        &&& self.overtaking_zones@.len() <= 1000
        &&& forall|k: int|
            0 <= k < self.overtaking_zones@.len() ==> (#[trigger] self.overtaking_zones@[k])[0]
                < self.length_mm && self.overtaking_zones@[k][1] < self.length_mm
        &&& self.corners@.len() <= 1000
        &&& forall|k: int|
            0 <= k < self.corners@.len() ==> (#[trigger] self.corners@[k])[0] < self.length_mm
                && self.corners@[k][1] < self.length_mm
    }
}

/// The raw speed multiplier for one curvature sample, in thousandths:
/// `(1/(1+kappa))^5`, computed by repeated truncating multiplication and
/// floored at one half.
pub open spec fn spec_raw_multi(kappa_micro: u64) -> int {
    let k = if kappa_micro > 1_000_000_000_000 {
        1_000_000_000_000int
    } else {
        kappa_micro as int
    };
    let b = 1_000_000_000int / (1_000_000int + k);
    let p2 = b * b / 1000;
    let p3 = p2 * b / 1000;
    let p4 = p3 * b / 1000;
    let p5 = p4 * b / 1000;
    if p5 < 500 {
        500int
    } else {
        p5
    }
}

/// Sum of the raw multipliers of a curvature sequence.
pub open spec fn spec_raw_sum(kappas: Seq<u64>) -> int
    decreases kappas.len(),
{
    if kappas.len() == 0 {
        0
    } else {
        spec_raw_sum(kappas.drop_last()) + spec_raw_multi(kappas.last())
    }
}

proof fn lemma_raw_multi_range(kappa_micro: u64)
    ensures
        500 <= spec_raw_multi(kappa_micro) <= 1000,
{
    let k = if kappa_micro > 1_000_000_000_000 {
        1_000_000_000_000int
    } else {
        kappa_micro as int
    };
    let b = 1_000_000_000int / (1_000_000int + k);
    assert(0 <= b <= 1000) by (nonlinear_arith)
        requires
            b == 1_000_000_000int / (1_000_000int + k),
            0 <= k <= 1_000_000_000_000,
    ;
    let p2 = b * b / 1000;
    assert(0 <= p2 <= 1000) by (nonlinear_arith)
        requires
            p2 == b * b / 1000,
            0 <= b <= 1000,
    ;
    let p3 = p2 * b / 1000;
    assert(0 <= p3 <= 1000) by (nonlinear_arith)
        requires
            p3 == p2 * b / 1000,
            0 <= b <= 1000,
            0 <= p2 <= 1000,
    ;
    let p4 = p3 * b / 1000;
    assert(0 <= p4 <= 1000) by (nonlinear_arith)
        requires
            p4 == p3 * b / 1000,
            0 <= b <= 1000,
            0 <= p3 <= 1000,
    ;
    let p5 = p4 * b / 1000;
    assert(0 <= p5 <= 1000) by (nonlinear_arith)
        requires
            p5 == p4 * b / 1000,
            0 <= b <= 1000,
            0 <= p4 <= 1000,
    ;
}

proof fn lemma_raw_sum_range(kappas: Seq<u64>)
    ensures
        500 * kappas.len() <= spec_raw_sum(kappas) <= 1000 * kappas.len(),
    decreases kappas.len(),
{
    if kappas.len() > 0 {
        lemma_raw_sum_range(kappas.drop_last());
        lemma_raw_multi_range(kappas.last());
    }
}

/// Builds the per-sample speed multipliers from centerline curvatures: the raw
/// value per sample, normalized so that the (truncated) mean is one. Fewer
/// than three samples give a flat track; loaders treat such a centerline as a
/// fatal configuration error before ever reaching this point.
pub fn calc_track_multipliers(kappas_micro: &Vec<u64>) -> (r: Vec<u64>)
    requires
        kappas_micro@.len() <= 1_000_000,
    ensures
        r@.len() == if kappas_micro@.len() < 3 {
            if kappas_micro@.len() == 0 {
                1int
            } else {
                kappas_micro@.len() as int
            }
        } else {
            kappas_micro@.len() as int
        },
        forall|i: int| 0 <= i < r@.len() ==> 500 <= #[trigger] r@[i] <= 2000,
        kappas_micro@.len() >= 3 ==> forall|i: int|
            0 <= i < r@.len() ==> r@[i] == spec_raw_multi(kappas_micro@[i]) * 1000 / (spec_raw_sum(
                kappas_micro@,
            ) / (kappas_micro@.len() as int)),
{
    let n: usize = kappas_micro.len();
    if n < 3 {
        let m: usize = if n == 0 {
            1
        } else {
            n
        };
        let mut flat: Vec<u64> = Vec::new();
        let mut k: usize = 0;
        while k < m
            invariant
                k <= m,
                flat@.len() == k,
                forall|i: int| 0 <= i < k ==> flat@[i] == 1000,
            decreases m - k,
        {
            flat.push(1000);
            k = k + 1;
        }
        return flat;
    }

    let mut raw: Vec<u64> = Vec::new();
    let mut sum: u64 = 0;
    let mut k: usize = 0;
    while k < n
        invariant
            k <= n,
            n == kappas_micro@.len(),
            n <= 1_000_000,
            raw@.len() == k,
            forall|i: int| 0 <= i < k ==> raw@[i] == spec_raw_multi(kappas_micro@[i]),
            forall|i: int| 0 <= i < k ==> 500 <= #[trigger] raw@[i] <= 1000,
            sum == spec_raw_sum(kappas_micro@.take(k as int)),
            sum <= 1000 * k,
        decreases n - k,
    {
        let kappa: u64 = kappas_micro[k];
        let kc: u64 = if kappa > 1_000_000_000_000 {
            1_000_000_000_000
        } else {
            kappa
        };
        let b: u64 = 1_000_000_000 / (1_000_000 + kc);
        proof {
            lemma_raw_multi_range(kappa);
            assert(0 <= b <= 1000) by (nonlinear_arith)
                requires
                    b == 1_000_000_000int / (1_000_000int + kc),
                    0 <= kc <= 1_000_000_000_000,
            ;
        }
        assert(b * b <= 1_000_000 && b * b / 1000 <= 1000) by (nonlinear_arith)
            requires
                b <= 1000,
        ;
        let p2: u64 = b * b / 1000;
        assert(p2 * b <= 1_000_000 && p2 * b / 1000 <= 1000) by (nonlinear_arith)
            requires
                b <= 1000,
                p2 <= 1000,
        ;
        let p3: u64 = p2 * b / 1000;
        assert(p3 * b <= 1_000_000 && p3 * b / 1000 <= 1000) by (nonlinear_arith)
            requires
                b <= 1000,
                p3 <= 1000,
        ;
        let p4: u64 = p3 * b / 1000;
        assert(p4 * b <= 1_000_000 && p4 * b / 1000 <= 1000) by (nonlinear_arith)
            requires
                b <= 1000,
                p4 <= 1000,
        ;
        let p5: u64 = p4 * b / 1000;
        let m: u64 = if p5 < 500 {
            500
        } else {
            p5
        };
        assert(m == spec_raw_multi(kappas_micro@[k as int]));
        raw.push(m);
        sum = sum + m;
        proof {
            assert(kappas_micro@.take(k + 1).drop_last() =~= kappas_micro@.take(k as int));
        }
        k = k + 1;
    }

    proof {
        assert(kappas_micro@.take(n as int) =~= kappas_micro@);
        lemma_raw_sum_range(kappas_micro@);
    }
    let avg: u64 = sum / (n as u64);
    assert(500 <= avg <= 1000) by (nonlinear_arith)
        requires
            avg == sum as int / (n as int),
            3 <= n,
            500 * n <= sum <= 1000 * n,
    ;

    let mut multi: Vec<u64> = Vec::new();
    let mut k2: usize = 0;
    while k2 < n
        invariant
            k2 <= n,
            n == kappas_micro@.len(),
            raw@.len() == n,
            500 <= avg <= 1000,
            avg == spec_raw_sum(kappas_micro@) / (kappas_micro@.len() as int),
            forall|i: int| 0 <= i < n ==> raw@[i] == spec_raw_multi(kappas_micro@[i]),
            forall|i: int| 0 <= i < n ==> 500 <= #[trigger] raw@[i] <= 1000,
            multi@.len() == k2,
            forall|i: int|
                0 <= i < k2 ==> multi@[i] == spec_raw_multi(kappas_micro@[i]) * 1000 / (
                spec_raw_sum(kappas_micro@) / (kappas_micro@.len() as int)),
            forall|i: int| 0 <= i < k2 ==> 500 <= #[trigger] multi@[i] <= 2000,
        decreases n - k2,
    {
        let v: u64 = raw[k2] * 1000 / avg;
        assert(500 <= raw@[k2 as int] * 1000 / (avg as int) <= 2000) by (nonlinear_arith)
            requires
                500 <= raw@[k2 as int] <= 1000,
                500 <= avg <= 1000,
        ;
        multi.push(v);
        k2 = k2 + 1;
    }
    multi
}

/// Immutable track model.
#[derive(Debug, Clone, PartialEq, Eq)]
pub struct Track {
    pub name: String,
    pub t_q_ms: u64,
    pub t_gap_racepace_ms: u64,
    pub s_mass_us_per_kg: u64,
    pub t_drseffect_ms: i64,
    pub pit_speedlimit_mm_s: u64,
    pub t_loss_firstlap_ms: u64,
    pub d_per_gridpos_mm: i64,
    pub d_first_gridpos_mm: i64,
    pub length_mm: u64,
    pub real_length_pit_zone_mm: u64,
    pub track_length_pit_zone_mm: u64,
    pub s12_mm: u64,
    pub s23_mm: u64,
    pub drs_measurement_points: Vec<u64>,
    pub turn_1_mm: u64,
    pub turn_1_lap_frac_micro: i64,
    pub pit_zone: [u64; 2],
    pub pits_aft_finishline: bool,
    pub overtaking_zones: Vec<[u64; 2]>,
    pub overtaking_zones_lap_frac_micro: u64,
    pub corners: Vec<[u64; 2]>,
    pub multipliers: Vec<u64>,
}

/// The arc length of the track covered by the pit lane, honoring wrap-around.
pub open spec fn spec_pit_zone_track_length(pit_zone: [u64; 2], length: int) -> int {
    if pit_zone[0] < pit_zone[1] {
        pit_zone[1] - pit_zone[0]
    } else {
        length - pit_zone[0] + pit_zone[1]
    }
}

/// The arc length of one zone, honoring wrap-around.
pub open spec fn spec_zone_length(zone: [u64; 2], length: int) -> int {
    if zone[0] < zone[1] {
        zone[1] - zone[0]
    } else {
        length - zone[0] + zone[1]
    }
}

/// Total arc length of a list of zones.
pub open spec fn spec_zones_length(zones: Seq<[u64; 2]>, length: int) -> int
    decreases zones.len(),
{
    if zones.len() == 0 {
        0
    } else {
        spec_zones_length(zones.drop_last(), length) + spec_zone_length(zones.last(), length)
    }
}

impl Track {
    pub open spec fn pars(self) -> TrackPars {
        TrackPars {
            name: self.name,
            t_q_ms: self.t_q_ms,
            t_gap_racepace_ms: self.t_gap_racepace_ms,
            s_mass_us_per_kg: self.s_mass_us_per_kg,
            t_drseffect_ms: self.t_drseffect_ms,
            pit_speedlimit_mm_s: self.pit_speedlimit_mm_s,
            t_loss_firstlap_ms: self.t_loss_firstlap_ms,
            d_per_gridpos_mm: self.d_per_gridpos_mm,
            d_first_gridpos_mm: self.d_first_gridpos_mm,
            length_mm: self.length_mm,
            real_length_pit_zone_mm: self.real_length_pit_zone_mm,
            s12_mm: self.s12_mm,
            s23_mm: self.s23_mm,
            drs_measurement_points: self.drs_measurement_points,
            turn_1_mm: self.turn_1_mm,
            pit_zone: self.pit_zone,
            pits_aft_finishline: self.pits_aft_finishline,
            overtaking_zones: self.overtaking_zones,
            corners: self.corners,
        }
    }

    pub open spec fn wf(self) -> bool {
        &&& self.pars().wf()
        &&& self.track_length_pit_zone_mm == spec_pit_zone_track_length(
            self.pit_zone,
            self.length_mm as int,
        )
        &&& 1 <= self.track_length_pit_zone_mm <= self.length_mm
        &&& self.overtaking_zones_lap_frac_micro == spec_zones_length(
            self.overtaking_zones@,
            self.length_mm as int,
        ) * 1_000_000 / (self.length_mm as int)
        &&& self.overtaking_zones_lap_frac_micro <= 2_000_000_000
        &&& 1 <= self.multipliers@.len() <= 1_000_000
        &&& forall|i: int| 0 <= i < self.multipliers@.len() ==> 500 <= #[trigger] self.multipliers@[i] <= 2000
    }

    /// Builds the track from its parameters and the speed multipliers computed
    /// from the centerline. Requires a pit zone of positive arc length.
    pub fn new(track_pars: TrackPars, multipliers: Vec<u64>) -> (r: Track)
        requires
            track_pars.wf(),
            track_pars.pit_zone[0] != track_pars.pit_zone[1],
            1 <= multipliers@.len() <= 1_000_000,
            forall|i: int| 0 <= i < multipliers@.len() ==> 500 <= #[trigger] multipliers@[i] <= 2000,
        ensures
            r.wf(),
            r.pars() == track_pars,
            r.multipliers == multipliers,
    {
        let length: u64 = track_pars.length_mm;
        let track_length_pit_zone_mm: u64 = if track_pars.pit_zone[0] < track_pars.pit_zone[1] {
            track_pars.pit_zone[1] - track_pars.pit_zone[0]
        } else {
            length - track_pars.pit_zone[0] + track_pars.pit_zone[1]
        };

        let mut len_zones: u64 = 0;
        let mut k: usize = 0;
        let n: usize = track_pars.overtaking_zones.len();
        while k < n
            invariant
                k <= n,
                n == track_pars.overtaking_zones@.len(),
                track_pars.wf(),
                n <= 1000,
                len_zones == spec_zones_length(
                    track_pars.overtaking_zones@.take(k as int),
                    length as int,
                ),
                length == track_pars.length_mm,
                len_zones <= 2 * (k as int) * (length as int),
            decreases n - k,
        {
            let zone: [u64; 2] = track_pars.overtaking_zones[k];
            let zone_len: u64 = if zone[0] < zone[1] {
                zone[1] - zone[0]
            } else {
                length - zone[0] + zone[1]
            };
            assert(len_zones <= 200_000_000_000) by (nonlinear_arith)
                requires
                    len_zones <= 2 * (k as int) * (length as int),
                    k <= 1000,
                    length <= 100_000_000,
            ;
            assert(len_zones + zone_len <= 2 * (k + 1) * (length as int)) by (nonlinear_arith)
                requires
                    len_zones <= 2 * (k as int) * (length as int),
                    zone_len <= 2 * (length as int),
            ;
            len_zones = len_zones + zone_len;
            proof {
                assert(track_pars.overtaking_zones@.take(k + 1).drop_last()
                    =~= track_pars.overtaking_zones@.take(k as int));
            }
            k = k + 1;
        }
        proof {
            assert(track_pars.overtaking_zones@.take(n as int) =~= track_pars.overtaking_zones@);
        }

        assert(len_zones <= 200_000_000_000 && len_zones * 1_000_000 / (length as int)
            <= 2_000_000_000) by (nonlinear_arith)
            requires
                len_zones <= 2 * (n as int) * (length as int),
                n <= 1000,
                1 <= length <= 100_000_000,
        ;
        let overtaking_zones_lap_frac_micro: u64 = (len_zones as u64) * 1_000_000 / length;

        let turn_1_lap_frac_micro: i64 = if track_pars.d_first_gridpos_mm
            <= track_pars.turn_1_mm as i64 {
            (((track_pars.turn_1_mm as i64 - track_pars.d_first_gridpos_mm) as u64) * 1_000_000
                / length) as i64
        } else {
            -((((track_pars.d_first_gridpos_mm - track_pars.turn_1_mm as i64) as u64) * 1_000_000
                / length) as i64)
        };

        Track {
            name: track_pars.name,
            t_q_ms: track_pars.t_q_ms,
            t_gap_racepace_ms: track_pars.t_gap_racepace_ms,
            s_mass_us_per_kg: track_pars.s_mass_us_per_kg,
            t_drseffect_ms: track_pars.t_drseffect_ms,
            pit_speedlimit_mm_s: track_pars.pit_speedlimit_mm_s,
            t_loss_firstlap_ms: track_pars.t_loss_firstlap_ms,
            d_per_gridpos_mm: track_pars.d_per_gridpos_mm,
            d_first_gridpos_mm: track_pars.d_first_gridpos_mm,
            length_mm: track_pars.length_mm,
            real_length_pit_zone_mm: track_pars.real_length_pit_zone_mm,
            track_length_pit_zone_mm,
            s12_mm: track_pars.s12_mm,
            s23_mm: track_pars.s23_mm,
            drs_measurement_points: track_pars.drs_measurement_points,
            turn_1_mm: track_pars.turn_1_mm,
            turn_1_lap_frac_micro,
            pit_zone: track_pars.pit_zone,
            pits_aft_finishline: track_pars.pits_aft_finishline,
            overtaking_zones: track_pars.overtaking_zones,
            overtaking_zones_lap_frac_micro,
            corners: track_pars.corners,
            multipliers,
        }
    }

    /// The index into the multiplier vector for an arc length: `s/L` mapped
    /// uniformly onto the index space, truncated and clamped to the last
    /// index. The wrap coordinate `s == L` maps to the last index.
    pub open spec fn spec_multiplier_idx(self, s_mm: int) -> int {
        let idx = s_mm * self.multipliers@.len() / (self.length_mm as int);
        if idx >= self.multipliers@.len() {
            self.multipliers@.len() - 1
        } else {
            idx
        }
    }

    /// The speed multiplier at an arc length, in thousandths; always a
    /// well-defined in-bounds lookup.
    pub fn multiplier_at(&self, s_mm: u64) -> (r: u64)
        requires
            self.wf(),
            s_mm <= self.length_mm,
        ensures
            r == self.multipliers@[self.spec_multiplier_idx(s_mm as int)],
            500 <= r <= 2000,
    {
        let n: u64 = self.multipliers.len() as u64;
        assert(s_mm * n <= 100_000_000_000_000) by (nonlinear_arith)
            requires
                s_mm <= 100_000_000,
                n <= 1_000_000,
        ;
        let idx_raw: u64 = s_mm * n / self.length_mm;
        let idx: u64 = if idx_raw >= n {
            n - 1
        } else {
            idx_raw
        };
        assert(idx < n);
        self.multipliers[idx as usize]
    }

    /// True iff the arc length lies in one of the overtaking zones.
    pub fn is_in_overtaking_zone(&self, s_track_mm: u64) -> (r: bool)
        requires
            self.wf(),
        ensures
            r == exists|k: int|
                0 <= k < self.overtaking_zones@.len() && spec_in_zone(
                    s_track_mm as int,
                    #[trigger] self.overtaking_zones@[k],
                ),
    {
        let mut found: bool = false;
        let mut k: usize = 0;
        let n: usize = self.overtaking_zones.len();
        while k < n
            invariant
                k <= n,
                n == self.overtaking_zones@.len(),
                found == exists|j: int|
                    0 <= j < k && spec_in_zone(s_track_mm as int, #[trigger] self.overtaking_zones@[j]),
            decreases n - k,
        {
            let zone: [u64; 2] = self.overtaking_zones[k];
            let inside: bool = if zone[0] < zone[1] {
                zone[0] <= s_track_mm && s_track_mm <= zone[1]
            } else {
                s_track_mm >= zone[0] || s_track_mm <= zone[1]
            };
            if inside {
                found = true;
                assert(spec_in_zone(s_track_mm as int, self.overtaking_zones@[k as int]));
            }
            k = k + 1;
        }
        found
    }

    /// The approximate time lost by driving through the pit lane instead of
    /// passing the pit zone at race pace (ms): the real pit length at the pit
    /// speed limit, minus the zone's share of a 104% race lap.
    pub fn get_pit_drive_timeloss(&self) -> (r: i64)
        requires
            self.wf(),
        ensures
            r == self.real_length_pit_zone_mm * 1000 / (self.pit_speedlimit_mm_s as int) - (
            self.t_q_ms + self.t_gap_racepace_ms) * 1040 / 1000 * (
            self.track_length_pit_zone_mm as int) / (self.length_mm as int),
    {
        let drive: u64 = self.real_length_pit_zone_mm * 1000 / self.pit_speedlimit_mm_s;
        let pace: u64 = (self.t_q_ms + self.t_gap_racepace_ms) * 1040 / 1000;
        assert(pace * self.track_length_pit_zone_mm <= 2_080_000_000_000_000_000) by (nonlinear_arith)
            requires
                pace <= 2_080_000_000,
                self.track_length_pit_zone_mm <= 100_000_000,
        ;
        let zone_time: u64 = pace * self.track_length_pit_zone_mm / self.length_mm;
        drive as i64 - zone_time as i64
    }
}

} // verus!
