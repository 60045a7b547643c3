use racesim::general::{argmax, argsort, max, SortOrder};
use racesim::gui_interface::car_color;
use racesim::tireset::{Compound, DegrModel, DegrPars, Tireset};
use racesim::track::{calc_track_multipliers, Track, TrackPars};

fn plain_track_pars() -> TrackPars {
    TrackPars {
        name: "testring".to_string(),
        t_q_ms: 60_000,
        t_gap_racepace_ms: 1000,
        s_mass_us_per_kg: 30_000,
        t_drseffect_ms: -500,
        pit_speedlimit_mm_s: 22_000,
        t_loss_firstlap_ms: 0,
        d_per_gridpos_mm: -10_000,
        d_first_gridpos_mm: -10_000,
        length_mm: 5_000_000,
        real_length_pit_zone_mm: 300_000,
        s12_mm: 1_500_000,
        s23_mm: 3_500_000,
        drs_measurement_points: Vec::new(),
        turn_1_mm: 500_000,
        pit_zone: [100_000, 400_000],
        pits_aft_finishline: false,
        overtaking_zones: vec![[1_000_000, 2_000_000], [4_500_000, 500_000]],
        corners: Vec::new(),
    }
}

#[test]
fn argmax_takes_first_maximum() {
    assert_eq!(argmax(&vec![3, 9, 9, 1]), 1);
    assert_eq!(argmax(&vec![7]), 0);
}

#[test]
fn max_finds_maximum() {
    assert_eq!(max(&vec![-5, 3, 2]), 3);
    assert_eq!(max(&vec![-5]), -5);
}

#[test]
fn argsort_orders_indices() {
    let asc = argsort(&vec![30u64, 10, 20], SortOrder::Ascending);
    assert_eq!(asc, vec![1usize, 2, 0]);
    let desc = argsort(&vec![30u64, 10, 20], SortOrder::Descending);
    assert_eq!(desc, vec![0usize, 2, 1]);
}

#[test]
fn multiplier_at_wrap_maps_to_last_index() {
    let multipliers = vec![800u64, 1000, 1200, 1000];
    let track = Track::new(plain_track_pars(), multipliers);
    // s == L maps onto the last index, never out of bounds
    assert_eq!(track.multiplier_at(track.length_mm), 1000);
    assert_eq!(track.multiplier_at(0), 800);
    // three quarters of the way around
    assert_eq!(track.multiplier_at(3_750_000), 1000);
    assert_eq!(track.multiplier_at(3_700_000), 1200);
}

#[test]
fn overtaking_zone_membership_wraps() {
    let track = Track::new(plain_track_pars(), vec![1000]);
    assert!(track.is_in_overtaking_zone(1_500_000));
    assert!(!track.is_in_overtaking_zone(3_000_000));
    // the second zone wraps the line
    assert!(track.is_in_overtaking_zone(4_800_000));
    assert!(track.is_in_overtaking_zone(100_000));
}

#[test]
fn pit_drive_timeloss_value() {
    let track = Track::new(plain_track_pars(), vec![1000]);
    // 300 m at 22 m/s minus the zone share of a 104% race lap:
    // 13636 - 63440 * 300000 / 5000000 = 13636 - 3806 = 9830
    assert_eq!(track.get_pit_drive_timeloss(), 9830);
}

#[test]
fn flat_track_multipliers() {
    assert_eq!(calc_track_multipliers(&vec![]), vec![1000]);
    assert_eq!(calc_track_multipliers(&vec![5, 7]), vec![1000, 1000]);
}

#[test]
fn curved_track_multipliers_respect_floor_and_mean() {
    // one straight sample, one gentle corner, one hairpin
    let kappas = vec![0u64, 50_000, 10_000_000];
    let m = calc_track_multipliers(&kappas);
    assert_eq!(m.len(), 3);
    for v in &m {
        assert!(*v >= 500 && *v <= 2000);
    }
    // the straight is fastest, the hairpin sits at the floor before scaling
    assert!(m[0] > m[1]);
    assert!(m[1] > m[2]);
}

#[test]
fn tire_degradation_formula() {
    let pars = DegrPars {
        degr_model: DegrModel::Lin,
        k_0: 100,
        k_1_lin: 50,
        k_1_scale_milli: 2000,
        cliff_age_millilaps: 10_000,
        k_2_cliff: 20,
        base_offset_ms: -500,
    };
    let fresh = Tireset::new(Compound::Soft, 0);
    // -500 + 100 + 0 + no cliff
    assert_eq!(fresh.t_add_tireset(&pars), -400);
    let mut aged = Tireset::new(Compound::Soft, 0);
    for _ in 0..20 {
        aged.drive_lap(1000);
    }
    // age 20 laps: linear 50*2*20 = 2000; cliff: 20 * (10 laps over)^2 = 2000
    assert_eq!(aged.t_add_tireset(&pars), -500 + 100 + 2000 + 2000);
    let mut far = Tireset::new(Compound::Soft, 0);
    for _ in 0..200 {
        far.drive_lap(1000);
    }
    // deep in the cliff the whole loss is capped at 25 s
    assert_eq!(far.t_add_tireset(&pars), 25_000);
}

#[test]
fn tire_wear_factor_scales_age() {
    let mut set = Tireset::new(Compound::Medium, 3);
    assert_eq!(set.age_tot_millilaps, 3000);
    assert_eq!(set.age_cur_stint_millilaps, 3000);
    set.drive_lap(1500);
    assert_eq!(set.age_cur_stint_millilaps, 4500);
    assert_eq!(set.age_tot_millilaps, 4500);
}

#[test]
fn css_colors_decode() {
    assert_eq!(car_color(&"#102030".to_string()).r, 16);
    assert_eq!(car_color(&"#102030".to_string()).g, 32);
    assert_eq!(car_color(&"#102030".to_string()).b, 48);
    let red = car_color(&"red".to_string());
    assert_eq!((red.r, red.g, red.b), (255, 0, 0));
    let bad = car_color(&"not a color".to_string());
    assert_eq!((bad.r, bad.g, bad.b), (0, 0, 0));
}
