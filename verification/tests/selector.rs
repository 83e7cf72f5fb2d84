use worldgen::config::Config;
use worldgen::fixed::ONE;
use worldgen::selector::{
    base, blend, coverage, land_fraction, ruggedness, share, terrain, terrain_weights, Samples,
    Weights, SEAM,
};

fn config() -> Config {
    Config { seed: 7, hills_amount: 16384, ..Config::default() }
}

fn samples() -> Samples {
    Samples {
        continent: 20000,
        mountain: 40000,
        hill: 12000,
        plain: 3000,
        badland: 25000,
        terrain_control: 5000,
        badland_control: 10000,
    }
}

#[test]
fn share_maps_a_control_value_to_a_share() {
    assert_eq!(share(-ONE), 0);
    assert_eq!(share(-1), 32767);
    assert_eq!(share(0), 32768);
    assert_eq!(share(1), 32768);
    assert_eq!(share(12345), 38940);
    assert_eq!(share(ONE), ONE);
    assert_eq!(share(i64::MIN), 0);
    assert_eq!(share(-ONE - 1), 0);
    assert_eq!(share(i64::MAX), ONE);
}

#[test]
fn land_fraction_is_centred_on_the_sea_level() {
    let cfg = config();
    assert_eq!(land_fraction(&cfg, -65536), 0);
    assert_eq!(land_fraction(&cfg, cfg.shelf_level), 0);
    assert_eq!(land_fraction(&cfg, -12288), 10240);
    assert_eq!(land_fraction(&cfg, cfg.sea_level), ONE / 2);
    assert_eq!(land_fraction(&cfg, 12288), 55296);
    assert_eq!(land_fraction(&cfg, 24576), ONE);
    assert_eq!(land_fraction(&cfg, 65536), ONE);
}

#[test]
fn the_shore_has_no_hard_edge() {
    let cfg = config();
    let depth = cfg.sea_level - cfg.shelf_level;
    let mut prev = land_fraction(&cfg, -ONE);
    let mut c = -ONE + 1;
    while c <= ONE {
        let v = land_fraction(&cfg, c);
        assert!(prev <= v);
        assert!(4 * (v - prev) * depth <= 3 * ONE + 10 * depth);
        assert!(v - prev <= 4);
        prev = v;
        c += 1;
    }
}

#[test]
fn land_fraction_without_a_shelf_is_a_step() {
    let cfg = Config { shelf_level: 100, sea_level: 100, ..config() };
    assert_eq!(land_fraction(&cfg, 99), 0);
    assert_eq!(land_fraction(&cfg, 100), 0);
    assert_eq!(land_fraction(&cfg, 101), ONE);
}

#[test]
fn land_fraction_takes_every_level() {
    let cfg = Config { shelf_level: i64::MIN, sea_level: i64::MAX, ..config() };
    assert_eq!(land_fraction(&cfg, i64::MIN), 0);
    assert_eq!(land_fraction(&cfg, 0), 32768);
    assert_eq!(land_fraction(&cfg, i64::MAX), ONE);
}

#[test]
fn ruggedness_scales_the_control_by_the_terrain_offset() {
    let cfg = config();
    assert_eq!(ruggedness(&cfg, -65536), 0);
    assert_eq!(ruggedness(&cfg, -30000), 17768);
    assert_eq!(ruggedness(&cfg, 0), 32768);
    assert_eq!(ruggedness(&cfg, 30000), 47768);
    assert_eq!(ruggedness(&cfg, 65536), ONE);
    assert_eq!(ruggedness(&Config { terrain_offset: 2 * ONE, ..cfg }, 30000), 62768);
    assert_eq!(ruggedness(&Config { terrain_offset: ONE / 2, ..cfg }, 30000), 40268);
    assert_eq!(ruggedness(&Config { terrain_offset: -ONE, ..cfg }, 30000), 17768);
}

#[test]
fn coverage_at_given_amounts() {
    assert_eq!(SEAM, 8192);
    assert_eq!(coverage(20480, 50000), 64226);
    assert_eq!(coverage(31457, 30000), 0);
    assert_eq!(coverage(31457, 34000), 29855);
    assert_eq!(coverage(31457, 38000), 65208);
    assert_eq!(coverage(32768, 32768), 32768);
    assert_eq!(coverage(32768, 30000), 4608);
}

#[test]
fn an_amount_of_one_covers_every_point() {
    let mut control = 0;
    while control <= ONE {
        assert_eq!(coverage(ONE, control), ONE);
        assert_eq!(coverage(ONE + 1, control), ONE);
        assert_eq!(coverage(i64::MAX, control), ONE);
        control += 64;
    }
}

#[test]
fn an_amount_of_zero_covers_no_point() {
    let mut control = 0;
    while control <= ONE {
        assert_eq!(coverage(0, control), 0);
        assert_eq!(coverage(-1, control), 0);
        assert_eq!(coverage(i64::MIN, control), 0);
        control += 64;
    }
}

#[test]
fn coverage_grows_with_the_control_and_with_the_amount() {
    let mut amount = 0;
    while amount <= ONE {
        let mut prev = 0;
        let mut control = 0;
        while control <= ONE {
            let v = coverage(amount, control);
            assert!(prev <= v);
            assert!(v <= coverage(amount + 4096, control));
            prev = v;
            control += 512;
        }
        amount += 4096;
    }
}

#[test]
fn coverage_has_no_hard_edge() {
    let mut prev = coverage(31457, 0);
    let mut control = 1;
    while control <= ONE {
        let v = coverage(31457, control);
        assert!(0 <= v - prev && v - prev <= 13);
        prev = v;
        control += 1;
    }
}

#[test]
fn terrain_weights_at_given_ruggedness() {
    let cfg = config();
    assert_eq!(terrain_weights(&cfg, 0), Weights { mountain: 0, hill: 0, plain: 65536 });
    assert_eq!(terrain_weights(&cfg, 20000), Weights { mountain: 0, hill: 65536, plain: 0 });
    assert_eq!(terrain_weights(&cfg, 36000), Weights { mountain: 52558, hill: 12978, plain: 0 });
    assert_eq!(terrain_weights(&cfg, 40000), Weights { mountain: 65536, hill: 0, plain: 0 });
    assert_eq!(terrain_weights(&cfg, 65536), Weights { mountain: 65536, hill: 0, plain: 0 });
}

#[test]
fn terrain_weights_share_every_point() {
    for cfg in [
        config(),
        Config::default(),
        Config { mountains_amount: 0, hills_amount: 0, ..config() },
        Config { mountains_amount: ONE, hills_amount: ONE, ..config() },
        Config { mountains_amount: i64::MIN, hills_amount: i64::MAX, ..config() },
    ] {
        let mut r = 0;
        while r <= ONE {
            let w = terrain_weights(&cfg, r);
            assert!(w.mountain >= 0 && w.hill >= 0 && w.plain >= 0);
            assert_eq!(w.mountain + w.hill + w.plain, ONE);
            r += 128;
        }
    }
}

#[test]
fn mountains_come_before_hills_and_hills_before_plains() {
    let cfg = config();
    // Enough ruggedness for mountains: nothing is left for hills or plains.
    let w = terrain_weights(&cfg, 50000);
    assert_eq!((w.mountain, w.hill, w.plain), (ONE, 0, 0));
    // Enough for hills, not for mountains: nothing is left for plains.
    let w = terrain_weights(&cfg, 25000);
    assert_eq!((w.mountain, w.hill, w.plain), (0, ONE, 0));
}

#[test]
fn hills_amount_above_mountains_amount_still_blends() {
    let cfg = Config::default();
    assert!(cfg.hills_amount >= cfg.mountains_amount);
    assert_eq!(terrain_weights(&cfg, 0), Weights { mountain: 0, hill: 65536, plain: 0 });
    assert_eq!(terrain_weights(&cfg, 36000), Weights { mountain: 52558, hill: 12978, plain: 0 });
    assert_eq!(terrain_weights(&cfg, 65536), Weights { mountain: 65536, hill: 0, plain: 0 });
    let s = samples();
    assert_eq!(terrain(&cfg, &s), 31145);
    assert_eq!(base(&cfg, &s), 35385);
    assert_eq!(blend(&cfg, &s), 35385);
}

#[test]
fn blend_at_given_samples() {
    let cfg = config();
    let s = samples();
    assert_eq!(terrain(&cfg, &s), 31145);
    // 20000 * 0.25 + 1.0 * 31145 - rounding
    assert_eq!(base(&cfg, &s), 35385);
    assert_eq!(blend(&cfg, &s), 35385);
}

#[test]
fn blend_under_water_keeps_the_terrain_off() {
    let cfg = config();
    let s = Samples { continent: -30000, ..samples() };
    assert_eq!(land_fraction(&cfg, s.continent), 0);
    assert_eq!(base(&cfg, &s), -7500);
    assert_eq!(blend(&cfg, &s), -7500);
}

#[test]
fn terrain_is_an_average_of_the_three_layers() {
    let cfg = config();
    for control in [-ONE, -20000, 0, 3000, 9000, 20000, ONE] {
        let s = Samples { terrain_control: control, ..samples() };
        let t = terrain(&cfg, &s);
        assert!(3000 <= t && t <= 40000);
    }
}

#[test]
fn badlands_replace_whatever_lies_under_them() {
    let cfg = config();
    let s = Samples { badland_control: 40000, ..samples() };
    assert_eq!(coverage(cfg.badlands_amount, share(s.badland_control)), ONE);
    assert_eq!(blend(&cfg, &s), 25000);
}

#[test]
fn a_badlands_amount_of_one_gives_the_badland_elevation() {
    let cfg = Config { badlands_amount: ONE, ..config() };
    for control in [-ONE, -1, 0, 1, 7777, ONE] {
        for continent in [-ONE, 0, ONE] {
            for mountain in [-ONE, 123, ONE] {
                let s = Samples {
                    continent,
                    mountain,
                    badland: 25000,
                    badland_control: control,
                    ..samples()
                };
                assert_eq!(blend(&cfg, &s), 25000);
            }
        }
    }
}

#[test]
fn a_badlands_amount_of_zero_gives_the_base() {
    let cfg = Config { badlands_amount: 0, ..config() };
    for control in [-ONE, 0, 7777, ONE] {
        let s = Samples { badland_control: control, ..samples() };
        assert_eq!(blend(&cfg, &s), base(&cfg, &s));
    }
}

#[test]
fn blend_takes_every_sample() {
    let cfg = config();
    let s = Samples {
        continent: i64::MAX,
        mountain: i64::MIN,
        hill: i64::MAX,
        plain: i64::MIN,
        badland: i64::MAX,
        terrain_control: i64::MIN,
        badland_control: i64::MAX,
    };
    assert_eq!(terrain(&cfg, &s), i64::MIN);
    assert_eq!(base(&cfg, &s), -ONE);
    assert_eq!(blend(&cfg, &s), i64::MAX);
}

#[test]
fn blend_is_in_range_where_the_badland_elevation_is() {
    let cfg = config();
    for continent in [-ONE, -20000, 0, 20000, ONE] {
        for mountain in [-ONE, 0, ONE] {
            for badland in [-ONE, 0, ONE] {
                for control in [-ONE, 0, 20000, ONE] {
                    let s = Samples {
                        continent,
                        mountain,
                        hill: ONE,
                        plain: -ONE,
                        badland,
                        terrain_control: control,
                        badland_control: control,
                    };
                    let v = blend(&cfg, &s);
                    assert!(-ONE <= v && v <= ONE);
                }
            }
        }
    }
}

fn next(state: &mut u64) -> i64 {
    *state = state.wrapping_mul(6364136223846793005).wrapping_add(1442695040888963407);
    ((*state >> 33) % (2 * ONE as u64 + 1)) as i64 - ONE
}

fn nudge(v: i64, state: &mut u64) -> i64 {
    (v + next(state).signum()).clamp(-ONE, ONE)
}

#[test]
fn the_selector_has_no_hard_cutoff() {
    let cfg = config();
    let mut state = 1u64;
    for _ in 0..100_000 {
        let s = Samples {
            continent: next(&mut state),
            mountain: next(&mut state),
            hill: next(&mut state),
            plain: next(&mut state),
            badland: next(&mut state),
            terrain_control: next(&mut state),
            badland_control: next(&mut state),
        };
        let t = Samples {
            continent: nudge(s.continent, &mut state),
            mountain: nudge(s.mountain, &mut state),
            hill: nudge(s.hill, &mut state),
            plain: nudge(s.plain, &mut state),
            badland: nudge(s.badland, &mut state),
            terrain_control: nudge(s.terrain_control, &mut state),
            badland_control: nudge(s.badland_control, &mut state),
        };
        assert!((blend(&cfg, &s) - blend(&cfg, &t)).abs() <= 189);
    }
}

#[test]
fn the_selector_has_no_hard_cutoff_along_the_controls() {
    let cfg = config();
    let mut prev_t = blend(&cfg, &Samples { terrain_control: -ONE, ..samples() });
    let mut prev_b = blend(&cfg, &Samples { badland_control: -ONE, ..samples() });
    let mut prev_c = blend(&cfg, &Samples { continent: -ONE, ..samples() });
    let mut k = -ONE + 1;
    while k <= ONE {
        let t = blend(&cfg, &Samples { terrain_control: k, ..samples() });
        let b = blend(&cfg, &Samples { badland_control: k, ..samples() });
        let c = blend(&cfg, &Samples { continent: k, ..samples() });
        assert!((t - prev_t).abs() <= 189);
        assert!((b - prev_b).abs() <= 189);
        assert!((c - prev_c).abs() <= 189);
        prev_t = t;
        prev_b = b;
        prev_c = c;
        k += 1;
    }
}
