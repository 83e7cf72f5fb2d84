use worldgen::config::Config;
use worldgen::fixed::ONE;
use worldgen::river::{carve, distance, drainage, DRAINAGE_GAIN, RIVER_STEP};

fn config() -> Config {
    Config { seed: 7, hills_amount: 16384, ..Config::default() }
}

#[test]
fn river_constants() {
    assert_eq!(RIVER_STEP, 64);
    assert_eq!(DRAINAGE_GAIN, 64 * ONE);
    assert_eq!(config().river_depth, 1536);
}

#[test]
fn distance_between_elevations() {
    assert_eq!(distance(5, -7), 12);
    assert_eq!(distance(-7, 5), 12);
    assert_eq!(distance(3, 3), 0);
    assert_eq!(distance(i64::MIN, i64::MAX), i64::MAX);
    assert_eq!(distance(i64::MAX, i64::MIN), i64::MAX);
}

#[test]
fn drainage_grows_with_the_slope() {
    // (30 + 10) * 64
    assert_eq!(drainage(100, 130, 90), 2560);
    assert_eq!(drainage(1000, 1001, 1000), 64);
    assert_eq!(drainage(1000, 1000, 999), 64);
}

#[test]
fn level_ground_does_not_drain() {
    assert_eq!(drainage(0, 0, 0), 0);
    assert_eq!(drainage(-4000, -4000, -4000), 0);
}

#[test]
fn drainage_saturates() {
    assert_eq!(drainage(i64::MIN, i64::MAX, 0), i64::MAX);
    assert_eq!(drainage(0, i64::MAX, i64::MIN), i64::MAX);
}

#[test]
fn carve_takes_the_drainage_times_the_depth_off() {
    let cfg = config();
    // half the depth
    assert_eq!(carve(&cfg, 20000, 32768), 20000 - 768);
    // the full depth
    assert_eq!(carve(&cfg, 20000, ONE), 20000 - 1536);
    assert_eq!(carve(&cfg, 20000, 1), 20000);
}

#[test]
fn carve_caps_the_drainage_at_one() {
    let cfg = config();
    assert_eq!(carve(&cfg, 20000, 200000), 18464);
    assert_eq!(carve(&cfg, 20000, i64::MAX), 18464);
}

#[test]
fn carve_ignores_negative_drainage() {
    let cfg = config();
    assert_eq!(carve(&cfg, 20000, -5), 20000);
    assert_eq!(carve(&cfg, 20000, i64::MIN), 20000);
}

#[test]
fn rivers_do_not_carve_under_water() {
    let cfg = config();
    assert_eq!(carve(&cfg, cfg.shelf_level, ONE), cfg.shelf_level);
    assert_eq!(carve(&cfg, -30000, ONE), -30000);
    assert_eq!(carve(&cfg, -ONE, ONE), -ONE);
    // just above the shelf
    assert_eq!(carve(&cfg, -24575, ONE), -26111);
}

#[test]
fn carve_never_reaches_below_the_sea_floor() {
    let deep = Config { river_depth: i64::MAX, ..config() };
    assert_eq!(carve(&deep, 20000, ONE), -ONE);
    assert_eq!(carve(&deep, 20000, 1), -ONE);
    let low_shelf = Config { shelf_level: -100000, ..config() };
    assert_eq!(carve(&low_shelf, -ONE, ONE), -ONE);
    assert_eq!(carve(&low_shelf, -65000, ONE), -ONE);
}

#[test]
fn carve_lowers_by_no_more_than_the_depth() {
    let cfg = config();
    let mut e = -ONE;
    while e <= ONE {
        for d in [i64::MIN, -1, 0, 1, 1000, 32768, ONE, ONE + 1, i64::MAX] {
            let r = carve(&cfg, e, d);
            assert!(r >= e - cfg.river_depth);
            assert!(r <= e);
            assert!(-ONE <= r && r <= ONE);
        }
        e += 97;
    }
}

#[test]
fn a_negative_depth_raises_the_ground() {
    let cfg = Config { river_depth: -1536, ..config() };
    assert_eq!(carve(&cfg, 20000, ONE), 21536);
    assert_eq!(carve(&cfg, 20000, 32768), 20768);
    assert_eq!(carve(&cfg, 65000, ONE), ONE);
}

#[test]
fn a_negative_depth_raises_by_no_more_than_its_size() {
    let cfg = Config { river_depth: -1536, ..config() };
    let mut e = -ONE;
    while e <= ONE {
        for d in [i64::MIN, 0, 1, 32768, ONE, i64::MAX] {
            let r = carve(&cfg, e, d);
            assert!(e <= r && r <= e + 1536);
            assert!(-ONE <= r && r <= ONE);
        }
        e += 97;
    }
}

#[test]
fn ground_that_does_not_drain_is_not_carved() {
    for depth in [i64::MIN, -1536, 0, 1536, i64::MAX] {
        let cfg = Config { river_depth: depth, ..config() };
        assert_eq!(carve(&cfg, 20000, 0), 20000);
        assert_eq!(carve(&cfg, 20000, -1), 20000);
    }
}
