use worldgen::config::Config;
use worldgen::fixed::ONE;
use worldgen::layers::{
    badland_control_layer, badland_layer, continent_layer, glaciate, hill_layer, mountain_layer,
    plain_layer, terrain_control_layer, Layer, GLACIATION_LEVEL,
};
use worldgen::noise::{fractal, Fractal, NoiseKind};

fn config() -> Config {
    Config { seed: 7, hills_amount: 16384, ..Config::default() }
}

const POINTS: [(i64, i64); 3] = [(0, 0), (12345, -67890), (100000, 200000)];

fn values(layer: &Layer) -> [i64; 3] {
    [
        layer.sample(POINTS[0].0, POINTS[0].1),
        layer.sample(POINTS[1].0, POINTS[1].1),
        layer.sample(POINTS[2].0, POINTS[2].1),
    ]
}

#[test]
fn layers_take_their_seeds_from_the_root_seed() {
    let cfg = config();
    assert_eq!(continent_layer(&cfg).base.seed, 7);
    assert_eq!(terrain_control_layer(&cfg).base.seed, 1_000_010);
    assert_eq!(mountain_layer(&cfg).base.seed, 2_000_013);
    assert_eq!(mountain_layer(&cfg).twist_seed, 3_000_016);
    assert_eq!(hill_layer(&cfg).base.seed, 4_000_019);
    assert_eq!(hill_layer(&cfg).twist_seed, 5_000_022);
    assert_eq!(plain_layer(&cfg).base.seed, 6_000_025);
    assert_eq!(badland_layer(&cfg).base.seed, 7_000_028);
    assert_eq!(badland_layer(&cfg).twist_seed, 8_000_031);
    assert_eq!(badland_control_layer(&cfg).base.seed, 9_000_034);
}

#[test]
fn layers_take_their_parameters_from_the_configuration() {
    let cfg = Config {
        continent_frequency: 11,
        continent_lacunarity: 12,
        mountain_lacunarity: 13,
        hills_lacunarity: 14,
        plains_lacunarity: 15,
        badlands_lacunarity: 16,
        mountains_twist: 17,
        hills_twist: 18,
        badlands_twist: 19,
        ..config()
    };
    assert_eq!(continent_layer(&cfg).base.frequency, 11);
    assert_eq!(continent_layer(&cfg).base.lacunarity, 12);
    assert_eq!(continent_layer(&cfg).twist, 0);
    assert_eq!(terrain_control_layer(&cfg).base.lacunarity, 12);
    assert_eq!(mountain_layer(&cfg).base.lacunarity, 13);
    assert_eq!(mountain_layer(&cfg).base.kind, NoiseKind::Ridged);
    assert_eq!(mountain_layer(&cfg).twist, 17);
    assert_eq!(hill_layer(&cfg).base.lacunarity, 14);
    assert_eq!(hill_layer(&cfg).base.kind, NoiseKind::Billow);
    assert_eq!(hill_layer(&cfg).twist, 18);
    assert_eq!(plain_layer(&cfg).base.lacunarity, 15);
    assert_eq!(plain_layer(&cfg).twist, 0);
    assert_eq!(badland_layer(&cfg).base.lacunarity, 16);
    assert_eq!(badland_layer(&cfg).twist, 19);
    assert_eq!(badland_control_layer(&cfg).base.lacunarity, 16);
}

#[test]
fn layer_elevations_at_given_points() {
    let cfg = config();
    assert_eq!(values(&continent_layer(&cfg)), [-13584, 65536, -5344]);
    assert_eq!(values(&terrain_control_layer(&cfg)), [-54098, -39656, 38108]);
    assert_eq!(values(&mountain_layer(&cfg)), [34755, 31242, 35296]);
    assert_eq!(values(&hill_layer(&cfg)), [6417, 6974, 4734]);
    assert_eq!(values(&plain_layer(&cfg)), [3444, 1499, 1324]);
    assert_eq!(values(&badland_layer(&cfg)), [21369, 24112, 18093]);
    assert_eq!(values(&badland_control_layer(&cfg)), [49766, -15862, -3038]);
}

#[test]
fn twist_displaces_the_coordinates() {
    let cfg = config();
    assert_eq!(mountain_layer(&cfg).displaced(12345, -67890), (15403, -69544));
    assert_eq!(
        mountain_layer(&cfg).displaced(i64::MAX, i64::MIN),
        (9223372036854775424, i64::MIN)
    );
}

#[test]
fn a_layer_without_twist_samples_where_it_is_asked() {
    let cfg = config();
    assert_eq!(continent_layer(&cfg).displaced(5, 6), (5, 6));
    assert_eq!(plain_layer(&cfg).displaced(i64::MIN, i64::MAX), (i64::MIN, i64::MAX));
    let still = Layer { twist: 0, ..mountain_layer(&cfg) };
    assert_eq!(still.displaced(12345, -67890), (12345, -67890));
}

#[test]
fn a_layer_is_its_fractal_under_gain_and_bias() {
    let base = Fractal {
        seed: 42,
        kind: NoiseKind::Ridged,
        octaves: 5,
        frequency: ONE,
        lacunarity: 144768,
        persistence: ONE / 2,
    };
    let raw = fractal(&base, 12345, -67890);
    assert_eq!(raw, 21860);
    let layer = Layer {
        base,
        twist_seed: 0,
        twist: 0,
        twist_frequency: 0,
        twist_reach: 0,
        gain: ONE / 2,
        bias: 1000,
    };
    assert_eq!(layer.sample(12345, -67890), 21860 / 2 + 1000);
    let loud = Layer { gain: 100 * ONE, ..layer };
    assert_eq!(loud.sample(12345, -67890), ONE);
    let low = Layer { gain: -100 * ONE, ..layer };
    assert_eq!(low.sample(12345, -67890), -ONE);
}

#[test]
fn layers_stay_in_range_under_any_parameters() {
    let wild = Layer {
        base: Fractal {
            seed: 1,
            kind: NoiseKind::Billow,
            octaves: u32::MAX,
            frequency: i64::MIN,
            lacunarity: i64::MAX,
            persistence: i64::MAX,
        },
        twist_seed: u32::MAX,
        twist: i64::MAX,
        twist_frequency: i64::MIN,
        twist_reach: i64::MAX,
        gain: i64::MIN,
        bias: i64::MAX,
    };
    for (x, y) in [(0, 0), (i64::MIN, i64::MAX), (i64::MAX, i64::MAX), (-1, 1)] {
        let v = wild.sample(x, y);
        assert!(-ONE <= v && v <= ONE);
    }
}

#[test]
fn glaciation_stretches_what_lies_above_its_level() {
    assert_eq!(GLACIATION_LEVEL, 32768);
    assert_eq!(glaciate(40000, 24576), 42712);
    assert_eq!(glaciate(32769, 24576), 32769);
    assert_eq!(glaciate(40000, 0), 40000);
}

#[test]
fn glaciation_leaves_the_rest_alone() {
    assert_eq!(glaciate(32768, 24576), 32768);
    assert_eq!(glaciate(30000, 24576), 30000);
    assert_eq!(glaciate(-5, i64::MAX), -5);
    assert_eq!(glaciate(i64::MIN, 5), i64::MIN);
}

#[test]
fn glaciation_is_limited_to_the_height_range() {
    assert_eq!(glaciate(65536, 4 * ONE), ONE);
    assert_eq!(glaciate(50000, -4 * ONE), -18928);
    assert_eq!(glaciate(60000, -100 * ONE), -ONE);
    assert_eq!(glaciate(i64::MAX, 5), ONE);
}
