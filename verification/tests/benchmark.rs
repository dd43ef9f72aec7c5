use minerust::benchmark::{BenchmarkPreset, BenchmarkScenario, BenchmarkSuite};
use minerust::menu::GraphicsSettings;

#[test]
fn test_benchmark_preset_from_str_name() {
    assert_eq!(BenchmarkPreset::from_str_name("flight"), Some(BenchmarkPreset::Flight5km));
    assert_eq!(BenchmarkPreset::from_str_name("PRODUCTION"), Some(BenchmarkPreset::Flight5km));
    assert_eq!(BenchmarkPreset::from_str_name("standard"), Some(BenchmarkPreset::Flight5km));
    assert_eq!(BenchmarkPreset::from_str_name("5km"), Some(BenchmarkPreset::Flight5km));
    assert_eq!(BenchmarkPreset::from_str_name("invalid_preset"), None);
}

#[test]
fn benchmark_preset_names() {
    assert_eq!(BenchmarkPreset::from_lowercase_name("Sloped_LOD"), None);
    assert_eq!(BenchmarkPreset::from_str_name("Sloped_LOD"), Some(BenchmarkPreset::Flight5km));
    assert_eq!(BenchmarkPreset::Flight5km.id(), "flight_5km");
    assert_eq!(BenchmarkPreset::Flight5km.name(), "5km Flight Benchmark");
}

#[test]
fn test_benchmark_scenario_apply_configures_settings() {
    let scenario = BenchmarkScenario::standard(48);
    let mut graphics = GraphicsSettings::default();

    scenario.apply(&mut graphics);

    assert!(!graphics.vsync);
    assert_eq!(graphics.view_distance, 48);
    assert_eq!(graphics.fps_cap, None);
    assert!(!graphics.distance_fog);
}

#[test]
fn standard_scenario_and_suite() {
    let bench = BenchmarkScenario::standard(64);
    assert_eq!(bench.view_distance, 64);
    assert!(!bench.distance_fog);
    assert_eq!(bench.id, "standard");
    assert_eq!(bench.name, "Standard 5km Flight Benchmark");
    assert_eq!(bench.output_path.as_deref(), Some("benchmark_results/flight_benchmark.json"));
    let suite = BenchmarkSuite::standard(32);
    assert_eq!(suite.scenarios.len(), 1);
    assert_eq!(suite.seed, BenchmarkSuite::DEFAULT_SEED);
    assert_eq!(suite.seed, 133742);
    assert_eq!(suite.scenarios[0].view_distance, 32);
    assert_eq!(BenchmarkScenario::production(8).view_distance, 8);
    assert_eq!(BenchmarkScenario::from_preset(BenchmarkPreset::Flight5km, 12).view_distance, 12);
    assert_eq!(BenchmarkScenario::from_preset_name("GREEDY", 20).unwrap().view_distance, 20);
    assert!(BenchmarkScenario::from_preset_name("nothing", 20).is_none());
    let mut fogged = BenchmarkScenario::standard(4);
    fogged.distance_fog = true;
    let mut g = GraphicsSettings::default();
    g.vsync = true;
    g.fps_cap = Some(60);
    g.shadows = false;
    fogged.apply(&mut g);
    assert!(g.distance_fog && !g.vsync && g.fps_cap.is_none() && !g.shadows && g.view_distance == 4);
}
