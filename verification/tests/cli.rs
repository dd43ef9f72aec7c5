use minerust::cli::CliOptions;
use minerust::world::WorldSeed;

#[test]
fn test_cli_options_defaults() {
    let opts = CliOptions::parse_from_args(vec!["minerust".to_string()]).unwrap();
    assert_eq!(
        opts,
        CliOptions {
            seed: None,
            profile_mode: false,
            quickstart: false,
            view_distance: None,
        }
    );
}

#[test]
fn test_cli_options_seed_and_flags() {
    let opts = CliOptions::parse_from_args(vec![
        "minerust".to_string(),
        "-s".to_string(),
        "42".to_string(),
        "-p".to_string(),
        "-q".to_string(),
    ])
    .unwrap();

    assert_eq!(opts.seed, Some(WorldSeed(42)));
    assert!(opts.profile_mode);
    assert!(opts.quickstart);
}

#[test]
fn test_cli_options_view_distance_clamping() {
    let opts = CliOptions::parse_from_args(vec![
        "minerust".to_string(),
        "--view-distance".to_string(),
        "1".to_string(),
    ])
    .unwrap();
    assert_eq!(opts.view_distance, Some(2));

    let opts2 = CliOptions::parse_from_args(vec![
        "minerust".to_string(),
        "--view-distance".to_string(),
        "128".to_string(),
    ])
    .unwrap();
    assert_eq!(opts2.view_distance, Some(64));
}

#[test]
fn test_cli_options_help_returns_err_with_message() {
    let res = CliOptions::parse_from_args(vec!["minerust".to_string(), "--help".to_string()]);
    assert!(res.is_err());
    assert!(res.unwrap_err().contains("Usage: minerust"));
}

#[test]
fn cli_long_flags_text_seeds_and_bad_values() {
    let opts = CliOptions::parse_from_args(vec![
        "minerust".to_string(),
        "--seed".to_string(),
        "minecraft".to_string(),
        "--view-distance".to_string(),
        "abc".to_string(),
        "--quickstart".to_string(),
        "--bogus".to_string(),
    ])
    .unwrap();
    assert_eq!(opts.seed, Some(WorldSeed::from_seed_str("minecraft")));
    assert_eq!(opts.view_distance, None);
    assert!(opts.quickstart);
    assert!(!opts.profile_mode);
}

#[test]
fn cli_flag_missing_its_value_is_ignored() {
    let opts = CliOptions::parse_from_args(vec!["minerust".to_string(), "-s".to_string()]).unwrap();
    assert_eq!(opts.seed, None);
    let opts = CliOptions::parse_from_args(vec![
        "minerust".to_string(),
        "--view-distance".to_string(),
        "20".to_string(),
    ])
    .unwrap();
    assert_eq!(opts.view_distance, Some(20));
}

#[test]
fn cli_help_stops_reading() {
    let res = CliOptions::parse_from_args(vec![
        "minerust".to_string(),
        "-p".to_string(),
        "-h".to_string(),
        "-q".to_string(),
    ]);
    assert_eq!(res, Err(CliOptions::help_message()));
    assert!(CliOptions::help_message().starts_with("MineRust - A High-Performance Voxel Sandbox in Rust\n"));
}

#[test]
fn cli_program_name_only_or_nothing() {
    assert_eq!(CliOptions::parse_from_args(vec![]).unwrap(), CliOptions::default());
    let opts = CliOptions::parse_from_args(vec!["-p".to_string()]).unwrap();
    assert!(!opts.profile_mode);
}
