use minerust::menu::{
    button_label, get_option_description, keycode_to_char, DevSettings, GraphicsSettings, KeyCode,
    MenuButtonAction, MenuScreen, MenuState, ProfilerState, SeedInputState,
};

fn ratio_step(ratio: f32, max_idx: usize) -> usize {
    (ratio * max_idx as f32).round().clamp(0.0, max_idx as f32) as usize
}

#[test]
fn test_dev_settings_production_defaults() {
    let dev = DevSettings::default();

    assert!(!dev.dev_mode, "dev_mode must default to false for public release");
    assert!(!dev.show_debug_hud, "debug HUD must default to false for public release");

    assert!(dev.backface_culling, "backface culling must be enabled");
    assert!(dev.shadows_enabled, "shadows must be enabled");
    assert!(dev.max_y_skip, "max_y skip must be enabled");
    assert!(dev.distance_fog, "distance fog must be enabled");
    assert!(dev.mesh_budget, "mesh budget must be enabled");
    assert!(dev.async_meshing, "async meshing must be enabled");
    assert!(dev.greedy_meshing, "greedy meshing must be enabled");
    assert!(dev.distance_lod, "distance LOD must be enabled");
    assert_eq!(dev.lod_threshold, 4, "default LOD threshold should be 4 chunks");
    assert_eq!(dev.pregen_margin, 2, "default lookahead pregen margin should be 2 chunks");
}

#[test]
fn test_dev_settings_custom_dev_mode() {
    let dev = DevSettings { dev_mode: true, show_debug_hud: true, ..Default::default() };

    assert!(dev.dev_mode);
    assert!(dev.show_debug_hud);
    assert!(dev.greedy_meshing);
}

#[test]
fn menu_test_seed_input_state_and_keycode_to_char() {
    let default_state = SeedInputState::default();
    assert!(default_state.seed_text.is_empty());
    assert!(!default_state.is_editing);

    assert_eq!(keycode_to_char(KeyCode::KeyA, false), Some('a'));
    assert_eq!(keycode_to_char(KeyCode::KeyA, true), Some('A'));
    assert_eq!(keycode_to_char(KeyCode::Digit7, false), Some('7'));
    assert_eq!(keycode_to_char(KeyCode::Minus, false), Some('-'));
    assert_eq!(keycode_to_char(KeyCode::Minus, true), Some('_'));
}

#[test]
fn tests_test_seed_input_state_and_keycode_to_char() {
    let default_state = SeedInputState::default();
    assert!(default_state.seed_text.is_empty());
    assert!(!default_state.is_editing);

    assert_eq!(keycode_to_char(KeyCode::KeyA, false), Some('a'));
    assert_eq!(keycode_to_char(KeyCode::KeyA, true), Some('A'));
    assert_eq!(keycode_to_char(KeyCode::Digit7, false), Some('7'));
    assert_eq!(keycode_to_char(KeyCode::Minus, false), Some('-'));
    assert_eq!(keycode_to_char(KeyCode::Minus, true), Some('_'));
}

fn check_descriptions(actions: &[MenuButtonAction]) {
    for action in actions {
        let desc = get_option_description(action);
        assert!(desc.is_some(), "Every action must have a valid description");
        let d = desc.unwrap();
        assert!(!d.header.is_empty(), "Header must not be empty");
        assert!(!d.title.is_empty(), "Title must not be empty");
        assert!(!d.description.is_empty(), "Description must not be empty");
        assert!(!d.impact.is_empty(), "Impact must not be empty");
    }
}

#[test]
fn menu_test_get_option_description_all_actions() {
    check_descriptions(&[
        MenuButtonAction::ToggleVsync,
        MenuButtonAction::ToggleFullscreen,
        MenuButtonAction::CycleFpsCap,
        MenuButtonAction::CycleViewDistance,
        MenuButtonAction::ToggleBackfaceCulling,
        MenuButtonAction::ToggleShadows,
        MenuButtonAction::ToggleMaxYSkip,
        MenuButtonAction::ToggleDistanceFog,
        MenuButtonAction::ToggleMeshBudget,
        MenuButtonAction::ToggleAsyncMeshing,
        MenuButtonAction::ToggleGreedyMeshing,
        MenuButtonAction::ToggleDistanceLod,
        MenuButtonAction::CycleLodThreshold,
        MenuButtonAction::CyclePregenMargin,
        MenuButtonAction::ToggleDebugHud,
        MenuButtonAction::BackFromSettings,
        MenuButtonAction::BackFromDevSettings,
        MenuButtonAction::Play,
        MenuButtonAction::ResumeGame,
        MenuButtonAction::OpenSettings,
        MenuButtonAction::OpenDevSettings,
        MenuButtonAction::BackToMain,
        MenuButtonAction::QuitGame,
        MenuButtonAction::ToggleEditSeed,
        MenuButtonAction::RandomizeSeed,
    ]);
}

#[test]
fn tests_test_get_option_description_all_actions() {
    check_descriptions(&[
        MenuButtonAction::ToggleVsync,
        MenuButtonAction::ToggleFullscreen,
        MenuButtonAction::ToggleShadows,
        MenuButtonAction::ToggleDistanceFog,
        MenuButtonAction::ToggleDebugHud,
        MenuButtonAction::CycleFpsCap,
        MenuButtonAction::StepFpsCapLeft,
        MenuButtonAction::StepFpsCapRight,
        MenuButtonAction::SlideFpsCap,
        MenuButtonAction::CycleViewDistance,
        MenuButtonAction::StepViewDistanceLeft,
        MenuButtonAction::StepViewDistanceRight,
        MenuButtonAction::SlideViewDistance,
        MenuButtonAction::BackFromSettings,
        MenuButtonAction::Play,
        MenuButtonAction::ContinueGame,
        MenuButtonAction::NewGame,
        MenuButtonAction::ResumeGame,
        MenuButtonAction::OpenSettings,
        MenuButtonAction::BackToMain,
        MenuButtonAction::QuitGame,
        MenuButtonAction::ToggleEditSeed,
        MenuButtonAction::RandomizeSeed,
    ]);
}

#[test]
fn test_graphics_settings_defaults() {
    let gs = GraphicsSettings::default();

    assert!(gs.vsync, "vsync must default to true");
    assert!(!gs.fullscreen, "fullscreen must default to false");
    assert!(gs.distance_fog, "distance fog must default to true");
    assert!(gs.shadows, "shadows must default to true");
    assert_eq!(gs.fps_cap, None, "fps cap must default to uncapped");
    assert_eq!(gs.view_distance, 16, "view distance must default to 16 chunks");
}

#[test]
fn test_profiler_state_defaults() {
    let profiler = ProfilerState::default();
    assert!(!profiler.visible, "profiler HUD must default to hidden for general players");
}

#[test]
fn test_fps_cap_slider_steps_and_ratios() {
    let mut gs = GraphicsSettings::default();

    assert_eq!(gs.fps_cap_step_index(), 8);
    assert!((gs.fps_cap_step_index() as f32 / 8.0 - 1.0).abs() < 1e-4);
    assert_eq!(gs.fps_cap_label(), "FPS Limit: Uncapped (Max FPS)");

    gs.step_fps_cap(-1);
    assert_eq!(gs.fps_cap_step_index(), 7);
    assert_eq!(gs.fps_cap, Some(240));
    assert_eq!(gs.fps_cap_label(), "FPS Limit: 240 FPS");

    gs.set_fps_cap_step(ratio_step(0.0, 8));
    assert_eq!(gs.fps_cap_step_index(), 0);
    assert_eq!(gs.fps_cap, Some(30));
    assert_eq!(gs.fps_cap_label(), "FPS Limit: 30 FPS");

    gs.set_fps_cap_step(ratio_step(0.125, 8));
    assert_eq!(gs.fps_cap_step_index(), 1);
    assert_eq!(gs.fps_cap, Some(60));
    assert_eq!(gs.fps_cap_label(), "FPS Limit: 60 FPS");
}

#[test]
fn test_view_distance_slider_steps_and_ratios() {
    let mut gs = GraphicsSettings::default();

    assert_eq!(gs.view_distance_step_index(), 6);
    assert!((gs.view_distance_step_index() as f32 / 15.0 - 6.0 / 15.0).abs() < 1e-4);
    assert_eq!(gs.view_distance_label(), "Render Distance: 16 Chunks (256m)");

    gs.step_view_distance(-1);
    assert_eq!(gs.view_distance_step_index(), 5);
    assert_eq!(gs.view_distance, 14);
    assert_eq!(gs.view_distance_label(), "Render Distance: 14 Chunks (224m)");

    gs.set_view_distance_step(ratio_step(0.0, 15));
    assert_eq!(gs.view_distance_step_index(), 0);
    assert_eq!(gs.view_distance, 4);
    assert_eq!(gs.view_distance_label(), "Render Distance: 4 Chunks (64m)");

    gs.set_view_distance_step(ratio_step(1.0, 15));
    assert_eq!(gs.view_distance_step_index(), 15);
    assert_eq!(gs.view_distance, 64);
    assert_eq!(gs.view_distance_label(), "Render Distance: 64 Chunks (1024m)");
}

#[test]
fn view_distance_off_step_snaps_to_nearest() {
    let mut gs = GraphicsSettings::default();
    gs.view_distance = 17;
    assert_eq!(gs.view_distance_step_index(), 6);
    gs.view_distance = 100;
    assert_eq!(gs.view_distance_step_index(), 15);
    gs.view_distance = -5;
    assert_eq!(gs.view_distance_step_index(), 0);
    gs.view_distance = 22;
    assert_eq!(gs.view_distance_step_index(), 8);
    gs.step_view_distance(20);
    assert_eq!(gs.view_distance, 64);
    gs.fps_cap = Some(61);
    assert_eq!(gs.fps_cap_step_index(), 8);
    gs.step_fps_cap(-100);
    assert_eq!(gs.fps_cap, Some(30));
}

#[test]
fn menu_state_default_and_open() {
    let m = MenuState::default();
    assert_eq!(m.screen, MenuScreen::Main);
    assert!(m.is_open());
    let g = MenuState { screen: MenuScreen::Gameplay, ..m };
    assert!(!g.is_open());
}

#[test]
fn keycode_to_char_covers_digits_and_rejects_others() {
    assert_eq!(keycode_to_char(KeyCode::Numpad3, false), Some('3'));
    assert_eq!(keycode_to_char(KeyCode::Space, true), Some(' '));
    assert_eq!(keycode_to_char(KeyCode::KeyZ, true), Some('Z'));
    assert_eq!(keycode_to_char(KeyCode::Enter, false), None);
    assert_eq!(keycode_to_char(KeyCode::Escape, false), None);
}

#[test]
fn button_labels_follow_settings() {
    let mut s = GraphicsSettings::default();
    let d = DevSettings::default();
    s.vsync = true;
    assert_eq!(button_label(MenuButtonAction::ToggleVsync, &s, &d, false).unwrap(), "VSync: ON");
    s.vsync = false;
    assert_eq!(button_label(MenuButtonAction::ToggleVsync, &s, &d, false).unwrap(), "VSync: OFF");
    assert_eq!(button_label(MenuButtonAction::ToggleDebugHud, &s, &d, true).unwrap(), "Profiler HUD (F3): ON");
    s.fullscreen = false;
    assert_eq!(button_label(MenuButtonAction::ToggleFullscreen, &s, &d, false).unwrap(), "Display: Windowed");
    assert_eq!(button_label(MenuButtonAction::CycleFpsCap, &s, &d, false).unwrap(), s.fps_cap_label());
    assert_eq!(button_label(MenuButtonAction::CycleViewDistance, &s, &d, false).unwrap(), s.view_distance_label());
    let mut d2 = d.clone();
    d2.lod_threshold = 8;
    assert_eq!(button_label(MenuButtonAction::CycleLodThreshold, &s, &d2, false).unwrap(), "LOD Distance: 8 Chunks (128m)");
    d2.pregen_margin = 0;
    assert_eq!(
        button_label(MenuButtonAction::CyclePregenMargin, &s, &d2, false).unwrap(),
        "Lookahead Buffer: 0 (Disabled / Stutter prone)"
    );
    d2.pregen_margin = 2;
    assert_eq!(
        button_label(MenuButtonAction::CyclePregenMargin, &s, &d2, false).unwrap(),
        "Lookahead Buffer: 2 Chunks (+32m RAM cache)"
    );
    assert!(button_label(MenuButtonAction::Play, &s, &d, false).is_none());
}
