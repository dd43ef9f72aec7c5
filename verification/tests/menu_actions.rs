use minerust::menu::{
    DevSettings, GraphicsSettings, MenuButtonAction, MenuScreen, MenuState, ProfilerState,
    SeedInputState,
};
use minerust::menu_actions::{MenuContext, MenuEffect, MenuKeyEffect};
use minerust::world::WorldSeed;

fn context() -> MenuContext {
    MenuContext {
        menu: MenuState::default(),
        settings: GraphicsSettings::default(),
        dev: Some(DevSettings::default()),
        seed: Some(SeedInputState { seed_text: "minecraft".to_string(), is_editing: true }),
        profiler: Some(ProfilerState::default()),
    }
}

#[test]
fn play_starts_the_world_with_the_typed_seed() {
    let mut c = context();
    let e = c.press(MenuButtonAction::Play);
    assert_eq!(e, MenuEffect::StartWorld(Some(WorldSeed::from_seed_str("minecraft"))));
    assert_eq!(c.menu.screen, MenuScreen::Gameplay);
    assert!(c.menu.world_active);
    let mut no_seed = MenuContext { seed: None, ..context() };
    assert_eq!(no_seed.press(MenuButtonAction::NewGame), MenuEffect::StartWorld(None));
}

#[test]
fn settings_round_trip_returns_to_previous_screen() {
    let mut c = context();
    c.menu.screen = MenuScreen::Pause;
    assert_eq!(c.press(MenuButtonAction::OpenSettings), MenuEffect::Nothing);
    assert_eq!(c.menu.screen, MenuScreen::Settings);
    assert_eq!(c.menu.previous_screen, MenuScreen::Pause);
    c.press(MenuButtonAction::BackFromSettings);
    assert_eq!(c.menu.screen, MenuScreen::Pause);
}

#[test]
fn dev_settings_need_dev_mode() {
    let mut c = context();
    c.press(MenuButtonAction::OpenDevSettings);
    assert_eq!(c.menu.screen, MenuScreen::Main);
    c.press(MenuButtonAction::ToggleGreedyMeshing);
    assert!(c.dev.unwrap().greedy_meshing);
    c.dev = Some(DevSettings { dev_mode: true, ..DevSettings::default() });
    c.press(MenuButtonAction::OpenDevSettings);
    assert_eq!(c.menu.screen, MenuScreen::DevSettings);
    c.press(MenuButtonAction::ToggleGreedyMeshing);
    assert!(!c.dev.unwrap().greedy_meshing);
    c.press(MenuButtonAction::CycleLodThreshold);
    assert_eq!(c.dev.unwrap().lod_threshold, 6);
    c.press(MenuButtonAction::CyclePregenMargin);
    assert_eq!(c.dev.unwrap().pregen_margin, 3);
    c.press(MenuButtonAction::BackFromDevSettings);
    assert_eq!(c.menu.screen, MenuScreen::Main);
}

#[test]
fn toggles_and_steps_change_settings() {
    let mut c = context();
    assert_eq!(c.press(MenuButtonAction::ToggleVsync), MenuEffect::ApplyPresentMode);
    assert!(!c.settings.vsync);
    assert_eq!(c.press(MenuButtonAction::ToggleFullscreen), MenuEffect::ApplyWindowMode);
    assert!(c.settings.fullscreen);
    c.press(MenuButtonAction::ToggleShadows);
    assert!(!c.settings.shadows);
    c.press(MenuButtonAction::ToggleDebugHud);
    assert!(c.profiler.unwrap().visible);
    c.press(MenuButtonAction::StepViewDistanceLeft);
    assert_eq!(c.settings.view_distance, 14);
    c.press(MenuButtonAction::CycleViewDistance);
    assert_eq!(c.settings.view_distance, 16);
    c.press(MenuButtonAction::StepFpsCapLeft);
    assert_eq!(c.settings.fps_cap, Some(240));
    c.press(MenuButtonAction::ToggleEditSeed);
    assert!(!c.seed.as_ref().unwrap().is_editing);
}

#[test]
fn leaving_and_quitting() {
    let mut c = context();
    c.press(MenuButtonAction::ContinueGame);
    assert!(c.menu.world_active);
    assert_eq!(c.press(MenuButtonAction::BackToMain), MenuEffect::LeaveWorld);
    assert!(!c.menu.world_active);
    assert_eq!(c.menu.screen, MenuScreen::Main);
    assert_eq!(c.press(MenuButtonAction::QuitGame), MenuEffect::Quit);
    assert_eq!(c.press(MenuButtonAction::RandomizeSeed), MenuEffect::RandomizeSeed);
    assert_eq!(
        c.press(MenuButtonAction::StartBenchmark),
        MenuEffect::StartBenchmark(WorldSeed::from_seed_str("BENCHMARK"))
    );
    c.press(MenuButtonAction::BackFromBenchmark);
    assert_eq!(c.menu.screen, MenuScreen::Settings);
}

#[test]
fn escape_pauses_resumes_and_stops_editing() {
    let mut c = context();
    c.menu.screen = MenuScreen::Gameplay;
    assert_eq!(c.handle_menu_keys(false, true, false, false), MenuKeyEffect::Nothing);
    assert!(!c.seed.as_ref().unwrap().is_editing);
    assert_eq!(c.menu.screen, MenuScreen::Gameplay);
    assert_eq!(c.handle_menu_keys(false, true, false, false), MenuKeyEffect::FreeCursor);
    assert_eq!(c.menu.screen, MenuScreen::Pause);
    assert_eq!(c.handle_menu_keys(false, true, false, false), MenuKeyEffect::CaptureCursor);
    assert_eq!(c.menu.screen, MenuScreen::Gameplay);
    assert_eq!(c.handle_menu_keys(false, true, true, false), MenuKeyEffect::Nothing);
    assert_eq!(c.menu.screen, MenuScreen::Gameplay);
}

#[test]
fn f3_toggles_profiler_and_escape_cancels_benchmark() {
    let mut c = MenuContext { seed: None, ..context() };
    let shown = c.profiler.unwrap().visible;
    assert_eq!(c.handle_menu_keys(true, false, false, false), MenuKeyEffect::Nothing);
    assert_eq!(c.profiler.unwrap().visible, !shown);
    c.menu.screen = MenuScreen::Gameplay;
    assert_eq!(c.handle_menu_keys(false, true, false, true), MenuKeyEffect::CancelBenchmark);
    assert_eq!(c.menu.screen, MenuScreen::Settings);
    c.menu.previous_screen = MenuScreen::Pause;
    assert_eq!(c.handle_menu_keys(false, true, false, false), MenuKeyEffect::Nothing);
    assert_eq!(c.menu.screen, MenuScreen::Pause);
    c.menu.screen = MenuScreen::Main;
    assert_eq!(c.handle_menu_keys(false, true, false, false), MenuKeyEffect::Nothing);
    assert_eq!(c.menu.screen, MenuScreen::Main);
}
