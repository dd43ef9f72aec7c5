use vstd::prelude::*;

use crate::menu::{
    DevSettings, GraphicsSettings, MenuButtonAction, MenuScreen, MenuState, ProfilerState,
    SeedInputState, clamp_int, fps_cap_index, fps_cap_steps, view_distance_index,
    view_distance_steps,
};
use crate::world::{WorldSeed, seed_of_text};

verus! {

/// What the game has to do beyond the menu's own state after a button press.
#[derive(Clone, Copy, Debug, PartialEq, Eq, Structural)]
pub enum MenuEffect {
    Nothing,
    /// Start the world with a seed; `None` asks for a random one.
    StartWorld(Option<WorldSeed>),
    /// Reload the last played world.
    ContinueWorld,
    /// Start the benchmark flight in the world of this seed.
    StartBenchmark(WorldSeed),
    /// Hide the menu and capture the cursor again.
    ResumeGame,
    /// Save the world and the player, unload the world and free the cursor.
    LeaveWorld,
    Quit,
    /// The window's present mode must follow the vsync setting.
    ApplyPresentMode,
    /// The window's mode must follow the fullscreen setting.
    ApplyWindowMode,
    /// Put a fresh random seed into the seed text.
    RandomizeSeed,
}

/// The menu-related state a button press can change; the optional parts may be absent
/// from the game.
pub struct MenuContext {
    pub menu: MenuState,
    pub settings: GraphicsSettings,
    pub dev: Option<DevSettings>,
    pub seed: Option<SeedInputState>,
    pub profiler: Option<ProfilerState>,
}

/// The next threshold distance for switching to the simplified mesher.
pub open spec fn next_lod_threshold(t: i32) -> i32 {
    if t == 2 { 3 } else if t == 4 { 6 } else if t == 6 { 8 } else if t == 8 { 2 } else { 4 }
}

/// The next number of extra chunks generated around the spawn.
pub open spec fn next_pregen_margin(m: i32) -> i32 {
    if m == 0 { 1 } else if m == 1 { 2 } else if m == 2 { 3 } else if m == 3 { 4 } else { 0 }
}

/// A change of developer settings, made only in developer mode.
pub open spec fn dev_change(dev: Option<DevSettings>, f: spec_fn(DevSettings) -> DevSettings) -> Option<DevSettings> {
    match dev {
        Some(d) => if d.dev_mode { Some(f(d)) } else { Some(d) },
        None => None,
    }
}

pub open spec fn with_dev(c: MenuContext, dev: Option<DevSettings>) -> MenuContext {
    MenuContext { dev, ..c }
}

pub open spec fn with_menu(c: MenuContext, menu: MenuState) -> MenuContext {
    MenuContext { menu, ..c }
}

pub open spec fn with_settings(c: MenuContext, settings: GraphicsSettings) -> MenuContext {
    MenuContext { settings, ..c }
}

/// Entering the world: the world is active and no menu is shown.
pub open spec fn in_game(m: MenuState) -> MenuState {
    MenuState { screen: MenuScreen::Gameplay, world_active: true, ..m }
}

/// What pressing a button does to the menu state, and what the game has to do.
pub open spec fn pressed(action: MenuButtonAction, c: MenuContext) -> (MenuContext, MenuEffect) {
    match action {
        MenuButtonAction::ToggleEditSeed => (
            MenuContext {
                seed: match c.seed {
                    Some(s) => Some(SeedInputState { is_editing: !s.is_editing, ..s }),
                    None => None,
                },
                ..c
            },
            MenuEffect::Nothing,
        ),
        MenuButtonAction::RandomizeSeed => (c, MenuEffect::RandomizeSeed),
        MenuButtonAction::ContinueGame => (with_menu(c, in_game(c.menu)), MenuEffect::ContinueWorld),
        MenuButtonAction::Play | MenuButtonAction::NewGame => (
            with_menu(c, in_game(c.menu)),
            MenuEffect::StartWorld(
                match c.seed {
                    Some(s) => Some(WorldSeed(seed_of_text(s.seed_text@))),
                    None => None,
                },
            ),
        ),
        MenuButtonAction::ResumeGame => (
            with_menu(c, MenuState { screen: MenuScreen::Gameplay, ..c.menu }),
            MenuEffect::ResumeGame,
        ),
        MenuButtonAction::OpenSettings => (
            with_menu(c, MenuState { previous_screen: c.menu.screen, screen: MenuScreen::Settings, ..c.menu }),
            MenuEffect::Nothing,
        ),
        MenuButtonAction::OpenDevSettings => if c.dev matches Some(d) && d.dev_mode {
            (
                with_menu(c, MenuState { previous_screen: c.menu.screen, screen: MenuScreen::DevSettings, ..c.menu }),
                MenuEffect::Nothing,
            )
        } else {
            (c, MenuEffect::Nothing)
        },
        MenuButtonAction::BackFromSettings | MenuButtonAction::BackFromDevSettings => (
            with_menu(c, MenuState { screen: c.menu.previous_screen, ..c.menu }),
            MenuEffect::Nothing,
        ),
        MenuButtonAction::BackToMain => (
            with_menu(c, MenuState { screen: MenuScreen::Main, world_active: false, ..c.menu }),
            MenuEffect::LeaveWorld,
        ),
        MenuButtonAction::QuitGame => (c, MenuEffect::Quit),
        MenuButtonAction::ToggleVsync => (
            with_settings(c, GraphicsSettings { vsync: !c.settings.vsync, ..c.settings }),
            MenuEffect::ApplyPresentMode,
        ),
        MenuButtonAction::ToggleFullscreen => (
            with_settings(c, GraphicsSettings { fullscreen: !c.settings.fullscreen, ..c.settings }),
            MenuEffect::ApplyWindowMode,
        ),
        MenuButtonAction::ToggleShadows => (
            with_settings(c, GraphicsSettings { shadows: !c.settings.shadows, ..c.settings }),
            MenuEffect::Nothing,
        ),
        MenuButtonAction::ToggleDistanceFog => (
            with_settings(c, GraphicsSettings { distance_fog: !c.settings.distance_fog, ..c.settings }),
            MenuEffect::Nothing,
        ),
        MenuButtonAction::ToggleDebugHud => (
            MenuContext {
                profiler: match c.profiler {
                    Some(p) => Some(ProfilerState { visible: !p.visible }),
                    None => None,
                },
                ..c
            },
            MenuEffect::Nothing,
        ),
        MenuButtonAction::CycleFpsCap | MenuButtonAction::StepFpsCapRight => (
            with_settings(
                c,
                GraphicsSettings { fps_cap: fps_cap_steps()[clamp_int(fps_cap_index(c.settings.fps_cap) + 1, 0, 8)], ..c.settings },
            ),
            MenuEffect::Nothing,
        ),
        MenuButtonAction::StepFpsCapLeft => (
            with_settings(
                c,
                GraphicsSettings { fps_cap: fps_cap_steps()[clamp_int(fps_cap_index(c.settings.fps_cap) - 1, 0, 8)], ..c.settings },
            ),
            MenuEffect::Nothing,
        ),
        MenuButtonAction::CycleViewDistance | MenuButtonAction::StepViewDistanceRight => (
            with_settings(
                c,
                GraphicsSettings {
                    view_distance: view_distance_steps()[clamp_int(view_distance_index(c.settings.view_distance as int) + 1, 0, 15)],
                    ..c.settings
                },
            ),
            MenuEffect::Nothing,
        ),
        MenuButtonAction::StepViewDistanceLeft => (
            with_settings(
                c,
                GraphicsSettings {
                    view_distance: view_distance_steps()[clamp_int(view_distance_index(c.settings.view_distance as int) - 1, 0, 15)],
                    ..c.settings
                },
            ),
            MenuEffect::Nothing,
        ),
        MenuButtonAction::ToggleGreedyMeshing => (
            with_dev(c, dev_change(c.dev, |d: DevSettings| DevSettings { greedy_meshing: !d.greedy_meshing, ..d })),
            MenuEffect::Nothing,
        ),
        MenuButtonAction::ToggleDistanceLod => (
            with_dev(c, dev_change(c.dev, |d: DevSettings| DevSettings { distance_lod: !d.distance_lod, ..d })),
            MenuEffect::Nothing,
        ),
        MenuButtonAction::ToggleBackfaceCulling => (
            with_dev(c, dev_change(c.dev, |d: DevSettings| DevSettings { backface_culling: !d.backface_culling, ..d })),
            MenuEffect::Nothing,
        ),
        MenuButtonAction::ToggleMaxYSkip => (
            with_dev(c, dev_change(c.dev, |d: DevSettings| DevSettings { max_y_skip: !d.max_y_skip, ..d })),
            MenuEffect::Nothing,
        ),
        MenuButtonAction::ToggleMeshBudget => (
            with_dev(c, dev_change(c.dev, |d: DevSettings| DevSettings { mesh_budget: !d.mesh_budget, ..d })),
            MenuEffect::Nothing,
        ),
        MenuButtonAction::ToggleAsyncMeshing => (
            with_dev(c, dev_change(c.dev, |d: DevSettings| DevSettings { async_meshing: !d.async_meshing, ..d })),
            MenuEffect::Nothing,
        ),
        MenuButtonAction::CycleLodThreshold => (
            with_dev(c, dev_change(c.dev, |d: DevSettings| DevSettings { lod_threshold: next_lod_threshold(d.lod_threshold), ..d })),
            MenuEffect::Nothing,
        ),
        MenuButtonAction::CyclePregenMargin => (
            with_dev(c, dev_change(c.dev, |d: DevSettings| DevSettings { pregen_margin: next_pregen_margin(d.pregen_margin), ..d })),
            MenuEffect::Nothing,
        ),
        MenuButtonAction::StartBenchmark => (
            with_menu(c, in_game(c.menu)),
            MenuEffect::StartBenchmark(WorldSeed(seed_of_text("BENCHMARK"@))),
        ),
        MenuButtonAction::BackFromBenchmark => (
            with_menu(c, MenuState { screen: MenuScreen::Settings, ..c.menu }),
            MenuEffect::Nothing,
        ),
        MenuButtonAction::CycleGreedyMeshing | MenuButtonAction::StepGreedyMeshingLeft
        | MenuButtonAction::StepGreedyMeshingRight | MenuButtonAction::SlideGreedyMeshing
        | MenuButtonAction::CycleDistanceLod | MenuButtonAction::StepDistanceLodLeft
        | MenuButtonAction::StepDistanceLodRight | MenuButtonAction::SlideDistanceLod
        | MenuButtonAction::SlideFpsCap | MenuButtonAction::SlideViewDistance => (c, MenuEffect::Nothing),
    }
}

impl MenuContext {
    /// The developer settings change only in developer mode.
    fn change_dev(&mut self, action: MenuButtonAction)
        ensures
            final(self).menu == old(self).menu,
            final(self).settings == old(self).settings,
            final(self).seed == old(self).seed,
            final(self).profiler == old(self).profiler,
            final(self).dev == (match action {
                MenuButtonAction::ToggleGreedyMeshing => dev_change(old(self).dev, |d: DevSettings| DevSettings { greedy_meshing: !d.greedy_meshing, ..d }),
                MenuButtonAction::ToggleDistanceLod => dev_change(old(self).dev, |d: DevSettings| DevSettings { distance_lod: !d.distance_lod, ..d }),
                MenuButtonAction::ToggleBackfaceCulling => dev_change(old(self).dev, |d: DevSettings| DevSettings { backface_culling: !d.backface_culling, ..d }),
                MenuButtonAction::ToggleMaxYSkip => dev_change(old(self).dev, |d: DevSettings| DevSettings { max_y_skip: !d.max_y_skip, ..d }),
                MenuButtonAction::ToggleMeshBudget => dev_change(old(self).dev, |d: DevSettings| DevSettings { mesh_budget: !d.mesh_budget, ..d }),
                MenuButtonAction::ToggleAsyncMeshing => dev_change(old(self).dev, |d: DevSettings| DevSettings { async_meshing: !d.async_meshing, ..d }),
                MenuButtonAction::CycleLodThreshold => dev_change(old(self).dev, |d: DevSettings| DevSettings { lod_threshold: next_lod_threshold(d.lod_threshold), ..d }),
                MenuButtonAction::CyclePregenMargin => dev_change(old(self).dev, |d: DevSettings| DevSettings { pregen_margin: next_pregen_margin(d.pregen_margin), ..d }),
                _ => old(self).dev,
            }),
    {
        if let Some(d) = &mut self.dev {
            if d.dev_mode {
                match action {
                    MenuButtonAction::ToggleGreedyMeshing => d.greedy_meshing = !d.greedy_meshing,
                    MenuButtonAction::ToggleDistanceLod => d.distance_lod = !d.distance_lod,
                    MenuButtonAction::ToggleBackfaceCulling => d.backface_culling = !d.backface_culling,
                    MenuButtonAction::ToggleMaxYSkip => d.max_y_skip = !d.max_y_skip,
                    MenuButtonAction::ToggleMeshBudget => d.mesh_budget = !d.mesh_budget,
                    MenuButtonAction::ToggleAsyncMeshing => d.async_meshing = !d.async_meshing,
                    MenuButtonAction::CycleLodThreshold => {
                        d.lod_threshold = if d.lod_threshold == 2 {
                            3
                        } else if d.lod_threshold == 4 {
                            6
                        } else if d.lod_threshold == 6 {
                            8
                        } else if d.lod_threshold == 8 {
                            2
                        } else {
                            4
                        };
                    },
                    MenuButtonAction::CyclePregenMargin => {
                        d.pregen_margin = if d.pregen_margin == 0 {
                            1
                        } else if d.pregen_margin == 1 {
                            2
                        } else if d.pregen_margin == 2 {
                            3
                        } else if d.pregen_margin == 3 {
                            4
                        } else {
                            0
                        };
                    },
                    _ => {},
                }
            }
        }
    }

    /// Carries out a button press on the menu state and tells what the game has to do
    /// besides.
    pub fn press(&mut self, action: MenuButtonAction) -> (e: MenuEffect)
        requires
            old(self).settings.view_distance >= 64 - i32::MAX,
        ensures
            (*final(self), e) == pressed(action, *old(self)),
    {
        match action {
            MenuButtonAction::ToggleEditSeed => {
                if let Some(s) = &mut self.seed {
                    s.is_editing = !s.is_editing;
                }
                MenuEffect::Nothing
            },
            MenuButtonAction::RandomizeSeed => MenuEffect::RandomizeSeed,
            MenuButtonAction::ContinueGame => {
                self.menu.world_active = true;
                self.menu.screen = MenuScreen::Gameplay;
                MenuEffect::ContinueWorld
            },
            MenuButtonAction::Play | MenuButtonAction::NewGame => {
                let target = match &self.seed {
                    Some(s) => Some(WorldSeed::from_seed_str(s.seed_text.as_str())),
                    None => None,
                };
                self.menu.world_active = true;
                self.menu.screen = MenuScreen::Gameplay;
                MenuEffect::StartWorld(target)
            },
            MenuButtonAction::ResumeGame => {
                self.menu.screen = MenuScreen::Gameplay;
                MenuEffect::ResumeGame
            },
            MenuButtonAction::OpenSettings => {
                self.menu.previous_screen = self.menu.screen;
                self.menu.screen = MenuScreen::Settings;
                MenuEffect::Nothing
            },
            MenuButtonAction::OpenDevSettings => {
                let dev_mode = match &self.dev {
                    Some(d) => d.dev_mode,
                    None => false,
                };
                if dev_mode {
                    self.menu.previous_screen = self.menu.screen;
                    self.menu.screen = MenuScreen::DevSettings;
                }
                MenuEffect::Nothing
            },
            MenuButtonAction::BackFromSettings | MenuButtonAction::BackFromDevSettings => {
                self.menu.screen = self.menu.previous_screen;
                MenuEffect::Nothing
            },
            MenuButtonAction::BackToMain => {
                self.menu.world_active = false;
                self.menu.screen = MenuScreen::Main;
                MenuEffect::LeaveWorld
            },
            MenuButtonAction::QuitGame => MenuEffect::Quit,
            MenuButtonAction::ToggleVsync => {
                self.settings.vsync = !self.settings.vsync;
                MenuEffect::ApplyPresentMode
            },
            MenuButtonAction::ToggleFullscreen => {
                self.settings.fullscreen = !self.settings.fullscreen;
                MenuEffect::ApplyWindowMode
            },
            MenuButtonAction::ToggleShadows => {
                self.settings.shadows = !self.settings.shadows;
                MenuEffect::Nothing
            },
            MenuButtonAction::ToggleDistanceFog => {
                self.settings.distance_fog = !self.settings.distance_fog;
                MenuEffect::Nothing
            },
            MenuButtonAction::ToggleDebugHud => {
                if let Some(p) = &mut self.profiler {
                    p.visible = !p.visible;
                }
                MenuEffect::Nothing
            },
            MenuButtonAction::CycleFpsCap | MenuButtonAction::StepFpsCapRight => {
                self.settings.step_fps_cap(1);
                MenuEffect::Nothing
            },
            MenuButtonAction::StepFpsCapLeft => {
                self.settings.step_fps_cap(-1);
                MenuEffect::Nothing
            },
            MenuButtonAction::CycleViewDistance | MenuButtonAction::StepViewDistanceRight => {
                self.settings.step_view_distance(1);
                MenuEffect::Nothing
            },
            MenuButtonAction::StepViewDistanceLeft => {
                self.settings.step_view_distance(-1);
                MenuEffect::Nothing
            },
            MenuButtonAction::ToggleGreedyMeshing | MenuButtonAction::ToggleDistanceLod
            | MenuButtonAction::ToggleBackfaceCulling | MenuButtonAction::ToggleMaxYSkip
            | MenuButtonAction::ToggleMeshBudget | MenuButtonAction::ToggleAsyncMeshing
            | MenuButtonAction::CycleLodThreshold | MenuButtonAction::CyclePregenMargin => {
                self.change_dev(action);
                MenuEffect::Nothing
            },
            MenuButtonAction::StartBenchmark => {
                let seed = WorldSeed::from_seed_str("BENCHMARK");
                self.menu.world_active = true;
                self.menu.screen = MenuScreen::Gameplay;
                MenuEffect::StartBenchmark(seed)
            },
            MenuButtonAction::BackFromBenchmark => {
                self.menu.screen = MenuScreen::Settings;
                MenuEffect::Nothing
            },
            MenuButtonAction::CycleGreedyMeshing | MenuButtonAction::StepGreedyMeshingLeft
            | MenuButtonAction::StepGreedyMeshingRight | MenuButtonAction::SlideGreedyMeshing
            | MenuButtonAction::CycleDistanceLod | MenuButtonAction::StepDistanceLodLeft
            | MenuButtonAction::StepDistanceLodRight | MenuButtonAction::SlideDistanceLod
            | MenuButtonAction::SlideFpsCap | MenuButtonAction::SlideViewDistance => MenuEffect::Nothing,
        }
    }
}

/// Opening the settings and going back returns to the screen the settings were opened
/// from, with everything else as it was.
pub proof fn lemma_settings_round_trip(c: MenuContext)
    ensures
        pressed(MenuButtonAction::BackFromSettings, pressed(MenuButtonAction::OpenSettings, c).0).0.menu.screen
            == c.menu.screen,
        pressed(MenuButtonAction::BackFromSettings, pressed(MenuButtonAction::OpenSettings, c).0).0.settings
            == c.settings,
{
}

/// Pressing a toggle twice leaves the menu state as it was.
pub proof fn lemma_toggle_twice(c: MenuContext, action: MenuButtonAction)
    requires
        action == MenuButtonAction::ToggleVsync || action == MenuButtonAction::ToggleFullscreen
            || action == MenuButtonAction::ToggleShadows || action == MenuButtonAction::ToggleDistanceFog
            || action == MenuButtonAction::ToggleDebugHud || action == MenuButtonAction::ToggleEditSeed
            || action == MenuButtonAction::ToggleGreedyMeshing || action == MenuButtonAction::ToggleDistanceLod
            || action == MenuButtonAction::ToggleBackfaceCulling || action == MenuButtonAction::ToggleMaxYSkip
            || action == MenuButtonAction::ToggleMeshBudget || action == MenuButtonAction::ToggleAsyncMeshing,
    ensures
        pressed(action, pressed(action, c).0).0 == c,
{
    let c1 = pressed(action, c).0;
    let c2 = pressed(action, c1).0;
    match c.dev {
        Some(d) => {
            assert(c2.dev == c.dev);
        },
        None => {},
    }
    match c.seed {
        Some(s) => {
            assert(c2.seed == c.seed);
        },
        None => {},
    }
    match c.profiler {
        Some(p) => {
            assert(c2.profiler == c.profiler);
        },
        None => {},
    }
}

/// Developer settings never change outside developer mode.
pub proof fn lemma_dev_settings_locked(c: MenuContext, action: MenuButtonAction)
    requires
        c.dev matches Some(d) && !d.dev_mode,
    ensures
        pressed(action, c).0.dev == c.dev,
{
}

/// What the menu keys ask of the game besides the menu state.
#[derive(Clone, Copy, Debug, PartialEq, Eq, Structural)]
pub enum MenuKeyEffect {
    Nothing,
    /// The benchmark flight stops; the cursor is freed.
    CancelBenchmark,
    /// The cursor is freed for the pause menu.
    FreeCursor,
    /// The cursor is captured again for play.
    CaptureCursor,
}

/// The menu state after this frame's menu keys. F3 shows or hides the profiler. While the
/// inventory screen is open it handles Escape itself. Otherwise Escape first ends editing
/// of the seed, then cancels a running benchmark flight (back to the settings), and
/// otherwise pauses the game, resumes it, or leaves a settings screen for the screen it
/// was opened from; on the main menu it does nothing.
pub open spec fn menu_keys(c: MenuContext, f3: bool, escape: bool, inventory_open: bool, benchmark_running: bool) -> (MenuContext, MenuKeyEffect) {
    let c1 = if f3 {
        MenuContext {
            profiler: match c.profiler {
                Some(p) => Some(ProfilerState { visible: !p.visible }),
                None => None,
            },
            ..c
        }
    } else {
        c
    };
    if inventory_open || !escape {
        (c1, MenuKeyEffect::Nothing)
    } else if c1.seed matches Some(st) && st.is_editing {
        (
            MenuContext {
                seed: match c1.seed {
                    Some(st) => Some(SeedInputState { is_editing: false, ..st }),
                    None => None,
                },
                ..c1
            },
            MenuKeyEffect::Nothing,
        )
    } else if benchmark_running {
        (with_menu(c1, MenuState { screen: MenuScreen::Settings, ..c1.menu }), MenuKeyEffect::CancelBenchmark)
    } else {
        match c1.menu.screen {
            MenuScreen::Gameplay => (with_menu(c1, MenuState { screen: MenuScreen::Pause, ..c1.menu }), MenuKeyEffect::FreeCursor),
            MenuScreen::Pause => (with_menu(c1, MenuState { screen: MenuScreen::Gameplay, ..c1.menu }), MenuKeyEffect::CaptureCursor),
            MenuScreen::Settings | MenuScreen::DevSettings => (
                with_menu(c1, MenuState { screen: c1.menu.previous_screen, ..c1.menu }),
                MenuKeyEffect::Nothing,
            ),
            MenuScreen::Main => (c1, MenuKeyEffect::Nothing),
        }
    }
}

impl MenuContext {
    /// Handles F3 and Escape; `benchmark_running` tells whether a benchmark flight started
    /// from the menu is under way.
    pub fn handle_menu_keys(&mut self, f3: bool, escape: bool, inventory_open: bool, benchmark_running: bool) -> (e: MenuKeyEffect)
        ensures
            (*final(self), e) == menu_keys(*old(self), f3, escape, inventory_open, benchmark_running),
    {
        if f3 {
            if let Some(p) = &mut self.profiler {
                p.visible = !p.visible;
            }
        }
        if inventory_open || !escape {
            return MenuKeyEffect::Nothing;
        }
        if let Some(st) = &mut self.seed {
            if st.is_editing {
                st.is_editing = false;
                return MenuKeyEffect::Nothing;
            }
        }
        if benchmark_running {
            self.menu.screen = MenuScreen::Settings;
            return MenuKeyEffect::CancelBenchmark;
        }
        match self.menu.screen {
            MenuScreen::Gameplay => {
                self.menu.screen = MenuScreen::Pause;
                MenuKeyEffect::FreeCursor
            },
            MenuScreen::Pause => {
                self.menu.screen = MenuScreen::Gameplay;
                MenuKeyEffect::CaptureCursor
            },
            MenuScreen::Settings | MenuScreen::DevSettings => {
                self.menu.screen = self.menu.previous_screen;
                MenuKeyEffect::Nothing
            },
            MenuScreen::Main => MenuKeyEffect::Nothing,
        }
    }
}

/// Escape toggles between play and the pause menu.
pub proof fn lemma_escape_toggles_pause(c: MenuContext)
    requires
        c.menu.screen == MenuScreen::Gameplay,
        !(c.seed matches Some(st) && st.is_editing),
    ensures
        menu_keys(menu_keys(c, false, true, false, false).0, false, true, false, false).0 == c,
{
    let c1 = menu_keys(c, false, true, false, false).0;
    assert(c1.menu.screen == MenuScreen::Pause);
    assert(c1.seed == c.seed);
}

} // verus!
