use vstd::prelude::*;
use vstd::string::*;

use crate::text::{decimal_i64, decimal_text, decimal_u64, signed_decimal_text};

verus! {

#[derive(Clone, Copy, PartialEq, Eq, Debug, Structural)]
pub enum MenuScreen {
    Main,
    Settings,
    DevSettings,
    Pause,
    /// In-game gameplay (no menu shown).
    Gameplay,
}

pub struct MenuState {
    pub screen: MenuScreen,
    pub previous_screen: MenuScreen,
    pub world_active: bool,
}

impl Default for MenuState {
    /// The game starts in the main menu.
    fn default() -> (r: MenuState)
        ensures
            r.screen == MenuScreen::Main,
            r.previous_screen == MenuScreen::Main,
            !r.world_active,
    {
        MenuState { screen: MenuScreen::Main, previous_screen: MenuScreen::Main, world_active: false }
    }
}

impl MenuState {
    /// A menu is open on every screen but gameplay.
    pub fn is_open(&self) -> (r: bool)
        ensures
            r == (self.screen != MenuScreen::Gameplay),
    {
        !matches!(self.screen, MenuScreen::Gameplay)
    }
}

/// Global toggle for the real-time engine profiler HUD.
#[derive(Clone, Copy, Debug, PartialEq, Eq, Structural)]
pub struct ProfilerState {
    pub visible: bool,
}

impl Default for ProfilerState {
    fn default() -> (r: ProfilerState)
        ensures
            !r.visible,
    {
        ProfilerState { visible: false }
    }
}

/// Engine optimization switches for benchmarking.
#[derive(Clone, Copy, Debug, PartialEq, Eq, Structural)]
pub struct DevSettings {
    pub dev_mode: bool,
    pub backface_culling: bool,
    pub shadows_enabled: bool,
    pub max_y_skip: bool,
    pub distance_fog: bool,
    pub mesh_budget: bool,
    pub async_meshing: bool,
    pub greedy_meshing: bool,
    pub distance_lod: bool,
    pub lod_threshold: i32,
    pub show_debug_hud: bool,
    pub pregen_margin: i32,
}

impl Default for DevSettings {
    /// Production defaults: developer mode and debug HUD off, every optimization on.
    fn default() -> (r: DevSettings)
        ensures
            !r.dev_mode,
            r.backface_culling,
            r.shadows_enabled,
            r.max_y_skip,
            r.distance_fog,
            r.mesh_budget,
            r.async_meshing,
            r.greedy_meshing,
            r.distance_lod,
            r.lod_threshold == 4,
            !r.show_debug_hud,
            r.pregen_margin == 2,
    {
        DevSettings {
            dev_mode: false,
            backface_culling: true,
            shadows_enabled: true,
            max_y_skip: true,
            distance_fog: true,
            mesh_budget: true,
            async_meshing: true,
            greedy_meshing: true,
            distance_lod: true,
            lod_threshold: 4,
            show_debug_hud: false,
            pregen_margin: 2,
        }
    }
}

/// Player-facing graphics options.
#[derive(Clone, Copy, Debug, PartialEq, Eq, Structural)]
pub struct GraphicsSettings {
    pub vsync: bool,
    pub fullscreen: bool,
    /// Linear atmospheric distance fog.
    pub distance_fog: bool,
    /// Directional light shadow maps.
    pub shadows: bool,
    /// `None` is uncapped.
    pub fps_cap: Option<u32>,
    /// Render distance in chunks.
    pub view_distance: i32,
}

impl Default for GraphicsSettings {
    fn default() -> (r: GraphicsSettings)
        ensures
            r.vsync,
            !r.fullscreen,
            r.distance_fog,
            r.shadows,
            r.fps_cap is None,
            r.view_distance == 16,
    {
        GraphicsSettings {
            vsync: true,
            fullscreen: false,
            distance_fog: true,
            shadows: true,
            fps_cap: None,
            view_distance: 16,
        }
    }
}

/// The frame-rate caps the limiter steps through, uncapped last.
pub open spec fn fps_cap_steps() -> Seq<Option<u32>> {
    seq![Some(30u32), Some(60u32), Some(75u32), Some(90u32), Some(120u32), Some(144u32), Some(165u32), Some(240u32), None]
}

/// The render distances (in chunks) the slider steps through.
pub open spec fn view_distance_steps() -> Seq<i32> {
    seq![4i32, 6, 8, 10, 12, 14, 16, 18, 20, 24, 28, 32, 40, 48, 56, 64]
}

/// The step of a frame-rate cap; caps that are not a step count as uncapped.
pub open spec fn fps_cap_index(cap: Option<u32>) -> int {
    if cap == Some(30u32) { 0 }
    else if cap == Some(60u32) { 1 }
    else if cap == Some(75u32) { 2 }
    else if cap == Some(90u32) { 3 }
    else if cap == Some(120u32) { 4 }
    else if cap == Some(144u32) { 5 }
    else if cap == Some(165u32) { 6 }
    else if cap == Some(240u32) { 7 }
    else { 8 }
}

pub open spec fn abs_int(v: int) -> int {
    if v < 0 { -v } else { v }
}

/// The index among the first `n` render-distance steps that is closest to `vd`, the first
/// one on ties, starting from step 6 at an unreachable distance.
pub open spec fn nearest_step(vd: int, n: int) -> (int, int)
    decreases n,
{
    if n <= 0 {
        (6, i32::MAX as int)
    } else {
        let (best, best_diff) = nearest_step(vd, n - 1);
        let diff = abs_int(view_distance_steps()[n - 1] - vd);
        if diff < best_diff { (n - 1, diff) } else { (best, best_diff) }
    }
}

/// The step of a render distance: its own step, or the closest one.
pub open spec fn view_distance_index(vd: int) -> int {
    if exists|i: int| 0 <= i < 16 && #[trigger] view_distance_steps()[i] == vd {
        choose|i: int| 0 <= i < 16 && #[trigger] view_distance_steps()[i] == vd
    } else {
        nearest_step(vd, 16).0
    }
}

pub open spec fn clamp_int(v: int, lo: int, hi: int) -> int {
    if v < lo { lo } else if v > hi { hi } else { v }
}

pub open spec fn fps_cap_label_text(cap: Option<u32>) -> Seq<char> {
    match cap {
        None => "FPS Limit: Uncapped (Max FPS)"@,
        Some(c) => "FPS Limit: "@ + decimal_text(c as nat) + " FPS"@,
    }
}

pub open spec fn view_distance_label_text(vd: int) -> Seq<char> {
    "Render Distance: "@ + signed_decimal_text(vd) + " Chunks ("@ + signed_decimal_text(vd * 16) + "m)"@
}

fn fps_cap_at(i: usize) -> (r: Option<u32>)
    requires
        i < 9,
    ensures
        r == fps_cap_steps()[i as int],
{
    match i {
        0 => Some(30),
        1 => Some(60),
        2 => Some(75),
        3 => Some(90),
        4 => Some(120),
        5 => Some(144),
        6 => Some(165),
        7 => Some(240),
        _ => None,
    }
}

fn view_distance_at(i: usize) -> (r: i32)
    requires
        i < 16,
    ensures
        r == view_distance_steps()[i as int],
{
    match i {
        0 => 4,
        1 => 6,
        2 => 8,
        3 => 10,
        4 => 12,
        5 => 14,
        6 => 16,
        7 => 18,
        8 => 20,
        9 => 24,
        10 => 28,
        11 => 32,
        12 => 40,
        13 => 48,
        14 => 56,
        _ => 64,
    }
}

impl GraphicsSettings {
    /// The slider step of the frame-rate cap (uncapped is the last step).
    pub fn fps_cap_step_index(&self) -> (r: usize)
        ensures
            r == fps_cap_index(self.fps_cap),
            r < 9,
    {
        let mut i: usize = 0;
        while i < 9
            invariant
                i <= 9,
                forall|j: int| 0 <= j < i ==> fps_cap_steps()[j] != self.fps_cap,
            decreases 9 - i,
        {
            let step = fps_cap_at(i);
            let same = match (step, self.fps_cap) {
                (Some(a), Some(b)) => a == b,
                (None, None) => true,
                _ => false,
            };
            if same {
                return i;
            }
            i += 1;
        }
        proof {
            assert(fps_cap_steps()[0] != self.fps_cap);
            assert(fps_cap_steps()[1] != self.fps_cap);
            assert(fps_cap_steps()[2] != self.fps_cap);
            assert(fps_cap_steps()[3] != self.fps_cap);
            assert(fps_cap_steps()[4] != self.fps_cap);
            assert(fps_cap_steps()[5] != self.fps_cap);
            assert(fps_cap_steps()[6] != self.fps_cap);
            assert(fps_cap_steps()[7] != self.fps_cap);
        }
        8
    }

    /// Moves the frame-rate cap `delta` steps along the slider, stopping at its ends.
    pub fn step_fps_cap(&mut self, delta: i32)
        requires
            delta <= i32::MAX - 8,
        ensures
            final(self).fps_cap == fps_cap_steps()[clamp_int(fps_cap_index(old(self).fps_cap) + delta, 0, 8)],
            final(self).view_distance == old(self).view_distance,
            final(self).vsync == old(self).vsync && final(self).fullscreen == old(self).fullscreen,
            final(self).distance_fog == old(self).distance_fog && final(self).shadows == old(self).shadows,
    {
        let cur_idx = self.fps_cap_step_index() as i32;
        let sum = cur_idx + delta;
        let new_idx: usize = if sum < 0 { 0 } else if sum > 8 { 8 } else { sum as usize };
        self.fps_cap = fps_cap_at(new_idx);
    }

    /// Sets the frame-rate cap to a slider step, clamped to the last step.
    pub fn set_fps_cap_step(&mut self, idx: usize)
        ensures
            final(self).fps_cap == fps_cap_steps()[if idx > 8 { 8 } else { idx as int }],
            final(self).view_distance == old(self).view_distance,
            final(self).vsync == old(self).vsync && final(self).fullscreen == old(self).fullscreen,
            final(self).distance_fog == old(self).distance_fog && final(self).shadows == old(self).shadows,
    {
        let i = if idx > 8 { 8 } else { idx };
        self.fps_cap = fps_cap_at(i);
    }

    /// The label of the frame-rate cap.
    pub fn fps_cap_label(&self) -> (r: String)
        ensures
            r@ == fps_cap_label_text(self.fps_cap),
    {
        match self.fps_cap {
            None => {
                proof {
                    reveal_strlit("FPS Limit: Uncapped (Max FPS)");
                }
                String::from_str("FPS Limit: Uncapped (Max FPS)")
            },
            Some(cap) => {
                let s = String::from_str("FPS Limit: ");
                let s = s.concat(decimal_u64(cap as u64).as_str());
                s.concat(" FPS")
            },
        }
    }

    /// The slider step of the render distance: its own step, or the closest step (the first
    /// on ties).
    pub fn view_distance_step_index(&self) -> (r: usize)
        requires
            self.view_distance >= 64 - i32::MAX,
        ensures
            r == view_distance_index(self.view_distance as int),
            r < 16,
    {
        let mut i: usize = 0;
        while i < 16
            invariant
                i <= 16,
                forall|j: int| 0 <= j < i ==> view_distance_steps()[j] != self.view_distance,
            decreases 16 - i,
        {
            if view_distance_at(i) == self.view_distance {
                proof {
                    lemma_view_steps_distinct(i as int);
                }
                return i;
            }
            i += 1;
        }
        let mut best_idx: usize = 6;
        let mut best_diff: i32 = i32::MAX;
        let mut k: usize = 0;
        while k < 16
            invariant
                k <= 16,
                self.view_distance >= 64 - i32::MAX,
                (best_idx as int, best_diff as int) == nearest_step(self.view_distance as int, k as int),
                best_idx < 16,
            decreases 16 - k,
        {
            let d = view_distance_at(k);
            let raw = d - self.view_distance;
            let diff = if raw < 0 { -raw } else { raw };
            if diff < best_diff {
                best_diff = diff;
                best_idx = k;
            }
            k += 1;
        }
        best_idx
    }

    /// Moves the render distance `delta` steps along the slider, stopping at its ends.
    pub fn step_view_distance(&mut self, delta: i32)
        requires
            old(self).view_distance >= 64 - i32::MAX,
            delta <= i32::MAX - 15,
        ensures
            final(self).view_distance == view_distance_steps()[clamp_int(view_distance_index(old(self).view_distance as int) + delta, 0, 15)],
            final(self).fps_cap == old(self).fps_cap,
            final(self).vsync == old(self).vsync && final(self).fullscreen == old(self).fullscreen,
            final(self).distance_fog == old(self).distance_fog && final(self).shadows == old(self).shadows,
    {
        let cur_idx = self.view_distance_step_index() as i32;
        let sum = cur_idx + delta;
        let new_idx: usize = if sum < 0 { 0 } else if sum > 15 { 15 } else { sum as usize };
        self.view_distance = view_distance_at(new_idx);
    }

    /// Sets the render distance to a slider step, clamped to the last step.
    pub fn set_view_distance_step(&mut self, idx: usize)
        ensures
            final(self).view_distance == view_distance_steps()[if idx > 15 { 15 } else { idx as int }],
            final(self).fps_cap == old(self).fps_cap,
            final(self).vsync == old(self).vsync && final(self).fullscreen == old(self).fullscreen,
            final(self).distance_fog == old(self).distance_fog && final(self).shadows == old(self).shadows,
    {
        let i = if idx > 15 { 15 } else { idx };
        self.view_distance = view_distance_at(i);
    }

    /// The label of the render distance, in chunks and metres.
    pub fn view_distance_label(&self) -> (r: String)
        requires
            i32::MIN <= self.view_distance * 16 <= i32::MAX,
        ensures
            r@ == view_distance_label_text(self.view_distance as int),
    {
        let s = String::from_str("Render Distance: ");
        let s = s.concat(decimal_i64(self.view_distance as i64).as_str());
        let s = s.concat(" Chunks (");
        let s = s.concat(decimal_i64((self.view_distance * 16) as i64).as_str());
        s.concat("m)")
    }
}

proof fn lemma_view_steps_distinct(i: int)
    requires
        0 <= i < 16,
    ensures
        forall|j: int| 0 <= j < 16 && view_distance_steps()[j] == view_distance_steps()[i] ==> j == i,
{
}

/// The frame-rate steps and render-distance steps are strictly increasing, so every step
/// index maps back to itself.
pub proof fn lemma_step_index_roundtrip(i: int, j: int)
    requires
        0 <= i < 9,
        0 <= j < 16,
    ensures
        fps_cap_index(fps_cap_steps()[i]) == i,
        view_distance_index(view_distance_steps()[j] as int) == j,
{
    assert(view_distance_steps()[j] == view_distance_steps()[j]);
    lemma_view_steps_distinct(j);
}

/// The text the player types as a world seed.
pub struct SeedInputState {
    pub seed_text: String,
    pub is_editing: bool,
}

impl Default for SeedInputState {
    fn default() -> (r: SeedInputState)
        ensures
            r.seed_text@.len() == 0,
            !r.is_editing,
    {
        SeedInputState { seed_text: String::new(), is_editing: false }
    }
}

/// Keyboard keys the menus read.
#[derive(Clone, Copy, PartialEq, Eq, Debug, Hash, Structural)]
pub enum KeyCode {
    KeyA,
    KeyB,
    KeyC,
    KeyD,
    KeyE,
    KeyF,
    KeyG,
    KeyH,
    KeyI,
    KeyJ,
    KeyK,
    KeyL,
    KeyM,
    KeyN,
    KeyO,
    KeyP,
    KeyQ,
    KeyR,
    KeyS,
    KeyT,
    KeyU,
    KeyV,
    KeyW,
    KeyX,
    KeyY,
    KeyZ,
    Digit0,
    Digit1,
    Digit2,
    Digit3,
    Digit4,
    Digit5,
    Digit6,
    Digit7,
    Digit8,
    Digit9,
    Numpad0,
    Numpad1,
    Numpad2,
    Numpad3,
    Numpad4,
    Numpad5,
    Numpad6,
    Numpad7,
    Numpad8,
    Numpad9,
    Minus,
    Space,
    Enter,
    NumpadEnter,
    Escape,
    Backspace,
    ShiftLeft,
    ShiftRight,
    ControlLeft,
    Tab,
    F3,
}

/// The character a key types, with Shift held or not; keys that type nothing give `None`.
pub open spec fn key_char(key: KeyCode, shift: bool) -> Option<char> {
    match key {
        KeyCode::KeyA => Some(if shift { 'A' } else { 'a' }),
        KeyCode::KeyB => Some(if shift { 'B' } else { 'b' }),
        KeyCode::KeyC => Some(if shift { 'C' } else { 'c' }),
        KeyCode::KeyD => Some(if shift { 'D' } else { 'd' }),
        KeyCode::KeyE => Some(if shift { 'E' } else { 'e' }),
        KeyCode::KeyF => Some(if shift { 'F' } else { 'f' }),
        KeyCode::KeyG => Some(if shift { 'G' } else { 'g' }),
        KeyCode::KeyH => Some(if shift { 'H' } else { 'h' }),
        KeyCode::KeyI => Some(if shift { 'I' } else { 'i' }),
        KeyCode::KeyJ => Some(if shift { 'J' } else { 'j' }),
        KeyCode::KeyK => Some(if shift { 'K' } else { 'k' }),
        KeyCode::KeyL => Some(if shift { 'L' } else { 'l' }),
        KeyCode::KeyM => Some(if shift { 'M' } else { 'm' }),
        KeyCode::KeyN => Some(if shift { 'N' } else { 'n' }),
        KeyCode::KeyO => Some(if shift { 'O' } else { 'o' }),
        KeyCode::KeyP => Some(if shift { 'P' } else { 'p' }),
        KeyCode::KeyQ => Some(if shift { 'Q' } else { 'q' }),
        KeyCode::KeyR => Some(if shift { 'R' } else { 'r' }),
        KeyCode::KeyS => Some(if shift { 'S' } else { 's' }),
        KeyCode::KeyT => Some(if shift { 'T' } else { 't' }),
        KeyCode::KeyU => Some(if shift { 'U' } else { 'u' }),
        KeyCode::KeyV => Some(if shift { 'V' } else { 'v' }),
        KeyCode::KeyW => Some(if shift { 'W' } else { 'w' }),
        KeyCode::KeyX => Some(if shift { 'X' } else { 'x' }),
        KeyCode::KeyY => Some(if shift { 'Y' } else { 'y' }),
        KeyCode::KeyZ => Some(if shift { 'Z' } else { 'z' }),
        KeyCode::Digit0 => Some(if shift { ')' } else { '0' }),
        KeyCode::Digit1 => Some(if shift { '!' } else { '1' }),
        KeyCode::Digit2 => Some(if shift { '@' } else { '2' }),
        KeyCode::Digit3 => Some(if shift { '#' } else { '3' }),
        KeyCode::Digit4 => Some(if shift { '$' } else { '4' }),
        KeyCode::Digit5 => Some(if shift { '%' } else { '5' }),
        KeyCode::Digit6 => Some(if shift { '^' } else { '6' }),
        KeyCode::Digit7 => Some(if shift { '&' } else { '7' }),
        KeyCode::Digit8 => Some(if shift { '*' } else { '8' }),
        KeyCode::Digit9 => Some(if shift { '(' } else { '9' }),
        KeyCode::Numpad0 => Some('0'),
        KeyCode::Numpad1 => Some('1'),
        KeyCode::Numpad2 => Some('2'),
        KeyCode::Numpad3 => Some('3'),
        KeyCode::Numpad4 => Some('4'),
        KeyCode::Numpad5 => Some('5'),
        KeyCode::Numpad6 => Some('6'),
        KeyCode::Numpad7 => Some('7'),
        KeyCode::Numpad8 => Some('8'),
        KeyCode::Numpad9 => Some('9'),
        KeyCode::Minus => Some(if shift { '_' } else { '-' }),
        KeyCode::Space => Some(' '),
        _ => None,
    }
}

/// Converts a key press into the character it types, supporting the Shift modifier.
pub fn keycode_to_char(key: KeyCode, shift: bool) -> (r: Option<char>)
    ensures
        r == key_char(key, shift),
{
    match key {
        KeyCode::KeyA => Some(if shift { 'A' } else { 'a' }),
        KeyCode::KeyB => Some(if shift { 'B' } else { 'b' }),
        KeyCode::KeyC => Some(if shift { 'C' } else { 'c' }),
        KeyCode::KeyD => Some(if shift { 'D' } else { 'd' }),
        KeyCode::KeyE => Some(if shift { 'E' } else { 'e' }),
        KeyCode::KeyF => Some(if shift { 'F' } else { 'f' }),
        KeyCode::KeyG => Some(if shift { 'G' } else { 'g' }),
        KeyCode::KeyH => Some(if shift { 'H' } else { 'h' }),
        KeyCode::KeyI => Some(if shift { 'I' } else { 'i' }),
        KeyCode::KeyJ => Some(if shift { 'J' } else { 'j' }),
        KeyCode::KeyK => Some(if shift { 'K' } else { 'k' }),
        KeyCode::KeyL => Some(if shift { 'L' } else { 'l' }),
        KeyCode::KeyM => Some(if shift { 'M' } else { 'm' }),
        KeyCode::KeyN => Some(if shift { 'N' } else { 'n' }),
        KeyCode::KeyO => Some(if shift { 'O' } else { 'o' }),
        KeyCode::KeyP => Some(if shift { 'P' } else { 'p' }),
        KeyCode::KeyQ => Some(if shift { 'Q' } else { 'q' }),
        KeyCode::KeyR => Some(if shift { 'R' } else { 'r' }),
        KeyCode::KeyS => Some(if shift { 'S' } else { 's' }),
        KeyCode::KeyT => Some(if shift { 'T' } else { 't' }),
        KeyCode::KeyU => Some(if shift { 'U' } else { 'u' }),
        KeyCode::KeyV => Some(if shift { 'V' } else { 'v' }),
        KeyCode::KeyW => Some(if shift { 'W' } else { 'w' }),
        KeyCode::KeyX => Some(if shift { 'X' } else { 'x' }),
        KeyCode::KeyY => Some(if shift { 'Y' } else { 'y' }),
        KeyCode::KeyZ => Some(if shift { 'Z' } else { 'z' }),
        KeyCode::Digit0 => Some(if shift { ')' } else { '0' }),
        KeyCode::Digit1 => Some(if shift { '!' } else { '1' }),
        KeyCode::Digit2 => Some(if shift { '@' } else { '2' }),
        KeyCode::Digit3 => Some(if shift { '#' } else { '3' }),
        KeyCode::Digit4 => Some(if shift { '$' } else { '4' }),
        KeyCode::Digit5 => Some(if shift { '%' } else { '5' }),
        KeyCode::Digit6 => Some(if shift { '^' } else { '6' }),
        KeyCode::Digit7 => Some(if shift { '&' } else { '7' }),
        KeyCode::Digit8 => Some(if shift { '*' } else { '8' }),
        KeyCode::Digit9 => Some(if shift { '(' } else { '9' }),
        KeyCode::Numpad0 => Some('0'),
        KeyCode::Numpad1 => Some('1'),
        KeyCode::Numpad2 => Some('2'),
        KeyCode::Numpad3 => Some('3'),
        KeyCode::Numpad4 => Some('4'),
        KeyCode::Numpad5 => Some('5'),
        KeyCode::Numpad6 => Some('6'),
        KeyCode::Numpad7 => Some('7'),
        KeyCode::Numpad8 => Some('8'),
        KeyCode::Numpad9 => Some('9'),
        KeyCode::Minus => Some(if shift { '_' } else { '-' }),
        KeyCode::Space => Some(' '),
        _ => None,
    }
}

/// Every menu button and setting control.
#[derive(Clone, Copy, PartialEq, Eq, Debug, Structural)]
pub enum MenuButtonAction {
    ToggleVsync,
    ToggleFullscreen,
    ToggleShadows,
    ToggleDistanceFog,
    ToggleDebugHud,
    CycleFpsCap,
    StepFpsCapLeft,
    StepFpsCapRight,
    SlideFpsCap,
    CycleViewDistance,
    StepViewDistanceLeft,
    StepViewDistanceRight,
    SlideViewDistance,
    CycleGreedyMeshing,
    StepGreedyMeshingLeft,
    StepGreedyMeshingRight,
    SlideGreedyMeshing,
    ToggleGreedyMeshing,
    CycleDistanceLod,
    StepDistanceLodLeft,
    StepDistanceLodRight,
    SlideDistanceLod,
    ToggleDistanceLod,
    StartBenchmark,
    BackFromBenchmark,
    BackFromSettings,
    Play,
    NewGame,
    ContinueGame,
    ResumeGame,
    OpenSettings,
    BackToMain,
    QuitGame,
    ToggleEditSeed,
    RandomizeSeed,
    ToggleBackfaceCulling,
    ToggleMaxYSkip,
    ToggleMeshBudget,
    ToggleAsyncMeshing,
    CycleLodThreshold,
    CyclePregenMargin,
    OpenDevSettings,
    BackFromDevSettings,
}

/// The texts of an option's tooltip.
pub struct OptionText {
    pub header: Seq<char>,
    pub title: Seq<char>,
    pub description: Seq<char>,
    pub impact: Seq<char>,
}

/// The tooltip texts of every action.
pub open spec fn option_text(action: MenuButtonAction) -> OptionText {
    match action {
        MenuButtonAction::ToggleVsync => OptionText {
            header: "DISPLAY & SYNC"@,
            title: "Vertical Synchronization (VSync)"@,
            description: "Synchronizes the game's rendered frame rate with your monitor's physical refresh rate to prevent screen tearing."@,
            impact: "- ON: Smooth frame pacing, zero screen tearing.\n- OFF: Lowest input latency, uncapped frame rate."@,
        },
        MenuButtonAction::ToggleFullscreen => OptionText {
            header: "DISPLAY MODE"@,
            title: "Display Mode (Fullscreen / Windowed)"@,
            description: "Switches between Borderless Fullscreen (native monitor resolution) and Windowed mode (1280x720)."@,
            impact: "- Fullscreen: Immersive edge-to-edge display.\n- Windowed: Convenient multitasking and window positioning."@,
        },
        MenuButtonAction::ToggleShadows => OptionText {
            header: "LIGHTING & SHADOWS"@,
            title: "Dynamic Directional Shadows"@,
            description: "Toggles real-time directional sunlight shadow maps across the voxel terrain."@,
            impact: "- ON: Realistic depth, tree canopy shadows, and terrain self-shadowing.\n- OFF: Skips shadow passes, yielding higher FPS on integrated graphics."@,
        },
        MenuButtonAction::ToggleDistanceFog => OptionText {
            header: "ATMOSPHERE & BLENDING"@,
            title: "Atmospheric Distance Fog"@,
            description: "Applies linear atmospheric distance fog that gracefully blends distant terrain into the sky before chunk boundaries."@,
            impact: "- ON: Smooth, immersive horizon that hides chunk loading boundaries.\n- OFF: Sharp cutoff edge at the boundary of loaded chunks."@,
        },
        MenuButtonAction::ToggleDebugHud => OptionText {
            header: "DIAGNOSTICS & PROFILING"@,
            title: "Engine Profiler Overlay (F3)"@,
            description: "Displays real-time FPS, frame pacing, 1% low, memory footprint, GPU VRAM, active chunks, triangle counts, and coordinates."@,
            impact: "- Essential for inspecting performance metrics.\n- Can also be toggled anytime in-game using the F3 key."@,
        },
        MenuButtonAction::CycleFpsCap | MenuButtonAction::StepFpsCapLeft | MenuButtonAction::StepFpsCapRight | MenuButtonAction::SlideFpsCap => OptionText {
            header: "PERFORMANCE & THERMALS"@,
            title: "Frame Rate Limiter"@,
            description: "Limits maximum frames rendered per second (30 to 240 FPS, or Uncapped) using microsecond sleep pacing."@,
            impact: "- Capping FPS significantly lowers GPU temperature, power consumption, and fan noise."@,
        },
        MenuButtonAction::CycleViewDistance | MenuButtonAction::StepViewDistanceLeft | MenuButtonAction::StepViewDistanceRight | MenuButtonAction::SlideViewDistance => OptionText {
            header: "WORLD GENERATION & RENDER RADIUS"@,
            title: "Render Distance"@,
            description: "Sets the horizontal radius of chunks loaded and rendered around the player (4 to 64 chunks = 64m to 1024m)."@,
            impact: "- 16 Chunks (256m): Recommended balance of horizon view and performance.\n- 32-64 Chunks: Sweeping vistas; higher RAM/VRAM load."@,
        },
        MenuButtonAction::CycleGreedyMeshing | MenuButtonAction::StepGreedyMeshingLeft | MenuButtonAction::StepGreedyMeshingRight | MenuButtonAction::SlideGreedyMeshing | MenuButtonAction::ToggleGreedyMeshing => OptionText {
            header: "GEOMETRY OPTIMIZATION"@,
            title: "Greedy Quad Meshing"@,
            description: "Merges adjacent coplanar block faces into larger single quads beyond the specified chunk threshold (or across all chunks)."@,
            impact: "- Reduces chunk vertex and triangle counts by up to 75%.\n- OFF: Emits separate 1x1 quads for every exposed block face."@,
        },
        MenuButtonAction::CycleDistanceLod | MenuButtonAction::StepDistanceLodLeft | MenuButtonAction::StepDistanceLodRight | MenuButtonAction::SlideDistanceLod | MenuButtonAction::ToggleDistanceLod => OptionText {
            header: "DISTANCE LEVEL OF DETAIL (LOD)"@,
            title: "Distant Sloped Heightfield LOD"@,
            description: "Replaces distant stepped voxel stairs on mountain slopes with smooth continuous angled surfaces and groups exposed ore veins into stone."@,
            impact: "- ON (2-32 Chunks): Cuts distant geometry by up to 90%, stabilizing 60+ FPS.\n- OFF: Preserves 1x1 voxel blocks all the way to the horizon."@,
        },
        MenuButtonAction::StartBenchmark => OptionText {
            header: "AUTOMATED BENCHMARK"@,
            title: "Run Hardware Benchmark"@,
            description: "Generates a standardized world on seed 'BENCHMARK' and executes a 1,000m high-speed camera flight across diverse terrain to evaluate performance under your active graphics settings."@,
            impact: "- Measures average FPS, 1% low, frametimes, RAM, VRAM, and provides optimization advice."@,
        },
        MenuButtonAction::BackFromBenchmark => OptionText {
            header: "NAVIGATION"@,
            title: "Change Graphics Settings"@,
            description: "Return to the Graphics Settings menu to fine-tune render distance, LOD, or shadows and run another test."@,
            impact: "- Quickly iterate and verify frame rate improvements."@,
        },
        MenuButtonAction::BackFromSettings => OptionText {
            header: "NAVIGATION"@,
            title: "Back / Done"@,
            description: "Save configuration changes and return to the previous menu screen."@,
            impact: "- All graphical adjustments apply immediately in real-time."@,
        },
        MenuButtonAction::Play | MenuButtonAction::NewGame => OptionText {
            header: "WORLD GENERATION"@,
            title: "Start New World"@,
            description: "Generate and enter a brand new voxel world using the specified or randomized seed."@,
            impact: "- Spawns on safe dry land with clean procedural terrain."@,
        },
        MenuButtonAction::ContinueGame => OptionText {
            header: "SAVE GAME"@,
            title: "Continue Saved World"@,
            description: "Resume your journey in the most recently played procedural world with your saved position and inventory."@,
            impact: "- Instantly restores terrain modifications and player state from disk."@,
        },
        MenuButtonAction::ResumeGame => OptionText {
            header: "GAMEPLAY"@,
            title: "Resume Game"@,
            description: "Unpause and return to the active game world."@,
            impact: "- Restores mouse capture and camera controls."@,
        },
        MenuButtonAction::OpenSettings => OptionText {
            header: "CONFIGURATION"@,
            title: "Graphics Settings"@,
            description: "Configure display mode, VSync, frame rate limit, shadows, fog, and view distance."@,
            impact: "- Adjust visuals and performance for your hardware."@,
        },
        MenuButtonAction::BackToMain => OptionText {
            header: "NAVIGATION"@,
            title: "Return to Main Menu"@,
            description: "Save player data and chunk modifications to disk, then return to the main title screen."@,
            impact: "- World progress is safely saved."@,
        },
        MenuButtonAction::QuitGame => OptionText {
            header: "NAVIGATION"@,
            title: "Quit Game"@,
            description: "Close MineRust and return to desktop."@,
            impact: "- All world modifications and player inventory are saved."@,
        },
        MenuButtonAction::ToggleEditSeed => OptionText {
            header: "WORLD GENERATION"@,
            title: "Custom World Seed Input"@,
            description: "Type any alphanumeric string or number to generate a unique procedural world."@,
            impact: "- Supports full alphanumeric seed strings."@,
        },
        MenuButtonAction::RandomizeSeed => OptionText {
            header: "WORLD GENERATION"@,
            title: "Randomize World Seed"@,
            description: "Generates a fresh random 64-bit seed using high-resolution entropy."@,
            impact: "- Each click generates a brand new terrain layout."@,
        },
        MenuButtonAction::ToggleBackfaceCulling => OptionText {
            header: "GPU PIPELINE BENCHMARK"@,
            title: "Backface Culling"@,
            description: "Discards triangles facing away from the camera in the GPU rasterizer. Solid voxel blocks never expose interior faces."@,
            impact: "- ON: Cuts rasterizer fragment load and fill-rate by ~50%.\n- OFF: Forces GPU to rasterize front and back faces of every quad."@,
        },
        MenuButtonAction::ToggleMaxYSkip => OptionText {
            header: "MESHING BENCHMARK"@,
            title: "Mesher max_y Air Skipping"@,
            description: "Tracks the highest solid block per chunk during generation, allowing the mesher to skip empty sky layers up to Y=384."@,
            impact: "- ON: ~2x faster chunk meshing, preventing CPU stutters.\n- OFF: Scans all 384 vertical Y layers even if 250 are empty sky."@,
        },
        MenuButtonAction::ToggleMeshBudget => OptionText {
            header: "FRAME PACING BENCHMARK"@,
            title: "Frame Mesh Upload Budget"@,
            description: "Limits GPU buffer uploads of newly meshed chunks to a maximum of 6 chunks per frame."@,
            impact: "- ON: Smooth, consistent frame times when flying rapidly.\n- OFF: Uploads all meshes simultaneously, causing micro-stutters."@,
        },
        MenuButtonAction::ToggleAsyncMeshing => OptionText {
            header: "MULTITHREADING BENCHMARK"@,
            title: "Async Multi-Threaded Meshing"@,
            description: "Dispatches chunk greedy meshing computations to background worker threads across all available CPU cores."@,
            impact: "- ON: Zero main-thread lag (0ms) during terrain meshing.\n- OFF: Synchronous meshing on the render thread, causing frame drops."@,
        },
        MenuButtonAction::CycleLodThreshold => OptionText {
            header: "LOD DISTANCE TUNING"@,
            title: "LOD Distance Threshold"@,
            description: "Distance in chunks (2, 4, 6, 8 chunks = 32m to 128m) at which chunk geometry transitions to simplified Level 2 LOD."@,
            impact: "- Shorter distance = higher frame rates at the cost of closer visual simplification.\n- Longer distance = full detail preserved further out."@,
        },
        MenuButtonAction::CyclePregenMargin => OptionText {
            header: "MEMORY & STREAMING BENCHMARK"@,
            title: "Lookahead Pregen Buffer"@,
            description: "Pre-calculates chunk voxel data in RAM just outside the camera's visual view distance (0 to 4 chunks = 0m to 64m margin)."@,
            impact: "- Eliminates pop-in stutter when walking forward.\n- 0 Chunks: Disabled (benchmark raw generation latency).\n- 2-4 Chunks: Seamless walking buffer."@,
        },
        MenuButtonAction::OpenDevSettings => OptionText {
            header: "BENCHMARK TOOLS"@,
            title: "Dev & Benchmark Settings"@,
            description: "Toggle internal engine optimizations to measure performance impacts."@,
            impact: "- Available only in Developer mode."@,
        },
        MenuButtonAction::BackFromDevSettings => OptionText {
            header: "NAVIGATION"@,
            title: "Return / Done"@,
            description: "Save configuration changes and return to the previous menu screen."@,
            impact: "- All graphical and benchmark adjustments apply immediately in real-time."@,
        },
    }
}

/// Technical description and performance impact of a setting or button.
#[derive(Clone, Copy, Debug)]
pub struct OptionDescription {
    pub header: &'static str,
    pub title: &'static str,
    pub description: &'static str,
    pub impact: &'static str,
}

fn option_description_of(action: MenuButtonAction) -> (r: OptionDescription)
    ensures
        r.header@ == option_text(action).header,
        r.title@ == option_text(action).title,
        r.description@ == option_text(action).description,
        r.impact@ == option_text(action).impact,
{
    match action {
        MenuButtonAction::ToggleVsync => OptionDescription {
            header: "DISPLAY & SYNC",
            title: "Vertical Synchronization (VSync)",
            description: "Synchronizes the game's rendered frame rate with your monitor's physical refresh rate to prevent screen tearing.",
            impact: "- ON: Smooth frame pacing, zero screen tearing.\n- OFF: Lowest input latency, uncapped frame rate.",
        },
        MenuButtonAction::ToggleFullscreen => OptionDescription {
            header: "DISPLAY MODE",
            title: "Display Mode (Fullscreen / Windowed)",
            description: "Switches between Borderless Fullscreen (native monitor resolution) and Windowed mode (1280x720).",
            impact: "- Fullscreen: Immersive edge-to-edge display.\n- Windowed: Convenient multitasking and window positioning.",
        },
        MenuButtonAction::ToggleShadows => OptionDescription {
            header: "LIGHTING & SHADOWS",
            title: "Dynamic Directional Shadows",
            description: "Toggles real-time directional sunlight shadow maps across the voxel terrain.",
            impact: "- ON: Realistic depth, tree canopy shadows, and terrain self-shadowing.\n- OFF: Skips shadow passes, yielding higher FPS on integrated graphics.",
        },
        MenuButtonAction::ToggleDistanceFog => OptionDescription {
            header: "ATMOSPHERE & BLENDING",
            title: "Atmospheric Distance Fog",
            description: "Applies linear atmospheric distance fog that gracefully blends distant terrain into the sky before chunk boundaries.",
            impact: "- ON: Smooth, immersive horizon that hides chunk loading boundaries.\n- OFF: Sharp cutoff edge at the boundary of loaded chunks.",
        },
        MenuButtonAction::ToggleDebugHud => OptionDescription {
            header: "DIAGNOSTICS & PROFILING",
            title: "Engine Profiler Overlay (F3)",
            description: "Displays real-time FPS, frame pacing, 1% low, memory footprint, GPU VRAM, active chunks, triangle counts, and coordinates.",
            impact: "- Essential for inspecting performance metrics.\n- Can also be toggled anytime in-game using the F3 key.",
        },
        MenuButtonAction::CycleFpsCap | MenuButtonAction::StepFpsCapLeft | MenuButtonAction::StepFpsCapRight | MenuButtonAction::SlideFpsCap => OptionDescription {
            header: "PERFORMANCE & THERMALS",
            title: "Frame Rate Limiter",
            description: "Limits maximum frames rendered per second (30 to 240 FPS, or Uncapped) using microsecond sleep pacing.",
            impact: "- Capping FPS significantly lowers GPU temperature, power consumption, and fan noise.",
        },
        MenuButtonAction::CycleViewDistance | MenuButtonAction::StepViewDistanceLeft | MenuButtonAction::StepViewDistanceRight | MenuButtonAction::SlideViewDistance => OptionDescription {
            header: "WORLD GENERATION & RENDER RADIUS",
            title: "Render Distance",
            description: "Sets the horizontal radius of chunks loaded and rendered around the player (4 to 64 chunks = 64m to 1024m).",
            impact: "- 16 Chunks (256m): Recommended balance of horizon view and performance.\n- 32-64 Chunks: Sweeping vistas; higher RAM/VRAM load.",
        },
        MenuButtonAction::CycleGreedyMeshing | MenuButtonAction::StepGreedyMeshingLeft | MenuButtonAction::StepGreedyMeshingRight | MenuButtonAction::SlideGreedyMeshing | MenuButtonAction::ToggleGreedyMeshing => OptionDescription {
            header: "GEOMETRY OPTIMIZATION",
            title: "Greedy Quad Meshing",
            description: "Merges adjacent coplanar block faces into larger single quads beyond the specified chunk threshold (or across all chunks).",
            impact: "- Reduces chunk vertex and triangle counts by up to 75%.\n- OFF: Emits separate 1x1 quads for every exposed block face.",
        },
        MenuButtonAction::CycleDistanceLod | MenuButtonAction::StepDistanceLodLeft | MenuButtonAction::StepDistanceLodRight | MenuButtonAction::SlideDistanceLod | MenuButtonAction::ToggleDistanceLod => OptionDescription {
            header: "DISTANCE LEVEL OF DETAIL (LOD)",
            title: "Distant Sloped Heightfield LOD",
            description: "Replaces distant stepped voxel stairs on mountain slopes with smooth continuous angled surfaces and groups exposed ore veins into stone.",
            impact: "- ON (2-32 Chunks): Cuts distant geometry by up to 90%, stabilizing 60+ FPS.\n- OFF: Preserves 1x1 voxel blocks all the way to the horizon.",
        },
        MenuButtonAction::StartBenchmark => OptionDescription {
            header: "AUTOMATED BENCHMARK",
            title: "Run Hardware Benchmark",
            description: "Generates a standardized world on seed 'BENCHMARK' and executes a 1,000m high-speed camera flight across diverse terrain to evaluate performance under your active graphics settings.",
            impact: "- Measures average FPS, 1% low, frametimes, RAM, VRAM, and provides optimization advice.",
        },
        MenuButtonAction::BackFromBenchmark => OptionDescription {
            header: "NAVIGATION",
            title: "Change Graphics Settings",
            description: "Return to the Graphics Settings menu to fine-tune render distance, LOD, or shadows and run another test.",
            impact: "- Quickly iterate and verify frame rate improvements.",
        },
        MenuButtonAction::BackFromSettings => OptionDescription {
            header: "NAVIGATION",
            title: "Back / Done",
            description: "Save configuration changes and return to the previous menu screen.",
            impact: "- All graphical adjustments apply immediately in real-time.",
        },
        MenuButtonAction::Play | MenuButtonAction::NewGame => OptionDescription {
            header: "WORLD GENERATION",
            title: "Start New World",
            description: "Generate and enter a brand new voxel world using the specified or randomized seed.",
            impact: "- Spawns on safe dry land with clean procedural terrain.",
        },
        MenuButtonAction::ContinueGame => OptionDescription {
            header: "SAVE GAME",
            title: "Continue Saved World",
            description: "Resume your journey in the most recently played procedural world with your saved position and inventory.",
            impact: "- Instantly restores terrain modifications and player state from disk.",
        },
        MenuButtonAction::ResumeGame => OptionDescription {
            header: "GAMEPLAY",
            title: "Resume Game",
            description: "Unpause and return to the active game world.",
            impact: "- Restores mouse capture and camera controls.",
        },
        MenuButtonAction::OpenSettings => OptionDescription {
            header: "CONFIGURATION",
            title: "Graphics Settings",
            description: "Configure display mode, VSync, frame rate limit, shadows, fog, and view distance.",
            impact: "- Adjust visuals and performance for your hardware.",
        },
        MenuButtonAction::BackToMain => OptionDescription {
            header: "NAVIGATION",
            title: "Return to Main Menu",
            description: "Save player data and chunk modifications to disk, then return to the main title screen.",
            impact: "- World progress is safely saved.",
        },
        MenuButtonAction::QuitGame => OptionDescription {
            header: "NAVIGATION",
            title: "Quit Game",
            description: "Close MineRust and return to desktop.",
            impact: "- All world modifications and player inventory are saved.",
        },
        MenuButtonAction::ToggleEditSeed => OptionDescription {
            header: "WORLD GENERATION",
            title: "Custom World Seed Input",
            description: "Type any alphanumeric string or number to generate a unique procedural world.",
            impact: "- Supports full alphanumeric seed strings.",
        },
        MenuButtonAction::RandomizeSeed => OptionDescription {
            header: "WORLD GENERATION",
            title: "Randomize World Seed",
            description: "Generates a fresh random 64-bit seed using high-resolution entropy.",
            impact: "- Each click generates a brand new terrain layout.",
        },
        MenuButtonAction::ToggleBackfaceCulling => OptionDescription {
            header: "GPU PIPELINE BENCHMARK",
            title: "Backface Culling",
            description: "Discards triangles facing away from the camera in the GPU rasterizer. Solid voxel blocks never expose interior faces.",
            impact: "- ON: Cuts rasterizer fragment load and fill-rate by ~50%.\n- OFF: Forces GPU to rasterize front and back faces of every quad.",
        },
        MenuButtonAction::ToggleMaxYSkip => OptionDescription {
            header: "MESHING BENCHMARK",
            title: "Mesher max_y Air Skipping",
            description: "Tracks the highest solid block per chunk during generation, allowing the mesher to skip empty sky layers up to Y=384.",
            impact: "- ON: ~2x faster chunk meshing, preventing CPU stutters.\n- OFF: Scans all 384 vertical Y layers even if 250 are empty sky.",
        },
        MenuButtonAction::ToggleMeshBudget => OptionDescription {
            header: "FRAME PACING BENCHMARK",
            title: "Frame Mesh Upload Budget",
            description: "Limits GPU buffer uploads of newly meshed chunks to a maximum of 6 chunks per frame.",
            impact: "- ON: Smooth, consistent frame times when flying rapidly.\n- OFF: Uploads all meshes simultaneously, causing micro-stutters.",
        },
        MenuButtonAction::ToggleAsyncMeshing => OptionDescription {
            header: "MULTITHREADING BENCHMARK",
            title: "Async Multi-Threaded Meshing",
            description: "Dispatches chunk greedy meshing computations to background worker threads across all available CPU cores.",
            impact: "- ON: Zero main-thread lag (0ms) during terrain meshing.\n- OFF: Synchronous meshing on the render thread, causing frame drops.",
        },
        MenuButtonAction::CycleLodThreshold => OptionDescription {
            header: "LOD DISTANCE TUNING",
            title: "LOD Distance Threshold",
            description: "Distance in chunks (2, 4, 6, 8 chunks = 32m to 128m) at which chunk geometry transitions to simplified Level 2 LOD.",
            impact: "- Shorter distance = higher frame rates at the cost of closer visual simplification.\n- Longer distance = full detail preserved further out.",
        },
        MenuButtonAction::CyclePregenMargin => OptionDescription {
            header: "MEMORY & STREAMING BENCHMARK",
            title: "Lookahead Pregen Buffer",
            description: "Pre-calculates chunk voxel data in RAM just outside the camera's visual view distance (0 to 4 chunks = 0m to 64m margin).",
            impact: "- Eliminates pop-in stutter when walking forward.\n- 0 Chunks: Disabled (benchmark raw generation latency).\n- 2-4 Chunks: Seamless walking buffer.",
        },
        MenuButtonAction::OpenDevSettings => OptionDescription {
            header: "BENCHMARK TOOLS",
            title: "Dev & Benchmark Settings",
            description: "Toggle internal engine optimizations to measure performance impacts.",
            impact: "- Available only in Developer mode.",
        },
        MenuButtonAction::BackFromDevSettings => OptionDescription {
            header: "NAVIGATION",
            title: "Return / Done",
            description: "Save configuration changes and return to the previous menu screen.",
            impact: "- All graphical and benchmark adjustments apply immediately in real-time.",
        },
    }
}

/// Provides the technical description and performance impact of every setting and button.
pub fn get_option_description(action: &MenuButtonAction) -> (r: Option<OptionDescription>)
    ensures
        r is Some,
        r->Some_0.header@ == option_text(*action).header,
        r->Some_0.title@ == option_text(*action).title,
        r->Some_0.description@ == option_text(*action).description,
        r->Some_0.impact@ == option_text(*action).impact,
{
    Some(option_description_of(*action))
}

/// Every tooltip text is non-empty.
pub proof fn lemma_option_texts_nonempty(action: MenuButtonAction)
    ensures
        option_text(action).header.len() > 0,
        option_text(action).title.len() > 0,
        option_text(action).description.len() > 0,
        option_text(action).impact.len() > 0,
{
    reveal_strlit("- 16 Chunks (256m): Recommended balance of horizon view and performance.\n- 32-64 Chunks: Sweeping vistas; higher RAM/VRAM load.");
    reveal_strlit("- Adjust visuals and performance for your hardware.");
    reveal_strlit("- All graphical adjustments apply immediately in real-time.");
    reveal_strlit("- All graphical and benchmark adjustments apply immediately in real-time.");
    reveal_strlit("- All world modifications and player inventory are saved.");
    reveal_strlit("- Available only in Developer mode.");
    reveal_strlit("- Capping FPS significantly lowers GPU temperature, power consumption, and fan noise.");
    reveal_strlit("- Each click generates a brand new terrain layout.");
    reveal_strlit("- Eliminates pop-in stutter when walking forward.\n- 0 Chunks: Disabled (benchmark raw generation latency).\n- 2-4 Chunks: Seamless walking buffer.");
    reveal_strlit("- Essential for inspecting performance metrics.\n- Can also be toggled anytime in-game using the F3 key.");
    reveal_strlit("- Fullscreen: Immersive edge-to-edge display.\n- Windowed: Convenient multitasking and window positioning.");
    reveal_strlit("- Instantly restores terrain modifications and player state from disk.");
    reveal_strlit("- Measures average FPS, 1% low, frametimes, RAM, VRAM, and provides optimization advice.");
    reveal_strlit("- ON (2-32 Chunks): Cuts distant geometry by up to 90%, stabilizing 60+ FPS.\n- OFF: Preserves 1x1 voxel blocks all the way to the horizon.");
    reveal_strlit("- ON: Cuts rasterizer fragment load and fill-rate by ~50%.\n- OFF: Forces GPU to rasterize front and back faces of every quad.");
    reveal_strlit("- ON: Realistic depth, tree canopy shadows, and terrain self-shadowing.\n- OFF: Skips shadow passes, yielding higher FPS on integrated graphics.");
    reveal_strlit("- ON: Smooth frame pacing, zero screen tearing.\n- OFF: Lowest input latency, uncapped frame rate.");
    reveal_strlit("- ON: Smooth, consistent frame times when flying rapidly.\n- OFF: Uploads all meshes simultaneously, causing micro-stutters.");
    reveal_strlit("- ON: Smooth, immersive horizon that hides chunk loading boundaries.\n- OFF: Sharp cutoff edge at the boundary of loaded chunks.");
    reveal_strlit("- ON: Zero main-thread lag (0ms) during terrain meshing.\n- OFF: Synchronous meshing on the render thread, causing frame drops.");
    reveal_strlit("- ON: ~2x faster chunk meshing, preventing CPU stutters.\n- OFF: Scans all 384 vertical Y layers even if 250 are empty sky.");
    reveal_strlit("- Quickly iterate and verify frame rate improvements.");
    reveal_strlit("- Reduces chunk vertex and triangle counts by up to 75%.\n- OFF: Emits separate 1x1 quads for every exposed block face.");
    reveal_strlit("- Restores mouse capture and camera controls.");
    reveal_strlit("- Shorter distance = higher frame rates at the cost of closer visual simplification.\n- Longer distance = full detail preserved further out.");
    reveal_strlit("- Spawns on safe dry land with clean procedural terrain.");
    reveal_strlit("- Supports full alphanumeric seed strings.");
    reveal_strlit("- World progress is safely saved.");
    reveal_strlit("ATMOSPHERE & BLENDING");
    reveal_strlit("AUTOMATED BENCHMARK");
    reveal_strlit("Applies linear atmospheric distance fog that gracefully blends distant terrain into the sky before chunk boundaries.");
    reveal_strlit("Async Multi-Threaded Meshing");
    reveal_strlit("Atmospheric Distance Fog");
    reveal_strlit("BENCHMARK TOOLS");
    reveal_strlit("Back / Done");
    reveal_strlit("Backface Culling");
    reveal_strlit("CONFIGURATION");
    reveal_strlit("Change Graphics Settings");
    reveal_strlit("Close MineRust and return to desktop.");
    reveal_strlit("Configure display mode, VSync, frame rate limit, shadows, fog, and view distance.");
    reveal_strlit("Continue Saved World");
    reveal_strlit("Custom World Seed Input");
    reveal_strlit("DIAGNOSTICS & PROFILING");
    reveal_strlit("DISPLAY & SYNC");
    reveal_strlit("DISPLAY MODE");
    reveal_strlit("DISTANCE LEVEL OF DETAIL (LOD)");
    reveal_strlit("Dev & Benchmark Settings");
    reveal_strlit("Discards triangles facing away from the camera in the GPU rasterizer. Solid voxel blocks never expose interior faces.");
    reveal_strlit("Dispatches chunk greedy meshing computations to background worker threads across all available CPU cores.");
    reveal_strlit("Display Mode (Fullscreen / Windowed)");
    reveal_strlit("Displays real-time FPS, frame pacing, 1% low, memory footprint, GPU VRAM, active chunks, triangle counts, and coordinates.");
    reveal_strlit("Distance in chunks (2, 4, 6, 8 chunks = 32m to 128m) at which chunk geometry transitions to simplified Level 2 LOD.");
    reveal_strlit("Distant Sloped Heightfield LOD");
    reveal_strlit("Dynamic Directional Shadows");
    reveal_strlit("Engine Profiler Overlay (F3)");
    reveal_strlit("FRAME PACING BENCHMARK");
    reveal_strlit("Frame Mesh Upload Budget");
    reveal_strlit("Frame Rate Limiter");
    reveal_strlit("GAMEPLAY");
    reveal_strlit("GEOMETRY OPTIMIZATION");
    reveal_strlit("GPU PIPELINE BENCHMARK");
    reveal_strlit("Generate and enter a brand new voxel world using the specified or randomized seed.");
    reveal_strlit("Generates a fresh random 64-bit seed using high-resolution entropy.");
    reveal_strlit("Generates a standardized world on seed 'BENCHMARK' and executes a 1,000m high-speed camera flight across diverse terrain to evaluate performance under your active graphics settings.");
    reveal_strlit("Graphics Settings");
    reveal_strlit("Greedy Quad Meshing");
    reveal_strlit("LIGHTING & SHADOWS");
    reveal_strlit("LOD DISTANCE TUNING");
    reveal_strlit("LOD Distance Threshold");
    reveal_strlit("Limits GPU buffer uploads of newly meshed chunks to a maximum of 6 chunks per frame.");
    reveal_strlit("Limits maximum frames rendered per second (30 to 240 FPS, or Uncapped) using microsecond sleep pacing.");
    reveal_strlit("Lookahead Pregen Buffer");
    reveal_strlit("MEMORY & STREAMING BENCHMARK");
    reveal_strlit("MESHING BENCHMARK");
    reveal_strlit("MULTITHREADING BENCHMARK");
    reveal_strlit("Merges adjacent coplanar block faces into larger single quads beyond the specified chunk threshold (or across all chunks).");
    reveal_strlit("Mesher max_y Air Skipping");
    reveal_strlit("NAVIGATION");
    reveal_strlit("PERFORMANCE & THERMALS");
    reveal_strlit("Pre-calculates chunk voxel data in RAM just outside the camera's visual view distance (0 to 4 chunks = 0m to 64m margin).");
    reveal_strlit("Quit Game");
    reveal_strlit("Randomize World Seed");
    reveal_strlit("Render Distance");
    reveal_strlit("Replaces distant stepped voxel stairs on mountain slopes with smooth continuous angled surfaces and groups exposed ore veins into stone.");
    reveal_strlit("Resume Game");
    reveal_strlit("Resume your journey in the most recently played procedural world with your saved position and inventory.");
    reveal_strlit("Return / Done");
    reveal_strlit("Return to Main Menu");
    reveal_strlit("Return to the Graphics Settings menu to fine-tune render distance, LOD, or shadows and run another test.");
    reveal_strlit("Run Hardware Benchmark");
    reveal_strlit("SAVE GAME");
    reveal_strlit("Save configuration changes and return to the previous menu screen.");
    reveal_strlit("Save player data and chunk modifications to disk, then return to the main title screen.");
    reveal_strlit("Sets the horizontal radius of chunks loaded and rendered around the player (4 to 64 chunks = 64m to 1024m).");
    reveal_strlit("Start New World");
    reveal_strlit("Switches between Borderless Fullscreen (native monitor resolution) and Windowed mode (1280x720).");
    reveal_strlit("Synchronizes the game's rendered frame rate with your monitor's physical refresh rate to prevent screen tearing.");
    reveal_strlit("Toggle internal engine optimizations to measure performance impacts.");
    reveal_strlit("Toggles real-time directional sunlight shadow maps across the voxel terrain.");
    reveal_strlit("Tracks the highest solid block per chunk during generation, allowing the mesher to skip empty sky layers up to Y=384.");
    reveal_strlit("Type any alphanumeric string or number to generate a unique procedural world.");
    reveal_strlit("Unpause and return to the active game world.");
    reveal_strlit("Vertical Synchronization (VSync)");
    reveal_strlit("WORLD GENERATION");
    reveal_strlit("WORLD GENERATION & RENDER RADIUS");
}

pub open spec fn on_off(b: bool, on: Seq<char>, off: Seq<char>) -> Seq<char> {
    if b { on } else { off }
}

/// The text of a settings button for the current settings; `None` for buttons whose text
/// does not follow a setting. `hud_visible` tells whether the profiler is shown.
pub open spec fn button_text(action: MenuButtonAction, s: GraphicsSettings, dev: DevSettings, hud_visible: bool) -> Option<Seq<char>> {
    match action {
        MenuButtonAction::ToggleVsync => Some("VSync: "@ + on_off(s.vsync, "ON"@, "OFF"@)),
        MenuButtonAction::ToggleFullscreen => Some("Display: "@ + on_off(s.fullscreen, "Fullscreen"@, "Windowed"@)),
        MenuButtonAction::ToggleShadows => Some("Shadows: "@ + on_off(s.shadows, "ON"@, "OFF"@)),
        MenuButtonAction::ToggleDistanceFog => Some("Distance Fog: "@ + on_off(s.distance_fog, "ON"@, "OFF"@)),
        MenuButtonAction::ToggleDebugHud => Some("Profiler HUD (F3): "@ + on_off(hud_visible, "ON"@, "OFF"@)),
        MenuButtonAction::CycleFpsCap => Some(fps_cap_label_text(s.fps_cap)),
        MenuButtonAction::CycleViewDistance => Some(view_distance_label_text(s.view_distance as int)),
        MenuButtonAction::ToggleBackfaceCulling => Some("Backface Culling: "@ + on_off(dev.backface_culling, "ON (GPU -50%)"@, "OFF (Draw front & back)"@)),
        MenuButtonAction::ToggleMaxYSkip => Some("Mesher max_y Skip: "@ + on_off(dev.max_y_skip, "ON (2x faster meshing)"@, "OFF (Loop all 384 layers)"@)),
        MenuButtonAction::ToggleMeshBudget => Some("Mesh Budget: "@ + on_off(dev.mesh_budget, "ON (6/frame smooth)"@, "OFF (Spike benchmark)"@)),
        MenuButtonAction::ToggleAsyncMeshing => Some("Async Meshing: "@ + on_off(dev.async_meshing, "ON (0ms main thread)"@, "OFF (Sync frame spikes)"@)),
        MenuButtonAction::ToggleGreedyMeshing => Some("Greedy Meshing: "@ + on_off(dev.greedy_meshing, "ON (-75% verts)"@, "OFF (1x1 block quads)"@)),
        MenuButtonAction::ToggleDistanceLod => Some("Distance LOD: "@ + on_off(dev.distance_lod, "ON (Dynamic detail)"@, "OFF (Uniform meshing)"@)),
        MenuButtonAction::CycleLodThreshold => Some(
            "LOD Distance: "@ + signed_decimal_text(dev.lod_threshold as int) + " Chunks ("@
                + signed_decimal_text(dev.lod_threshold * 16) + "m)"@,
        ),
        MenuButtonAction::CyclePregenMargin => Some(
            if dev.pregen_margin == 0 {
                "Lookahead Buffer: 0 (Disabled / Stutter prone)"@
            } else {
                "Lookahead Buffer: "@ + signed_decimal_text(dev.pregen_margin as int) + " Chunks (+"@
                    + signed_decimal_text(dev.pregen_margin * 16) + "m RAM cache)"@
            },
        ),
        _ => None,
    }
}

fn labeled(prefix: &str, b: bool, on: &str, off: &str) -> (r: String)
    ensures
        r@ == prefix@ + on_off(b, on@, off@),
{
    let s = String::from_str(prefix);
    if b { s.concat(on) } else { s.concat(off) }
}

/// The text of a settings button for the current settings, when it shows one.
pub fn button_label(action: MenuButtonAction, s: &GraphicsSettings, dev: &DevSettings, hud_visible: bool) -> (r: Option<String>)
    requires
        i32::MIN <= s.view_distance * 16 <= i32::MAX,
        i32::MIN <= dev.lod_threshold * 16 <= i32::MAX,
        i32::MIN <= dev.pregen_margin * 16 <= i32::MAX,
    ensures
        match r {
            Some(t) => button_text(action, *s, *dev, hud_visible) == Some(t@),
            None => button_text(action, *s, *dev, hud_visible) is None,
        },
{
    match action {
        MenuButtonAction::ToggleVsync => Some(labeled("VSync: ", s.vsync, "ON", "OFF")),
        MenuButtonAction::ToggleFullscreen => Some(labeled("Display: ", s.fullscreen, "Fullscreen", "Windowed")),
        MenuButtonAction::ToggleShadows => Some(labeled("Shadows: ", s.shadows, "ON", "OFF")),
        MenuButtonAction::ToggleDistanceFog => Some(labeled("Distance Fog: ", s.distance_fog, "ON", "OFF")),
        MenuButtonAction::ToggleDebugHud => Some(labeled("Profiler HUD (F3): ", hud_visible, "ON", "OFF")),
        MenuButtonAction::CycleFpsCap => Some(s.fps_cap_label()),
        MenuButtonAction::CycleViewDistance => Some(s.view_distance_label()),
        MenuButtonAction::ToggleBackfaceCulling => Some(labeled("Backface Culling: ", dev.backface_culling, "ON (GPU -50%)", "OFF (Draw front & back)")),
        MenuButtonAction::ToggleMaxYSkip => Some(labeled("Mesher max_y Skip: ", dev.max_y_skip, "ON (2x faster meshing)", "OFF (Loop all 384 layers)")),
        MenuButtonAction::ToggleMeshBudget => Some(labeled("Mesh Budget: ", dev.mesh_budget, "ON (6/frame smooth)", "OFF (Spike benchmark)")),
        MenuButtonAction::ToggleAsyncMeshing => Some(labeled("Async Meshing: ", dev.async_meshing, "ON (0ms main thread)", "OFF (Sync frame spikes)")),
        MenuButtonAction::ToggleGreedyMeshing => Some(labeled("Greedy Meshing: ", dev.greedy_meshing, "ON (-75% verts)", "OFF (1x1 block quads)")),
        MenuButtonAction::ToggleDistanceLod => Some(labeled("Distance LOD: ", dev.distance_lod, "ON (Dynamic detail)", "OFF (Uniform meshing)")),
        MenuButtonAction::CycleLodThreshold => {
            let t = String::from_str("LOD Distance: ");
            let t = t.concat(decimal_i64(dev.lod_threshold as i64).as_str());
            let t = t.concat(" Chunks (");
            let t = t.concat(decimal_i64((dev.lod_threshold * 16) as i64).as_str());
            Some(t.concat("m)"))
        },
        MenuButtonAction::CyclePregenMargin => {
            if dev.pregen_margin == 0 {
                Some(String::from_str("Lookahead Buffer: 0 (Disabled / Stutter prone)"))
            } else {
                let t = String::from_str("Lookahead Buffer: ");
                let t = t.concat(decimal_i64(dev.pregen_margin as i64).as_str());
                let t = t.concat(" Chunks (+");
                let t = t.concat(decimal_i64((dev.pregen_margin * 16) as i64).as_str());
                Some(t.concat("m RAM cache)"))
            }
        },
        _ => None,
    }
}

} // verus!
