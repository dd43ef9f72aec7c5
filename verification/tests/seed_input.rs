use minerust::menu::{KeyCode, MenuScreen, SeedInputState};

fn editing(text: &str) -> SeedInputState {
    SeedInputState { seed_text: text.to_string(), is_editing: true }
}

#[test]
fn typing_appends_characters() {
    let mut s = editing("ab");
    assert!(s.handle_keys(MenuScreen::Main, &vec![KeyCode::KeyC, KeyCode::Digit4], true));
    assert_eq!(s.seed_text, "abC$");
    assert_eq!(s.display_text(), "Seed: abC$|");
    assert!(!s.handle_keys(MenuScreen::Main, &vec![KeyCode::F3], false));
}

#[test]
fn typing_stops_at_thirty_two_bytes() {
    let mut s = editing(&"x".repeat(31));
    assert!(s.handle_keys(MenuScreen::Main, &vec![KeyCode::KeyA, KeyCode::KeyB], false));
    assert_eq!(s.seed_text.len(), 32);
    assert!(s.seed_text.ends_with('a'));
    assert!(!s.handle_keys(MenuScreen::Main, &vec![KeyCode::KeyA], false));
}

#[test]
fn backspace_enter_and_leaving_the_menu() {
    let mut s = editing("42");
    assert!(s.handle_keys(MenuScreen::Main, &vec![KeyCode::Backspace, KeyCode::KeyA], false));
    assert_eq!(s.seed_text, "4");
    assert!(s.handle_keys(MenuScreen::Main, &vec![KeyCode::Enter], false));
    assert!(!s.is_editing);
    assert_eq!(s.display_text(), "Seed: 4");
    let mut t = editing("");
    assert!(!t.handle_keys(MenuScreen::Settings, &vec![KeyCode::KeyA], false));
    assert!(!t.is_editing);
    assert_eq!(t.display_text(), "Seed: [Random Seed]");
    t.is_editing = true;
    assert_eq!(t.display_text(), "Seed: |");
    assert!(t.handle_keys(MenuScreen::Main, &vec![KeyCode::Backspace], false));
    assert_eq!(t.seed_text, "");
}

#[test]
fn typing_then_backspace_restores_the_text() {
    let mut s = editing("seed");
    assert!(s.handle_keys(MenuScreen::Main, &vec![KeyCode::KeyZ], true));
    assert_eq!(s.seed_text, "seedZ");
    assert!(s.handle_keys(MenuScreen::Main, &vec![KeyCode::Backspace], false));
    assert_eq!(s.seed_text, "seed");
    assert!(s.is_editing);
}
