use vstd::prelude::*;
use vstd::string::*;

use crate::menu::{KeyCode, MenuScreen, SeedInputState, key_char, keycode_to_char};

verus! {

/// The most bytes the seed text takes from typing.
pub const MAX_SEED_TEXT_BYTES: usize = 32;

/// Calls `String::push`. Trusted: the character is appended, as std documents.
#[verifier::external_body]
fn string_push(s: &mut String, c: char)
    ensures
        final(s)@ == old(s)@.push(c),
{
    s.push(c)
}

/// Calls `String::pop`. Trusted: the last character is removed and returned, or nothing
/// when the string is empty, as std documents.
#[verifier::external_body]
fn string_pop(s: &mut String) -> (r: Option<char>)
    ensures
        old(s)@.len() == 0 ==> r is None && final(s)@ == old(s)@,
        old(s)@.len() > 0 ==> r == Some(old(s)@.last()) && final(s)@ == old(s)@.drop_last(),
{
    s.pop()
}

/// Typing the keys in order into the seed text: each key that stands for a character is
/// appended while the text is under the byte limit.
pub open spec fn typed(text: Seq<char>, keys: Seq<KeyCode>, shift: bool) -> Seq<char>
    decreases keys.len(),
{
    if keys.len() == 0 {
        text
    } else {
        let before = typed(text, keys.drop_last(), shift);
        match key_char(keys.last(), shift) {
            Some(c) => if vstd::utf8::encode_utf8(before).len() < 32 { before.push(c) } else { before },
            None => before,
        }
    }
}

/// Whether typing the keys changes anything.
pub open spec fn types_anything(text: Seq<char>, keys: Seq<KeyCode>, shift: bool) -> bool
    decreases keys.len(),
{
    if keys.len() == 0 {
        false
    } else {
        types_anything(text, keys.drop_last(), shift) || (key_char(keys.last(), shift) is Some
            && vstd::utf8::encode_utf8(typed(text, keys.drop_last(), shift)).len() < 32)
    }
}

/// The seed box after this frame's keys, and whether its display must be redrawn. Away
/// from the main menu editing stops. While editing, Enter or Escape ends it, Backspace
/// deletes the last character, and otherwise the typed characters are appended.
pub open spec fn spec_seed_keys(text: Seq<char>, editing: bool, screen: MenuScreen, keys: Seq<KeyCode>, shift: bool) -> (Seq<char>, bool, bool) {
    if screen != MenuScreen::Main {
        (text, false, false)
    } else if !editing {
        (text, false, false)
    } else if keys.contains(KeyCode::Enter) || keys.contains(KeyCode::NumpadEnter) || keys.contains(KeyCode::Escape) {
        (text, false, true)
    } else if keys.contains(KeyCode::Backspace) {
        (if text.len() > 0 { text.drop_last() } else { text }, true, true)
    } else {
        (typed(text, keys, shift), true, types_anything(text, keys, shift))
    }
}

/// What the seed box shows: a cursor bar while editing, and a placeholder when empty.
pub open spec fn seed_display(text: Seq<char>, editing: bool) -> Seq<char> {
    if editing {
        if text.len() == 0 { "Seed: |"@ } else { "Seed: "@ + text + "|"@ }
    } else if text.len() == 0 {
        "Seed: [Random Seed]"@
    } else {
        "Seed: "@ + text
    }
}

fn contains_key(keys: &Vec<KeyCode>, key: KeyCode) -> (r: bool)
    ensures
        r == keys@.contains(key),
{
    let mut i: usize = 0;
    while i < keys.len()
        invariant
            i <= keys@.len(),
            forall|j: int| 0 <= j < i ==> keys@[j] != key,
        decreases keys@.len() - i,
    {
        if keys[i] == key {
            return true;
        }
        i += 1;
    }
    false
}

impl SeedInputState {
    /// Applies this frame's key presses to the seed box; returns whether its display must
    /// be redrawn. `keys` are the keys pressed this frame, `shift` whether a shift key is
    /// held.
    pub fn handle_keys(&mut self, screen: MenuScreen, keys: &Vec<KeyCode>, shift: bool) -> (changed: bool)
        ensures
            (final(self).seed_text@, final(self).is_editing, changed) == spec_seed_keys(
                old(self).seed_text@,
                old(self).is_editing,
                screen,
                keys@,
                shift,
            ),
    {
        if screen != MenuScreen::Main {
            self.is_editing = false;
            return false;
        }
        if !self.is_editing {
            return false;
        }
        if contains_key(keys, KeyCode::Enter) || contains_key(keys, KeyCode::NumpadEnter)
            || contains_key(keys, KeyCode::Escape) {
            self.is_editing = false;
            return true;
        }
        if contains_key(keys, KeyCode::Backspace) {
            string_pop(&mut self.seed_text);
            return true;
        }
        let ghost text0 = self.seed_text@;
        let mut changed = false;
        let mut i: usize = 0;
        while i < keys.len()
            invariant
                i <= keys@.len(),
                self.seed_text@ == typed(text0, keys@.take(i as int), shift),
                changed == types_anything(text0, keys@.take(i as int), shift),
                self.is_editing,
            decreases keys@.len() - i,
        {
            proof {
                assert(keys@.take(i + 1).drop_last() == keys@.take(i as int));
                assert(keys@.take(i + 1).last() == keys@[i as int]);
            }
            match keycode_to_char(keys[i], shift) {
                Some(ch) => {
                    if self.seed_text.as_str().as_bytes().len() < MAX_SEED_TEXT_BYTES {
                        string_push(&mut self.seed_text, ch);
                        changed = true;
                    }
                },
                None => {},
            }
            proof {
                assert(self.seed_text@ == typed(text0, keys@.take(i + 1), shift));
                assert(changed == types_anything(text0, keys@.take(i + 1), shift));
            }
            i += 1;
        }
        proof {
            assert(keys@.take(keys@.len() as int) == keys@);
        }
        changed
    }

    /// The text the seed box shows.
    pub fn display_text(&self) -> (r: String)
        ensures
            r@ == seed_display(self.seed_text@, self.is_editing),
    {
        let empty = self.seed_text.as_str().is_empty();
        if self.is_editing {
            if empty {
                String::from_str("Seed: |")
            } else {
                let s = String::from_str("Seed: ");
                let s = s.concat(self.seed_text.as_str());
                s.concat("|")
            }
        } else if empty {
            String::from_str("Seed: [Random Seed]")
        } else {
            let s = String::from_str("Seed: ");
            s.concat(self.seed_text.as_str())
        }
    }
}

/// Typing one character while the seed box has room, then pressing Backspace, leaves the
/// text as it was.
pub proof fn lemma_type_then_backspace(text: Seq<char>, key: KeyCode, shift: bool, shift2: bool)
    requires
        key_char(key, shift) is Some,
        vstd::utf8::encode_utf8(text).len() < 32,
    ensures
        ({
            let (t1, e1, _) = spec_seed_keys(text, true, MenuScreen::Main, seq![key], shift);
            &&& t1 == text.push(key_char(key, shift).unwrap())
            &&& e1
            &&& spec_seed_keys(t1, e1, MenuScreen::Main, seq![KeyCode::Backspace], shift2).0 == text
        }),
{
    let keys = seq![key];
    let c = key_char(key, shift).unwrap();
    assert(key != KeyCode::Enter && key != KeyCode::NumpadEnter && key != KeyCode::Escape && key != KeyCode::Backspace);
    assert(keys.drop_last() == Seq::<KeyCode>::empty());
    assert(keys.last() == key);
    assert(typed(text, keys.drop_last(), shift) == text);
    assert(typed(text, keys, shift) == text.push(c));
    assert(!keys.contains(KeyCode::Enter));
    assert(!keys.contains(KeyCode::NumpadEnter));
    assert(!keys.contains(KeyCode::Escape));
    assert(!keys.contains(KeyCode::Backspace));
    assert(seq![KeyCode::Backspace].contains(KeyCode::Backspace)) by {
        assert(seq![KeyCode::Backspace][0] == KeyCode::Backspace);
    }
    assert(!seq![KeyCode::Backspace].contains(KeyCode::Enter));
    assert(!seq![KeyCode::Backspace].contains(KeyCode::NumpadEnter));
    assert(!seq![KeyCode::Backspace].contains(KeyCode::Escape));
    assert(text.push(key_char(key, shift).unwrap()).drop_last() == text);
}

} // verus!
