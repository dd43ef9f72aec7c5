//! Where worlds are saved and which saved world is the latest: the names of the save
//! directories and files, and the choice among the directories found.
use vstd::prelude::*;
use vstd::string::*;

use crate::coords::IVec2;
use crate::text::{
    all_digits, decimal_i64, decimal_text, decimal_u64, digit_char, digits_value, parse_u64,
    parsed_u64, signed_decimal_text, str_trim, text_is, trimmed,
};
use crate::world::WorldGrid;

verus! {

/// The name of the directory of the world with `seed`.
pub open spec fn world_dir_name(seed: u64) -> Seq<char> {
    "world_"@ + decimal_text(seed as nat)
}

/// The seed a save directory's name stands for: the name is `world_` and a seed in
/// decimal.
pub open spec fn seed_of_dir_name(name: Seq<char>) -> Option<u64> {
    if name.len() >= 6 && name.take(6) == "world_"@ {
        parsed_u64(name.skip(6))
    } else {
        None
    }
}

/// The file name of a saved chunk.
pub open spec fn chunk_file_name(coord: IVec2) -> Seq<char> {
    "chunk_"@ + signed_decimal_text(coord.x as int) + "_"@ + signed_decimal_text(coord.y as int) + ".bin"@
}

/// The directory the world with `seed` is saved in.
pub fn world_dir_of_seed(seed: u64) -> (r: String)
    ensures
        r@ == "saves/"@ + world_dir_name(seed),
{
    let s = String::from_str("saves/world_");
    proof {
        reveal_strlit("saves/world_");
        reveal_strlit("saves/");
        reveal_strlit("world_");
        assert("saves/world_"@ == "saves/"@ + "world_"@);
    }
    s.concat(decimal_u64(seed).as_str())
}

impl WorldGrid {
    /// The directory the world is saved in.
    pub fn world_dir(&self) -> (r: String)
        ensures
            r@ == "saves/"@ + world_dir_name(self.seed.0),
    {
        world_dir_of_seed(self.seed.0)
    }

    /// The file the player's state is saved in.
    pub fn player_save_path(&self) -> (r: String)
        ensures
            r@ == "saves/"@ + world_dir_name(self.seed.0) + "/player.json"@,
    {
        let d = self.world_dir();
        d.concat("/player.json")
    }

    /// The directory the world's chunks are saved in.
    pub fn chunk_save_dir(&self) -> (r: String)
        ensures
            r@ == "saves/"@ + world_dir_name(self.seed.0) + "/chunks"@,
    {
        let d = self.world_dir();
        d.concat("/chunks")
    }
}

/// The file name a chunk is saved under.
pub fn chunk_file(coord: IVec2) -> (r: String)
    ensures
        r@ == chunk_file_name(coord),
{
    let s = String::from_str("chunk_");
    let s = s.concat(decimal_i64(coord.x as i64).as_str());
    let s = s.concat("_");
    let s = s.concat(decimal_i64(coord.y as i64).as_str());
    s.concat(".bin")
}

/// The seed a save directory's name stands for, if it is named after one.
pub fn seed_of_world_dir(name: &str) -> (r: Option<u64>)
    ensures
        r == seed_of_dir_name(name@),
{
    let n = name.unicode_len();
    if n < 6 {
        return None;
    }
    let head = name.substring_char(0, 6);
    if !text_is(head, "world_") {
        return None;
    }
    parse_u64(name.substring_char(6, n))
}

/// The seed written in the file of the last played world, around which whitespace may
/// stand.
pub fn seed_of_last_world_text(content: &str) -> (r: Option<u64>)
    ensures
        r == parsed_u64(trimmed(content@)),
{
    parse_u64(str_trim(content))
}

/// The entry at `i` names a world.
pub open spec fn names_world(entries: Seq<(String, u128)>, i: int) -> bool {
    seed_of_dir_name(entries[i].0@) is Some
}

/// The entry at `i` is the first of the world directories last modified the latest.
pub open spec fn is_latest_world(entries: Seq<(String, u128)>, i: int) -> bool {
    &&& 0 <= i < entries.len()
    &&& names_world(entries, i)
    &&& forall|j: int| 0 <= j < entries.len() && names_world(entries, j) ==> #[trigger] entries[j].1 <= entries[i].1
    &&& forall|j: int| 0 <= j < i && names_world(entries, j) ==> #[trigger] entries[j].1 < entries[i].1
}

/// Of the save directories found, each given by its name and when it was last modified,
/// the seed of the world modified the latest (the first such, on a tie); `None` when no
/// directory is named after a world.
pub fn latest_saved_world(entries: &Vec<(String, u128)>) -> (r: Option<u64>)
    ensures
        r is None <==> forall|i: int| 0 <= i < entries@.len() ==> !names_world(entries@, i),
        r matches Some(s) ==> exists|i: int| #[trigger] is_latest_world(entries@, i) && seed_of_dir_name(entries@[i].0@) == Some(s),
{
    let mut best: Option<(u64, u128)> = None;
    let ghost mut best_i: int = -1;
    let mut k: usize = 0;
    while k < entries.len()
        invariant
            k <= entries@.len(),
            best is None <==> forall|i: int| 0 <= i < k ==> !names_world(entries@, i),
            best matches Some(b) ==> {
                &&& 0 <= best_i < k
                &&& names_world(entries@, best_i)
                &&& seed_of_dir_name(entries@[best_i].0@) == Some(b.0)
                &&& entries@[best_i].1 == b.1
                &&& forall|j: int| 0 <= j < k && names_world(entries@, j) ==> #[trigger] entries@[j].1 <= b.1
                &&& forall|j: int| 0 <= j < best_i && names_world(entries@, j) ==> #[trigger] entries@[j].1 < b.1
            },
        decreases entries@.len() - k,
    {
        let (name, modified) = &entries[k];
        match seed_of_world_dir(name.as_str()) {
            Some(seed) => {
                assert(names_world(entries@, k as int));
                let newer = match best {
                    Some(b) => *modified > b.1,
                    None => true,
                };
                if newer {
                    best = Some((seed, *modified));
                    proof {
                        best_i = k as int;
                    }
                }
            },
            None => {
                assert(!names_world(entries@, k as int));
            },
        }
        k += 1;
    }
    match best {
        Some(b) => {
            assert(is_latest_world(entries@, best_i));
            Some(b.0)
        },
        None => None,
    }
}

/// The decimal notation of a number is made of digits that read back as the number.
pub proof fn lemma_decimal_digits(n: nat)
    ensures
        decimal_text(n).len() > 0,
        all_digits(decimal_text(n)),
        digits_value(decimal_text(n)) == n,
        decimal_text(n)[0] != '+',
    decreases n,
{
    if n >= 10 {
        lemma_decimal_digits(n / 10);
        let t = decimal_text(n);
        let d = (n % 10) as int;
        assert(t.drop_last() == decimal_text(n / 10));
        assert(t.last() == digit_char(d));
        assert((digit_char(d) as u32) - ('0' as u32) == d);
        assert(digits_value(t) == digits_value(decimal_text(n / 10)) * 10 + d);
        assert((n / 10) * 10 + n % 10 == n) by (nonlinear_arith);
        assert forall|i: int| 0 <= i < t.len() implies crate::text::is_digit(#[trigger] t[i]) by {
            if i < t.len() - 1 {
                assert(t[i] == decimal_text(n / 10)[i]);
            }
        }
        assert(t[0] == decimal_text(n / 10)[0]);
    } else {
        assert(digits_value(decimal_text(n).drop_last()) == 0);
    }
}

/// The directory written for a seed is read back as that seed.
pub proof fn lemma_world_dir_roundtrip(seed: u64)
    ensures
        seed_of_dir_name(world_dir_name(seed)) == Some(seed),
{
    reveal_strlit("world_");
    let name = world_dir_name(seed);
    lemma_decimal_digits(seed as nat);
    assert(name.take(6) == "world_"@);
    assert(name.skip(6) == decimal_text(seed as nat));
}

} // verus!
