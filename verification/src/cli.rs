use vstd::prelude::*;

use crate::text::parsed_i32;
use crate::text::parse_i32;
use crate::world::seed_of_text;
use crate::world::WorldSeed;

verus! {

/// Options given on the command line at startup.
#[derive(Debug, PartialEq, Eq, Structural)]
pub struct CliOptions {
    pub seed: Option<WorldSeed>,
    pub profile_mode: bool,
    pub quickstart: bool,
    pub view_distance: Option<i32>,
}

impl Default for CliOptions {
    fn default() -> (r: CliOptions)
        ensures
            r == CliOptions::empty(),
    {
        CliOptions { seed: None, profile_mode: false, quickstart: false, view_distance: None }
    }
}

/// `v` held to the range `lo..=hi`.
pub open spec fn clamp_to(v: int, lo: int, hi: int) -> int {
    if v < lo {
        lo
    } else if v > hi {
        hi
    } else {
        v
    }
}

/// The text printed for `--help`.
pub open spec fn help_text() -> Seq<char> {
    "MineRust - A High-Performance Voxel Sandbox in Rust\nUsage: minerust [OPTIONS]\n\nOptions:\n  -s, --seed <SEED>              Set world generation seed (string or integer)\n  -p, --profile                  Enable Real-time Performance Profiler HUD (F3)\n  -q, --quickstart               Start directly in-game bypassing the main menu\n      --view-distance <chunks>   Render distance (2 to 64 chunks)\n  -h, --help                     Print help information"@
}

/// What an argument asks for.
#[derive(Clone, Copy, Debug, PartialEq, Eq, Structural)]
pub enum ArgKind {
    Seed,
    Profile,
    Quickstart,
    ViewDistance,
    Help,
    Other,
}

/// The kind of an argument: `-s`/`--seed`, `-p`/`--profile`, `-q`/`--quickstart`,
/// `--view-distance`, `-h`/`--help`, or anything else.
pub open spec fn arg_kind(a: Seq<char>) -> ArgKind {
    if a == "-s"@ || a == "--seed"@ {
        ArgKind::Seed
    } else if a == "-p"@ || a == "--profile"@ {
        ArgKind::Profile
    } else if a == "-q"@ || a == "--quickstart"@ {
        ArgKind::Quickstart
    } else if a == "--view-distance"@ {
        ArgKind::ViewDistance
    } else if a == "-h"@ || a == "--help"@ {
        ArgKind::Help
    } else {
        ArgKind::Other
    }
}

/// The options after reading the arguments from index `i` on, starting from `opts`;
/// `None` when a help flag is met. A flag that expects a value and stands last is
/// ignored, and so is a view distance that is not an `i32`; unknown arguments are skipped.
pub open spec fn parse_args_from(args: Seq<Seq<char>>, i: int, opts: CliOptions) -> Option<
    CliOptions,
>
    decreases args.len() - i,
{
    if i < 0 || i >= args.len() {
        Some(opts)
    } else {
        match arg_kind(args[i]) {
            ArgKind::Seed => if i + 1 < args.len() {
                parse_args_from(
                    args,
                    i + 2,
                    CliOptions { seed: Some(WorldSeed(seed_of_text(args[i + 1]))), ..opts },
                )
            } else {
                Some(opts)
            },
            ArgKind::Profile => parse_args_from(
                args,
                i + 1,
                CliOptions { profile_mode: true, ..opts },
            ),
            ArgKind::Quickstart => parse_args_from(
                args,
                i + 1,
                CliOptions { quickstart: true, ..opts },
            ),
            ArgKind::ViewDistance => if i + 1 < args.len() {
                match parsed_i32(args[i + 1]) {
                    Some(vd) => parse_args_from(
                        args,
                        i + 2,
                        CliOptions {
                            view_distance: Some(clamp_to(vd as int, 2, 64) as i32),
                            ..opts
                        },
                    ),
                    None => parse_args_from(args, i + 2, opts),
                }
            } else {
                Some(opts)
            },
            ArgKind::Help => None,
            ArgKind::Other => parse_args_from(args, i + 1, opts),
        }
    }
}

/// The texts of the arguments.
pub open spec fn arg_texts(args: Seq<String>) -> Seq<Seq<char>> {
    args.map_values(|s: String| s@)
}

fn arg_is(a: &String, flag: &str) -> (r: bool)
    ensures
        r == (a@ == flag@),
{
    let owned = flag.to_owned();
    *a == owned
}

/// Tells which option an argument names.
pub fn classify_arg(a: &String) -> (k: ArgKind)
    ensures
        k == arg_kind(a@),
{
    if arg_is(a, "-s") || arg_is(a, "--seed") {
        ArgKind::Seed
    } else if arg_is(a, "-p") || arg_is(a, "--profile") {
        ArgKind::Profile
    } else if arg_is(a, "-q") || arg_is(a, "--quickstart") {
        ArgKind::Quickstart
    } else if arg_is(a, "--view-distance") {
        ArgKind::ViewDistance
    } else if arg_is(a, "-h") || arg_is(a, "--help") {
        ArgKind::Help
    } else {
        ArgKind::Other
    }
}

impl CliOptions {
    /// No seed, no flags, no view distance.
    pub open spec fn empty() -> CliOptions {
        CliOptions { seed: None, profile_mode: false, quickstart: false, view_distance: None }
    }

    /// Reads the options from the program's arguments; the first argument, the program's
    /// name, is skipped. A help flag ends the reading with the help text as the error.
    pub fn parse_from_args(args: Vec<String>) -> (r: Result<CliOptions, String>)
        ensures
            match r {
                Ok(o) => parse_args_from(arg_texts(args@), 1, CliOptions::empty()) == Some(o),
                Err(m) => parse_args_from(arg_texts(args@), 1, CliOptions::empty()) is None
                    && m@ == help_text(),
            },
    {
        let ghost texts = arg_texts(args@);
        let mut opts = CliOptions::default();
        let mut i: usize = 1;
        while i < args.len()
            invariant
                texts == arg_texts(args@),
                1 <= i,
                i == 1 || i <= args.len(),
                parse_args_from(texts, i as int, opts) == parse_args_from(
                    texts,
                    1,
                    CliOptions::empty(),
                ),
            decreases args.len() - i,
        {
            assert(texts[i as int] == args@[i as int]@);
            match classify_arg(&args[i]) {
                ArgKind::Seed => {
                    if i + 1 < args.len() {
                        assert(texts[i + 1] == args@[i + 1]@);
                        opts.seed = Some(WorldSeed::from_seed_str(args[i + 1].as_str()));
                        i += 2;
                    } else {
                        i = args.len();
                    }
                },
                ArgKind::Profile => {
                    opts.profile_mode = true;
                    i += 1;
                },
                ArgKind::Quickstart => {
                    opts.quickstart = true;
                    i += 1;
                },
                ArgKind::ViewDistance => {
                    if i + 1 < args.len() {
                        assert(texts[i + 1] == args@[i + 1]@);
                        match parse_i32(args[i + 1].as_str()) {
                            Some(vd) => {
                                let clamped: i32 = if vd < 2 {
                                    2
                                } else if vd > 64 {
                                    64
                                } else {
                                    vd
                                };
                                opts.view_distance = Some(clamped);
                            },
                            None => {},
                        }
                        i += 2;
                    } else {
                        i = args.len();
                    }
                },
                ArgKind::Help => {
                    return Err(Self::help_message());
                },
                ArgKind::Other => {
                    i += 1;
                },
            }
        }
        Ok(opts)
    }

    /// The usage text.
    pub fn help_message() -> (r: String)
        ensures
            r@ == help_text(),
    {
        String::from_str(
            "MineRust - A High-Performance Voxel Sandbox in Rust\nUsage: minerust [OPTIONS]\n\nOptions:\n  -s, --seed <SEED>              Set world generation seed (string or integer)\n  -p, --profile                  Enable Real-time Performance Profiler HUD (F3)\n  -q, --quickstart               Start directly in-game bypassing the main menu\n      --view-distance <chunks>   Render distance (2 to 64 chunks)\n  -h, --help                     Print help information",
        )
    }
}

} // verus!
