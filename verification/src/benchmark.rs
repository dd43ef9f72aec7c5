use vstd::prelude::*;
use vstd::string::*;

use crate::menu::GraphicsSettings;
use crate::text::text_is;

verus! {

/// The predefined flight benchmark profiles.
#[derive(Clone, Copy, Debug, PartialEq, Eq, Structural)]
pub enum BenchmarkPreset {
    Flight5km,
}

/// What `str::to_lowercase` makes of a text (the Unicode lowercase mapping).
pub uninterp spec fn lowercased(s: Seq<char>) -> Seq<char>;

/// Calls `str::to_lowercase`. Trusted: the result is the named lowercase mapping of the
/// text; nothing more is stated of it.
#[verifier::external_body]
fn str_to_lowercase(s: &str) -> (r: String)
    ensures
        r@ == lowercased(s@),
{
    s.to_lowercase()
}

/// The names that select the flight benchmark.
pub open spec fn preset_of_lowercase(name: Seq<char>) -> Option<BenchmarkPreset> {
    if name == "flight"@ || name == "standard"@ || name == "production"@ || name == "5km"@
        || name == "1km"@ || name == "bench"@ || name == "baseline"@ || name == "culling"@
        || name == "greedy"@ || name == "sloped_lod"@ {
        Some(BenchmarkPreset::Flight5km)
    } else {
        None
    }
}

impl BenchmarkPreset {
    /// The preset a lowercase name selects.
    pub fn from_lowercase_name(name: &str) -> (r: Option<BenchmarkPreset>)
        ensures
            r == preset_of_lowercase(name@),
    {
        if text_is(name, "flight") || text_is(name, "standard") || text_is(name, "production")
            || text_is(name, "5km") || text_is(name, "1km") || text_is(name, "bench")
            || text_is(name, "baseline") || text_is(name, "culling") || text_is(name, "greedy")
            || text_is(name, "sloped_lod") {
            Some(BenchmarkPreset::Flight5km)
        } else {
            None
        }
    }

    /// The preset a name selects, in any letter case.
    pub fn from_str_name(name: &str) -> (r: Option<BenchmarkPreset>)
        ensures
            r == preset_of_lowercase(lowercased(name@)),
    {
        let lower = str_to_lowercase(name);
        Self::from_lowercase_name(lower.as_str())
    }

    /// The machine-readable identifier of the preset.
    pub fn id(self) -> (r: &'static str)
        ensures
            r@ == "flight_5km"@,
    {
        "flight_5km"
    }

    /// The display name of the preset.
    pub fn name(self) -> (r: &'static str)
        ensures
            r@ == "5km Flight Benchmark"@,
    {
        "5km Flight Benchmark"
    }

    /// The scenario the preset runs at the given render distance.
    pub fn into_scenario(self, view_distance: i32) -> (r: BenchmarkScenario)
        ensures
            r.is_standard(view_distance),
    {
        BenchmarkScenario::standard(view_distance)
    }
}

/// The settings of one benchmark run that the game's settings follow. The flight path
/// (distance, speed, altitude, warm-up) is measured in floating point and belongs to the
/// runner that flies it.
pub struct BenchmarkScenario {
    /// Machine-readable identifier.
    pub id: String,
    /// Display name for reports.
    pub name: String,
    /// Render distance in chunks.
    pub view_distance: i32,
    /// Whether distance fog is on during the run.
    pub distance_fog: bool,
    /// Where the report is written.
    pub output_path: Option<String>,
}

impl BenchmarkScenario {
    /// The standard flight at the given render distance.
    pub open spec fn is_standard(&self, view_distance: i32) -> bool {
        &&& self.id@ == "standard"@
        &&& self.name@ == "Standard 5km Flight Benchmark"@
        &&& self.view_distance == view_distance
        &&& !self.distance_fog
        &&& self.output_path matches Some(p) && p@ == "benchmark_results/flight_benchmark.json"@
    }

    /// The standard 5 km flight, without fog, at the given render distance.
    pub fn standard(view_distance: i32) -> (r: BenchmarkScenario)
        ensures
            r.is_standard(view_distance),
    {
        BenchmarkScenario {
            id: String::from_str("standard"),
            name: String::from_str("Standard 5km Flight Benchmark"),
            view_distance,
            distance_fog: false,
            output_path: Some(String::from_str("benchmark_results/flight_benchmark.json")),
        }
    }

    /// The scenario used for production runs: the standard flight.
    pub fn production(view_distance: i32) -> (r: BenchmarkScenario)
        ensures
            r.is_standard(view_distance),
    {
        Self::standard(view_distance)
    }

    /// The scenario of a preset.
    pub fn from_preset(preset: BenchmarkPreset, view_distance: i32) -> (r: BenchmarkScenario)
        ensures
            r.is_standard(view_distance),
    {
        preset.into_scenario(view_distance)
    }

    /// The scenario of the preset a name selects, in any letter case.
    pub fn from_preset_name(name: &str, view_distance: i32) -> (r: Option<BenchmarkScenario>)
        ensures
            r is Some <==> preset_of_lowercase(lowercased(name@)) is Some,
            r matches Some(sc) ==> sc.is_standard(view_distance),
    {
        match BenchmarkPreset::from_str_name(name) {
            Some(p) => Some(p.into_scenario(view_distance)),
            None => None,
        }
    }

    /// Sets the game's settings for the run: no vertical sync, no frame cap, the
    /// scenario's fog and render distance; the rest is kept.
    pub fn apply(&self, graphics: &mut GraphicsSettings)
        ensures
            *final(graphics) == (GraphicsSettings {
                vsync: false,
                fps_cap: None,
                distance_fog: self.distance_fog,
                view_distance: self.view_distance,
                ..*old(graphics)
            }),
    {
        graphics.vsync = false;
        graphics.fps_cap = None;
        graphics.distance_fog = self.distance_fog;
        graphics.view_distance = self.view_distance;
    }
}

/// A set of benchmark scenarios run over one fixed seed.
pub struct BenchmarkSuite {
    pub seed: u64,
    pub scenarios: Vec<BenchmarkScenario>,
}

impl BenchmarkSuite {
    /// The seed that benchmark suites fly over.
    pub const DEFAULT_SEED: u64 = 133742;

    /// The standard suite: the standard flight over the default seed.
    pub fn standard(view_distance: i32) -> (r: BenchmarkSuite)
        ensures
            r.seed == Self::DEFAULT_SEED,
            r.scenarios@.len() == 1,
            r.scenarios@[0].is_standard(view_distance),
    {
        let mut scenarios: Vec<BenchmarkScenario> = Vec::new();
        scenarios.push(BenchmarkScenario::standard(view_distance));
        BenchmarkSuite { seed: Self::DEFAULT_SEED, scenarios }
    }
}

} // verus!
