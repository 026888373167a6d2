//! Configuration of the play area and of each stage.

use vstd::prelude::*;

use crate::fish::Species;

verus! {

/// The settings of one stage.
#[derive(Clone, Debug)]
pub struct StageConfig {
    /// The score needed to pass the stage.
    pub target_score: u64,
    /// How far below the water line the floor lies, in thousandths of a unit.
    pub water_depth: u32,
    /// Most fish alive at once during the stage.
    pub max_fish: u32,
    /// The species that can spawn during the stage.
    pub species: Vec<Species>,
    /// Length of the stage, in milliseconds.
    pub time: u64,
}

impl StageConfig {
    /// Every species of the stage is well formed.
    pub open spec fn wf(&self) -> bool {
        forall|i: int| 0 <= i < self.species@.len() ==> (#[trigger] self.species@[i]).wf()
    }
}

/// Settings of the whole game.
#[derive(Clone, Debug)]
pub struct Config {
    /// How far the play area reaches left and right of x = 0, in thousandths
    /// of a unit.
    pub game_width: i64,
    /// Height of the water line, in thousandths of a unit.
    pub water_level: i64,
    /// The stages in order; past the end, the last one repeats.
    pub stages: Vec<StageConfig>,
    /// The stage shown behind the main menu, and the one used when `stages`
    /// is empty.
    pub sample_stage: StageConfig,
}

impl Config {
    /// Every stage is well formed, the width is not negative, and the water
    /// line lies well within `i64`, so that every depth below it does too.
    pub open spec fn wf(&self) -> bool {
        &&& 0 <= self.game_width <= 0x4000_0000_0000_0000
        &&& -0x4000_0000_0000_0000 <= self.water_level <= 0x4000_0000_0000_0000
        &&& self.sample_stage.wf()
        &&& forall|i: int| 0 <= i < self.stages@.len() ==> (#[trigger] self.stages@[i]).wf()
    }
}

impl Default for Config {
    /// A play area 180 units wide each way with the water line at 50, one
    /// stage, and a sample stage; bass in each.
    fn default() -> (r: Config)
        ensures
            r.wf(),
            r.game_width == 180_000,
            r.water_level == 50_000,
            r.stages@.len() == 1,
            r.stages@[0].target_score == 100,
            r.stages@[0].water_depth == 150_000,
            r.stages@[0].max_fish == 5,
            r.stages@[0].time == 60_000,
            r.sample_stage.target_score == 0,
            r.sample_stage.water_depth == 200_000,
            r.sample_stage.max_fish == 20,
            r.sample_stage.time == 0,
    {
        let stage = StageConfig {
            target_score: 100,
            water_depth: 150_000,
            max_fish: 5,
            species: vec![Species::bass()],
            time: 60_000,
        };
        let sample = StageConfig {
            target_score: 0,
            water_depth: 200_000,
            max_fish: 20,
            species: vec![Species::bass()],
            time: 0,
        };
        Config { game_width: 180_000, water_level: 50_000, stages: vec![stage], sample_stage: sample }
    }
}

} // verus!
