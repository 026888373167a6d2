//! The game's state: stage, score, fish count, and the stage countdown.

use vstd::prelude::*;

use crate::config::{Config, StageConfig};
use crate::timer::Timer;

verus! {

/// Asks to start (or restart) the game.
#[derive(Clone, Copy, Debug, PartialEq, Eq, Structural)]
pub struct StartGameEvent;

/// Asks to move on to the current stage of the game state.
#[derive(Clone, Copy, Debug, PartialEq, Eq, Structural)]
pub struct NextStageEvent;

/// Signals that the game has ended.
#[derive(Clone, Copy, Debug, PartialEq, Eq, Structural)]
pub struct GameOverEvent;

/// The state of one game session.
#[derive(Clone, Copy, Debug, PartialEq, Eq, Structural)]
pub struct GameState {
    /// The number of fish alive in the world.
    pub fish_count: u32,
    /// The stage reached; an index into the configured stages, clamped.
    pub stage: usize,
    /// False on the main menu.
    pub started: bool,
    /// Points scored this session.
    pub score: u64,
}

/// Which stage of `config` is in play for a game at stage `stage`, started
/// or not: the sample stage before the start or when no stages are
/// configured, else the stage at `stage`, the last one past the end.
pub open spec fn cur_stage_spec(config: &Config, started: bool, stage: int) -> StageConfig {
    let n = config.stages@.len();
    if !started || n == 0 {
        config.sample_stage
    } else if stage < n {
        config.stages@[stage]
    } else {
        config.stages@[n - 1]
    }
}

impl GameState {
    pub open spec fn is_initial(&self) -> bool {
        &&& self.fish_count == 0
        &&& self.stage == 0
        &&& !self.started
        &&& self.score == 0
    }

    /// The stage counter.
    pub fn stage(&self) -> (r: usize)
        ensures
            r == self.stage,
    {
        self.stage
    }

    /// The configuration of the stage in play; the last configured stage
    /// repeats forever while the counter goes on.
    pub fn cur_stage<'a>(&self, config: &'a Config) -> (r: &'a StageConfig)
        ensures
            *r == cur_stage_spec(config, self.started, self.stage as int),
    {
        let n = config.stages.len();
        if !self.started || n == 0 {
            &config.sample_stage
        } else if self.stage < n {
            &config.stages[self.stage]
        } else {
            &config.stages[n - 1]
        }
    }

    /// Moves the counter on by one stage.
    pub fn next_stage(&mut self)
        requires
            old(self).stage < usize::MAX,
        ensures
            final(self).stage == old(self).stage + 1,
            final(self).fish_count == old(self).fish_count,
            final(self).started == old(self).started,
            final(self).score == old(self).score,
    {
        self.stage = self.stage + 1;
    }

    /// Puts the state back to its initial values.
    pub fn reset(&mut self)
        ensures
            final(self).is_initial(),
    {
        *self = GameState::default();
    }
}

impl Default for GameState {
    /// No fish, stage zero, on the main menu, no score.
    fn default() -> (r: GameState)
        ensures
            r.is_initial(),
    {
        GameState { fish_count: 0, stage: 0, started: false, score: 0 }
    }
}

/// The countdown of the stage in play.
#[derive(Clone, Copy, Debug, PartialEq, Eq, Structural)]
pub struct CountdownTimer {
    pub timer: Timer,
}

impl CountdownTimer {
    /// A countdown of `time` milliseconds.
    pub fn new(time: u64) -> (r: CountdownTimer)
        ensures
            r.timer.duration == time,
            r.timer.elapsed == 0,
    {
        CountdownTimer { timer: Timer::new(time) }
    }

    /// Advances the countdown by `delta` ms and gives the whole seconds left.
    pub fn tick(&mut self, delta: u64) -> (r: u64)
        ensures
            final(self).timer.duration == old(self).timer.duration,
            final(self).timer.elapsed == if old(self).timer.elapsed + delta
                >= old(self).timer.duration {
                old(self).timer.duration
            } else {
                (old(self).timer.elapsed + delta) as u64
            },
            r == (if final(self).timer.finished() {
                0
            } else {
                (final(self).timer.duration - final(self).timer.elapsed) as int
            }) / 1000,
    {
        self.timer.tick(delta);
        self.timer.remaining() / 1000
    }

    /// Restarts the countdown with a new length.
    pub fn reset_timer(&mut self, new_time: u64)
        ensures
            final(self).timer.duration == new_time,
            final(self).timer.elapsed == 0,
    {
        self.timer = Timer::new(new_time);
    }
}


/// Before the game starts, the stage in play is the sample stage, whatever
/// the counter and the configured stages.
pub proof fn lemma_stage_fallback(config: &Config, stage: int)
    ensures
        cur_stage_spec(config, false, stage) == config.sample_stage,
{
}

/// Once started, a counter past the configured stages stays on the last.
pub proof fn lemma_last_stage_repeats(config: &Config, stage: int)
    requires
        config.stages@.len() > 0,
        stage >= config.stages@.len(),
    ensures
        cur_stage_spec(config, true, stage) == config.stages@.last(),
{
}

} // verus!
