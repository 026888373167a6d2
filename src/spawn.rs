//! Periodic spawning of fish.

use vstd::prelude::*;

use crate::config::{Config, StageConfig};
use crate::fish::{depth_within_floor, floor_depth_spec, Direction, Fish, FishState, FishStats, Heading};
use crate::physics::{Position, Velocity};
use crate::random::random_fraction;
use crate::state::{cur_stage_spec, GameState};
use crate::timer::Timer;
use crate::units::{Inches, FRAC_ONE};
use crate::world::{lemma_wf_frame, FishBody, World};

verus! {

/// Shortest time between two spawns, in ms.
pub const MIN_SPAWN_INTERVAL: u64 = 1000;

/// How much longer than the shortest the time between two spawns can be, in ms.
pub const SPAWN_INTERVAL_SPREAD: u64 = 5000;

/// The draws that one spawn takes, each a fraction in parts per million
/// below one whole.
#[derive(Clone, Copy, Debug, PartialEq, Eq, Structural)]
pub struct SpawnDraws {
    /// Time until the next spawn.
    pub interval: u32,
    /// Which of the stage's species spawns.
    pub species: u32,
    pub weight: u32,
    pub length: u32,
    pub strength: u32,
    pub energy: u32,
    pub depth: u32,
    pub heading: u32,
    /// The depth re-roll of a fish that would spawn below the floor.
    pub floor_depth: u32,
}

impl SpawnDraws {
    pub open spec fn wf(self) -> bool {
        &&& self.interval < FRAC_ONE
        &&& self.species < FRAC_ONE
        &&& self.weight < FRAC_ONE
        &&& self.length < FRAC_ONE
        &&& self.strength < FRAC_ONE
        &&& self.energy < FRAC_ONE
        &&& self.depth < FRAC_ONE
        &&& self.heading < FRAC_ONE
        &&& self.floor_depth < FRAC_ONE
    }

    /// Fresh random draws.
    pub fn random() -> (r: SpawnDraws)
        ensures
            r.wf(),
    {
        SpawnDraws {
            interval: random_fraction(),
            species: random_fraction(),
            weight: random_fraction(),
            length: random_fraction(),
            strength: random_fraction(),
            energy: random_fraction(),
            depth: random_fraction(),
            heading: random_fraction(),
            floor_depth: random_fraction(),
        }
    }
}

/// The time until the next spawn for the draw `w`: from one to six seconds.
pub open spec fn spawn_interval_spec(w: nat) -> int {
    MIN_SPAWN_INTERVAL + SPAWN_INTERVAL_SPREAD * w / (FRAC_ONE as int)
}

/// The index into `n` species that the draw `w` picks.
pub open spec fn species_index_spec(w: nat, n: nat) -> int {
    (w * n) as int / (FRAC_ONE as int)
}

/// How deep, in whole units, the floor of a stage lies below the water.
pub open spec fn floor_depth_of(stage: StageConfig) -> nat {
    (stage.water_depth / 1000) as nat
}

/// The fish that `draws` give in `stage`: rolled between its species'
/// bounds, its depth re-rolled when it would lie below the floor.
pub open spec fn spawned_fish_spec(stage: StageConfig, draws: SpawnDraws) -> Fish {
    let species = stage.species@[species_index_spec(draws.species as nat, stage.species@.len())];
    let stats = Fish::rolled(
        species,
        draws.weight as nat,
        draws.length as nat,
        draws.strength as nat,
        draws.energy as nat,
        draws.depth as nat,
        draws.heading as nat,
    );
    Fish {
        stats: FishStats {
            depth: Inches(
                floor_depth_spec(
                    species,
                    stats.depth.0 as nat,
                    floor_depth_of(stage),
                    draws.floor_depth as nat,
                ) as u32,
            ),
            ..stats
        },
        species,
        state: FishState {
            hooked: false,
            age: 0,
            pulling: Direction::Neutral,
            timer: Timer { duration: 0, elapsed: 0 },
        },
    }
}

/// Where a new fish enters: at the edge it swims away from, at its depth
/// below the water line, swimming across at its speed.
pub open spec fn spawned_body_spec(fish: Fish, config: &Config, id: u64) -> FishBody {
    let left = fish.stats.heading == Heading::Left;
    FishBody {
        id,
        fish,
        pos: Position {
            x: (if left { config.game_width as int } else { -config.game_width }) as i64,
            y: (config.water_level - fish.stats.depth.0 * 1000) as i64,
        },
        vel: Velocity { x: (if left { -fish.speed_spec() } else { fish.speed_spec() }) as i64, y: 0 },
        hooked_by: None,
    }
}


impl World {
    /// Puts `fish` into the world under the next id; see `spawned_body_spec`.
    pub fn spawn_new(&mut self, fish: Fish, config: &Config) -> (r: u64)
        requires
            old(self).wf(),
            old(self).next_id < u64::MAX,
            config.wf(),
            fish.wf(),
            !fish.state.hooked,
        ensures
            final(self).wf(),
            r == old(self).next_id,
            final(self).fish@ == old(self).fish@.push(spawned_body_spec(fish, config, r)),
            final(self).next_id == old(self).next_id + 1,
            final(self).hook == old(self).hook,
            final(self).floor_y == old(self).floor_y,
            final(self).countdown == old(self).countdown,
            final(self).spawner == old(self).spawner,
    {
        let facing_left = match fish.stats.heading {
            Heading::Left => true,
            Heading::Right => false,
        };
        proof {
            let e = fish.extra_strength_spec();
            let c = fish.species.strength_to_speed as int;
            assert(e * c <= 0xffff_ffff * 0xffff_ffff) by (nonlinear_arith)
                requires
                    0 <= e <= 0xffff_ffff,
                    0 <= c <= 0xffff_ffff,
            ;
        }
        let speed = fish.get_speed() as i64;
        let depth = fish.stats.depth.0 as i64 * 1000;
        let y = config.water_level - depth;
        let (x, vx) = if facing_left {
            (config.game_width, -speed)
        } else {
            (-config.game_width, speed)
        };
        let id = self.next_id;
        let body = FishBody {
            id,
            fish,
            pos: Position { x, y },
            vel: Velocity { x: vx, y: 0 },
            hooked_by: None,
        };
        proof {
            assert(body == spawned_body_spec(fish, config, id));
        }
        self.fish.push(body);
        self.next_id = self.next_id + 1;
        proof {
            let n = old(self).fish@.len();
            assert forall|j: int| 0 <= j < n implies #[trigger] self.fish@[j] == old(self).fish@[j] by {}
            assert forall|j: int| 0 <= j < n implies #[trigger] self.is_hooked(j) == old(self).is_hooked(j) by {}
            assert(!self.is_hooked(n as int));
            if self.hook.hook.hooked {
                let k = choose|k: int| 0 <= k < n && #[trigger] old(self).is_hooked(k);
                assert(self.is_hooked(k));
            }
        }
        id
    }

    /// One spawn tick with the given draws: when the spawn timer has run
    /// out, the stage has room for another fish and some species to draw
    /// from, one fish spawns (see `spawned_fish_spec`), the count goes up
    /// and the timer restarts with a new interval; then the timer advances
    /// by `delta` ms. Gives the id of the fish spawned.
    pub fn handle_spawn_with(
        &mut self,
        state: &mut GameState,
        config: &Config,
        delta: u64,
        draws: SpawnDraws,
    ) -> (r: Option<u64>)
        requires
            old(self).wf(),
            old(state).fish_count == old(self).fish@.len(),
            old(self).next_id < u64::MAX,
            config.wf(),
            draws.wf(),
        ensures
            final(self).wf(),
            final(state).fish_count == final(self).fish@.len(),
            ({
                let stage = cur_stage_spec(config, old(state).started, old(state).stage as int);
                let spawns = old(self).spawner.timer.finished() && old(state).fish_count < stage.max_fish
                    && stage.species@.len() > 0;
                let timer = if spawns {
                    Timer { duration: spawn_interval_spec(draws.interval as nat) as u64, elapsed: 0 }
                } else {
                    old(self).spawner.timer
                };
                &&& r.is_some() == spawns
                &&& spawns ==> {
                    &&& r == Some(old(self).next_id)
                    &&& final(self).fish@ == old(self).fish@.push(
                        spawned_body_spec(spawned_fish_spec(stage, draws), config, old(self).next_id),
                    )
                    &&& final(self).next_id == old(self).next_id + 1
                    &&& *final(state) == (GameState { fish_count: (old(state).fish_count + 1) as u32, ..*old(state) })
                }
                &&& !spawns ==> {
                    &&& final(self).fish@ == old(self).fish@
                    &&& final(self).next_id == old(self).next_id
                    &&& *final(state) == *old(state)
                }
                &&& final(self).spawner.timer.duration == timer.duration
                &&& final(self).spawner.timer.elapsed == if timer.elapsed + delta >= timer.duration {
                    timer.duration
                } else {
                    (timer.elapsed + delta) as u64
                }
            }),
            final(self).hook == old(self).hook,
            final(self).floor_y == old(self).floor_y,
            final(self).countdown == old(self).countdown,
    {
        let stage = state.cur_stage(config);
        let n = stage.species.len();
        let mut spawned: Option<u64> = None;
        if self.spawner.timer.is_finished() && state.fish_count < stage.max_fish && n > 0 {
            proof {
                assert((draws.interval as int) * 5000 / 1_000_000 <= 5000) by (nonlinear_arith)
                    requires
                        draws.interval < 1_000_000,
                ;
                assert((draws.species as int) * (n as int) / 1_000_000 < n) by (nonlinear_arith)
                    requires
                        draws.species < 1_000_000,
                        n > 0,
                ;
                assert((draws.species as int) * (n as int) <= 1_000_000 * 0xffff_ffff_ffff_ffff)
                    by (nonlinear_arith)
                    requires
                        draws.species < 1_000_000,
                        n <= 0xffff_ffff_ffff_ffff,
                ;
                assert(stage.wf());
            }
            let interval = MIN_SPAWN_INTERVAL + SPAWN_INTERVAL_SPREAD * draws.interval as u64
                / FRAC_ONE as u64;
            let ghost w0 = *self;
            self.spawner.timer = Timer::new(interval);
            proof {
                lemma_wf_frame(w0, *self);
            }
            state.fish_count = state.fish_count + 1;
            let idx = (draws.species as u128 * n as u128 / FRAC_ONE as u128) as usize;
            let species = &stage.species[idx];
            let mut fish = Fish::from_rolls(
                species,
                draws.weight,
                draws.length,
                draws.strength,
                draws.energy,
                draws.depth,
                draws.heading,
            );
            fish.stats.depth = depth_within_floor(
                species,
                fish.stats.depth,
                stage.water_depth / 1000,
                draws.floor_depth,
            );
            spawned = Some(self.spawn_new(fish, config));
        }
        let ghost w1 = *self;
        self.spawner.timer.tick(delta);
        proof {
            lemma_wf_frame(w1, *self);
        }
        spawned
    }

    /// One spawn tick with fresh random draws; see `handle_spawn_with`.
    /// A fish spawns exactly when the spawn timer has run out and the stage
    /// has room and some species; it is the fish of some valid draws, and
    /// the timer restarts with those draws' interval. Either way the timer
    /// then advances by `delta` ms, and nothing but the fish count changes
    /// in the game state.
    pub fn handle_spawn(&mut self, state: &mut GameState, config: &Config, delta: u64) -> (r: Option<u64>)
        requires
            old(self).wf(),
            old(state).fish_count == old(self).fish@.len(),
            old(self).next_id < u64::MAX,
            config.wf(),
        ensures
            final(self).wf(),
            *final(state) == (GameState { fish_count: final(self).fish@.len() as u32, ..*old(state) }),
            final(self).hook == old(self).hook,
            final(self).floor_y == old(self).floor_y,
            final(self).countdown == old(self).countdown,
            ({
                let stage = cur_stage_spec(config, old(state).started, old(state).stage as int);
                let spawns = old(self).spawner.timer.finished() && old(state).fish_count < stage.max_fish
                    && stage.species@.len() > 0;
                &&& r.is_some() == spawns
                &&& !spawns ==> {
                    let t = old(self).spawner.timer;
                    &&& final(self).fish@ == old(self).fish@
                    &&& final(self).next_id == old(self).next_id
                    &&& final(self).spawner.timer.duration == t.duration
                    &&& final(self).spawner.timer.elapsed == if t.elapsed + delta >= t.duration {
                        t.duration
                    } else {
                        (t.elapsed + delta) as u64
                    }
                }
                &&& spawns ==> {
                    &&& r == Some(old(self).next_id)
                    &&& final(self).next_id == old(self).next_id + 1
                    &&& final(self).spawner.timer.elapsed == if delta
                        >= final(self).spawner.timer.duration {
                        final(self).spawner.timer.duration
                    } else {
                        delta
                    }
                    &&& exists|d: SpawnDraws|
                        d.wf() && final(self).fish@ == old(self).fish@.push(
                            spawned_body_spec(
                                #[trigger] spawned_fish_spec(stage, d),
                                config,
                                old(self).next_id,
                            ),
                        ) && final(self).spawner.timer.duration == spawn_interval_spec(
                            d.interval as nat,
                        )
                }
            }),
    {
        let draws = SpawnDraws::random();
        let r = self.handle_spawn_with(state, config, delta, draws);
        proof {
            let stage = cur_stage_spec(config, old(state).started, old(state).stage as int);
            let _ = spawned_fish_spec(stage, draws);
        }
        r
    }
}

} // verus!
