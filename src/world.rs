//! The live entities of a game, and the transitions between stages.

use vstd::prelude::*;

use crate::config::Config;
use crate::fish::{Fish, FishState, MAX_STRUGGLE, MIN_STRUGGLE};
use crate::hook::{input_velocity_spec, Controls, Hook};
use crate::physics::{moved_spec, moves_in_range, within_radius, Position, Velocity};
use crate::state::{cur_stage_spec, CountdownTimer, GameState};
use crate::timer::Timer;

verus! {

/// The hook, by its entity id, that a fish hangs on.
#[derive(Clone, Copy, Debug, PartialEq, Eq, Structural)]
pub struct HookedBy(pub u64);

/// A fish in the world.
#[derive(Clone, Copy, Debug, PartialEq, Eq, Structural)]
pub struct FishBody {
    /// Entity id, unique among live entities.
    pub id: u64,
    pub fish: Fish,
    pub pos: Position,
    pub vel: Velocity,
    /// The hook the fish hangs on, if any; its position then follows the hook.
    pub hooked_by: Option<HookedBy>,
}

/// The hook in the world.
#[derive(Clone, Copy, Debug, PartialEq, Eq, Structural)]
pub struct HookBody {
    /// Entity id of the hook.
    pub id: u64,
    pub hook: Hook,
    pub pos: Position,
    pub vel: Velocity,
}

/// A fish, by its entity id, has left the play area.
#[derive(Clone, Copy, Debug, PartialEq, Eq, Structural)]
pub struct FishEscapedEvent {
    pub entity: u64,
}

/// The periodic spawning of fish.
#[derive(Clone, Copy, Debug, PartialEq, Eq, Structural)]
pub struct SpawnHandler {
    pub timer: Timer,
}

/// Every live entity of a game.
#[derive(Clone, Debug)]
pub struct World {
    pub hook: HookBody,
    pub fish: Vec<FishBody>,
    /// Height of the floor, in thousandths of a unit.
    pub floor_y: i64,
    pub countdown: CountdownTimer,
    pub spawner: SpawnHandler,
    /// The id the next spawned fish gets; above every id in use.
    pub next_id: u64,
}

impl World {
    /// The fish at index `i` hangs on the hook.
    pub open spec fn is_hooked(&self, i: int) -> bool {
        self.fish@[i].fish.state.hooked
    }

    /// The world's invariant: fish are well formed, their hooked flag and
    /// relation agree, at most one fish is hooked, the hook is flagged
    /// hooked exactly when one is, and ids, the hook's among them, are
    /// unique and below `next_id`.
    pub open spec fn wf(&self) -> bool {
        &&& forall|i: int| 0 <= i < self.fish@.len() ==> (#[trigger] self.fish@[i]).fish.wf()
        &&& forall|i: int|
            0 <= i < self.fish@.len() ==> (#[trigger] self.fish@[i]).hooked_by == if self.fish@[i].fish.state.hooked {
                Some(HookedBy(self.hook.id))
            } else {
                None
            }
        &&& forall|i: int, j: int|
            0 <= i < self.fish@.len() && 0 <= j < self.fish@.len() && #[trigger] self.is_hooked(i)
                && #[trigger] self.is_hooked(j) ==> i == j
        &&& self.hook.hook.hooked <==> exists|i: int|
            0 <= i < self.fish@.len() && #[trigger] self.is_hooked(i)
        &&& forall|i: int|
            0 <= i < self.fish@.len() ==> (#[trigger] self.fish@[i]).id < self.next_id
                && self.fish@[i].id != self.hook.id
        &&& forall|i: int, j: int|
            0 <= i < self.fish@.len() && 0 <= j < self.fish@.len() && i != j ==> #[trigger] self.fish@[i].id
                != #[trigger] self.fish@[j].id
        &&& self.hook.id < self.next_id
    }

    /// The floor of a stage `water_depth` deep.
    pub open spec fn floor_of(config: &Config, water_depth: u32) -> int {
        config.water_level - water_depth
    }

    /// Sets the world up for the stage in play: every fish is gone (and so
    /// nothing hangs on the hook), the floor moves to the stage's depth and
    /// the countdown restarts with the stage's time.
    pub fn stage_transition(&mut self, state: &mut GameState, config: &Config)
        requires
            old(self).wf(),
            config.water_level - cur_stage_spec(config, old(state).started, old(state).stage as int).water_depth
                >= i64::MIN,
        ensures
            final(self).wf(),
            final(self).fish@.len() == 0,
            !final(self).hook.hook.hooked,
            final(self).floor_y == World::floor_of(
                config,
                cur_stage_spec(config, old(state).started, old(state).stage as int).water_depth,
            ),
            final(self).countdown.timer.duration == cur_stage_spec(
                config,
                old(state).started,
                old(state).stage as int,
            ).time,
            final(self).countdown.timer.elapsed == 0,
            final(self).hook == (HookBody {
                hook: Hook { hooked: false, ..old(self).hook.hook },
                ..old(self).hook
            }),
            final(self).next_id == old(self).next_id,
            final(self).spawner == old(self).spawner,
            *final(state) == (GameState { fish_count: 0, ..*old(state) }),
    {
        let stage = state.cur_stage(config);
        self.fish = Vec::new();
        self.hook.hook.hooked = false;
        self.floor_y = config.water_level - stage.water_depth as i64;
        self.countdown.reset_timer(stage.time);
        state.fish_count = 0;
    }

    /// Starts a game: the state is marked started, the world set up for the
    /// stage in play, and the empty hook put back at its start, at rest.
    pub fn load_game(&mut self, state: &mut GameState, config: &Config)
        requires
            old(self).wf(),
            config.water_level - cur_stage_spec(config, true, old(state).stage as int).water_depth
                >= i64::MIN,
        ensures
            final(self).wf(),
            final(self).fish@.len() == 0,
            !final(self).hook.hook.hooked,
            final(self).floor_y == World::floor_of(
                config,
                cur_stage_spec(config, true, old(state).stage as int).water_depth,
            ),
            final(self).countdown.timer.duration == cur_stage_spec(
                config,
                true,
                old(state).stage as int,
            ).time,
            final(self).countdown.timer.elapsed == 0,
            final(self).hook == (HookBody {
                pos: Hook::start_pos_spec(config),
                vel: Velocity { x: 0, y: 0 },
                hook: Hook { hooked: false, ..old(self).hook.hook },
                ..old(self).hook
            }),
            final(self).next_id == old(self).next_id,
            final(self).spawner == old(self).spawner,
            *final(state) == (GameState { fish_count: 0, started: true, ..*old(state) }),
    {
        state.started = true;
        self.stage_transition(state, config);
        let ghost w0 = *self;
        self.hook.pos = Hook::start_pos(config);
        self.hook.vel = Velocity { x: 0, y: 0 };
        proof {
            lemma_wf_frame(w0, *self);
        }
    }

    /// Ends a game: the state goes back to the menu and everything stops.
    pub fn game_over_screen(&mut self, state: &mut GameState)
        requires
            old(self).wf(),
        ensures
            final(self).wf(),
            *final(state) == (GameState { started: false, ..*old(state) }),
            final(self).hook.vel == (Velocity { x: 0, y: 0 }),
            final(self).fish@.len() == old(self).fish@.len(),
            forall|i: int|
                0 <= i < final(self).fish@.len() ==> (#[trigger] final(self).fish@[i]) == (FishBody {
                    vel: Velocity { x: 0, y: 0 },
                    ..old(self).fish@[i]
                }),
            final(self).hook.hook == old(self).hook.hook,
            final(self).hook.pos == old(self).hook.pos,
            final(self).hook.id == old(self).hook.id,
            final(self).floor_y == old(self).floor_y,
            final(self).countdown == old(self).countdown,
            final(self).spawner == old(self).spawner,
            final(self).next_id == old(self).next_id,
    {
        state.started = false;
        self.hook.vel = Velocity { x: 0, y: 0 };
        let n = self.fish.len();
        let mut i: usize = 0;
        while i < n
            invariant
                n == self.fish@.len(),
                0 <= i <= n,
                old(self).wf(),
                self.hook == (HookBody { vel: Velocity { x: 0, y: 0 }, ..old(self).hook }),
                self.next_id == old(self).next_id,
                self.floor_y == old(self).floor_y,
                self.countdown == old(self).countdown,
                self.spawner == old(self).spawner,
                self.fish@.len() == old(self).fish@.len(),
                forall|j: int|
                    0 <= j < i ==> (#[trigger] self.fish@[j]) == (FishBody {
                        vel: Velocity { x: 0, y: 0 },
                        ..old(self).fish@[j]
                    }),
                forall|j: int| i <= j < n ==> (#[trigger] self.fish@[j]) == old(self).fish@[j],
            decreases n - i,
        {
            let mut b = self.fish[i];
            b.vel = Velocity { x: 0, y: 0 };
            self.fish.set(i, b);
            i = i + 1;
        }
        proof {
            assert forall|j: int| 0 <= j < self.fish@.len() implies #[trigger] self.is_hooked(j)
                == old(self).is_hooked(j) by {}
            if self.hook.hook.hooked {
                let k = choose|k: int| 0 <= k < old(self).fish@.len() && #[trigger] old(self).is_hooked(k);
                assert(self.is_hooked(k));
            }
        }
    }
}


impl World {
    /// Every body's move over `dt` ms stays within `i64`.
    pub open spec fn moves_fit(&self, dt: u64) -> bool {
        &&& moves_in_range(self.hook.pos, self.hook.vel, dt)
        &&& forall|i: int|
            0 <= i < self.fish@.len() ==> moves_in_range(
                (#[trigger] self.fish@[i]).pos,
                self.fish@[i].vel,
                dt,
            )
    }

    /// Moves every body by its velocity over `dt` ms; a hooked fish goes
    /// where the hook goes.
    pub fn apply_velocity(&mut self, dt: u64)
        requires
            old(self).wf(),
            old(self).moves_fit(dt),
            dt <= i64::MAX,
        ensures
            final(self).wf(),
            final(self).hook == (HookBody {
                pos: Position {
                    x: moved_spec(old(self).hook.pos.x as int, old(self).hook.vel.x as int, dt as int)
                        as i64,
                    y: moved_spec(old(self).hook.pos.y as int, old(self).hook.vel.y as int, dt as int)
                        as i64,
                },
                ..old(self).hook
            }),
            final(self).fish@.len() == old(self).fish@.len(),
            forall|i: int|
                0 <= i < final(self).fish@.len() ==> (#[trigger] final(self).fish@[i]) == (FishBody {
                    pos: if old(self).fish@[i].fish.state.hooked {
                        final(self).hook.pos
                    } else {
                        Position {
                            x: moved_spec(
                                old(self).fish@[i].pos.x as int,
                                old(self).fish@[i].vel.x as int,
                                dt as int,
                            ) as i64,
                            y: moved_spec(
                                old(self).fish@[i].pos.y as int,
                                old(self).fish@[i].vel.y as int,
                                dt as int,
                            ) as i64,
                        }
                    },
                    ..old(self).fish@[i]
                }),
            final(self).floor_y == old(self).floor_y,
            final(self).countdown == old(self).countdown,
            final(self).spawner == old(self).spawner,
            final(self).next_id == old(self).next_id,
    {
        self.hook.pos = self.hook.pos.moved(&self.hook.vel, dt);
        let n = self.fish.len();
        let mut i: usize = 0;
        while i < n
            invariant
                n == self.fish@.len(),
                0 <= i <= n,
                old(self).wf(),
                old(self).moves_fit(dt),
                dt <= i64::MAX,
                self.hook == (HookBody {
                    pos: Position {
                        x: moved_spec(old(self).hook.pos.x as int, old(self).hook.vel.x as int, dt as int)
                            as i64,
                        y: moved_spec(old(self).hook.pos.y as int, old(self).hook.vel.y as int, dt as int)
                            as i64,
                    },
                    ..old(self).hook
                }),
                self.next_id == old(self).next_id,
                self.floor_y == old(self).floor_y,
                self.countdown == old(self).countdown,
                self.spawner == old(self).spawner,
                self.fish@.len() == old(self).fish@.len(),
                forall|j: int|
                    0 <= j < i ==> (#[trigger] self.fish@[j]) == (FishBody {
                        pos: if old(self).fish@[j].fish.state.hooked {
                            self.hook.pos
                        } else {
                            Position {
                                x: moved_spec(
                                    old(self).fish@[j].pos.x as int,
                                    old(self).fish@[j].vel.x as int,
                                    dt as int,
                                ) as i64,
                                y: moved_spec(
                                    old(self).fish@[j].pos.y as int,
                                    old(self).fish@[j].vel.y as int,
                                    dt as int,
                                ) as i64,
                            }
                        },
                        ..old(self).fish@[j]
                    }),
                forall|j: int| i <= j < n ==> (#[trigger] self.fish@[j]) == old(self).fish@[j],
            decreases n - i,
        {
            let mut b = self.fish[i];
            proof {
                assert(moves_in_range(old(self).fish@[i as int].pos, old(self).fish@[i as int].vel, dt));
            }
            if b.fish.state.hooked {
                b.pos = self.hook.pos;
            } else {
                b.pos = b.pos.moved(&b.vel, dt);
            }
            self.fish.set(i, b);
            i = i + 1;
        }
        proof {
            assert forall|j: int| 0 <= j < self.fish@.len() implies #[trigger] self.is_hooked(j)
                == old(self).is_hooked(j) by {}
            if self.hook.hook.hooked {
                let k = choose|k: int| 0 <= k < old(self).fish@.len() && #[trigger] old(self).is_hooked(k);
                assert(self.is_hooked(k));
            }
        }
    }

    /// Catches the first fish within the hook's reach, if the hook holds
    /// none yet: the hook and the fish are marked hooked, the fish stops
    /// swimming and hangs on the hook. Gives the index of the fish caught.
    pub fn check_hook_fish_collision(&mut self) -> (r: Option<usize>)
        requires
            old(self).wf(),
        ensures
            final(self).wf(),
            final(self).fish@.len() == old(self).fish@.len(),
            r.is_none() ==> *final(self) == *old(self),
            r.is_none() ==> old(self).hook.hook.hooked || forall|j: int|
                0 <= j < old(self).fish@.len() ==> !within_radius(
                    old(self).hook.pos,
                    (#[trigger] old(self).fish@[j]).pos,
                    old(self).hook.hook.catch_radius as int,
                ),
            r matches Some(i) ==> {
                &&& !old(self).hook.hook.hooked
                &&& i < old(self).fish@.len()
                &&& within_radius(
                    old(self).hook.pos,
                    old(self).fish@[i as int].pos,
                    old(self).hook.hook.catch_radius as int,
                )
                &&& forall|j: int|
                    0 <= j < i ==> !within_radius(
                        old(self).hook.pos,
                        (#[trigger] old(self).fish@[j]).pos,
                        old(self).hook.hook.catch_radius as int,
                    )
                &&& final(self).hook == (HookBody {
                    hook: Hook { hooked: true, ..old(self).hook.hook },
                    ..old(self).hook
                })
                &&& final(self).fish@ == old(self).fish@.update(
                    i as int,
                    FishBody {
                        fish: Fish {
                            state: FishState { hooked: true, ..old(self).fish@[i as int].fish.state },
                            ..old(self).fish@[i as int].fish
                        },
                        vel: Velocity { x: 0, y: 0 },
                        hooked_by: Some(HookedBy(old(self).hook.id)),
                        ..old(self).fish@[i as int]
                    },
                )
                &&& final(self).floor_y == old(self).floor_y
                &&& final(self).countdown == old(self).countdown
                &&& final(self).spawner == old(self).spawner
                &&& final(self).next_id == old(self).next_id
            },
    {
        if self.hook.hook.hooked {
            return None;
        }
        let n = self.fish.len();
        let mut i: usize = 0;
        while i < n
            invariant
                n == self.fish@.len(),
                0 <= i <= n,
                *self == *old(self),
                old(self).wf(),
                !self.hook.hook.hooked,
                forall|j: int|
                    0 <= j < i ==> !within_radius(
                        self.hook.pos,
                        (#[trigger] self.fish@[j]).pos,
                        self.hook.hook.catch_radius as int,
                    ),
            decreases n - i,
        {
            if self.hook.pos.within(&self.fish[i].pos, self.hook.hook.catch_radius) {
                proof {
                    assert forall|j: int| 0 <= j < n implies !#[trigger] self.is_hooked(j) by {
                        if self.is_hooked(j) {
                            assert(exists|k: int| 0 <= k < self.fish@.len() && #[trigger] self.is_hooked(k));
                        }
                    }
                }
                self.hook.hook.hooked = true;
                let mut b = self.fish[i];
                b.fish.state.hooked = true;
                b.vel = Velocity { x: 0, y: 0 };
                b.hooked_by = Some(HookedBy(self.hook.id));
                self.fish.set(i, b);
                proof {
                    assert(self.is_hooked(i as int));
                    assert forall|j: int| 0 <= j < n && j != i implies !#[trigger] self.is_hooked(j) by {
                        assert(!old(self).is_hooked(j));
                    }
                    assert forall|j: int| 0 <= j < n implies (#[trigger] self.fish@[j]).fish.wf() by {
                        assert(old(self).fish@[j].fish.wf());
                    }
                    assert forall|j: int| 0 <= j < n implies (#[trigger] self.fish@[j]).id == old(self).fish@[j].id by {}
                }
                return Some(i);
            }
            i = i + 1;
        }
        None
    }
}


/// How close to the water line the hook must come to land its fish, in
/// thousandths of a unit.
pub const SURFACE_DIST: i64 = 100;

/// How far past the edge of the play area a fish may swim before it has
/// escaped, in thousandths of a unit.
pub const ESCAPE_LENIENCE: i64 = 1000;

/// A fish at horizontal position `x` has left a play area `game_width`
/// wide on each side.
pub open spec fn escaped_spec(x: int, game_width: int) -> bool {
    (if x < 0 { -x } else { x }) > game_width + ESCAPE_LENIENCE
}

/// The ids of the fish of `s` that have left a play area `game_width` wide
/// on each side, in order.
pub open spec fn escaped_ids(s: Seq<FishBody>, game_width: int) -> Seq<u64> {
    s.filter(|b: FishBody| escaped_spec(b.pos.x as int, game_width)).map_values(|b: FishBody| b.id)
}

/// The fish ids of a run of escape events.
pub open spec fn event_ids(s: Seq<FishEscapedEvent>) -> Seq<u64> {
    s.map_values(|e: FishEscapedEvent| e.entity)
}

/// True when a fish at horizontal position `x` has left the play area.
pub fn is_escaped(x: i64, game_width: i64) -> (r: bool)
    ensures
        r == escaped_spec(x as int, game_width as int),
{
    let ax: i128 = if x < 0 { -(x as i128) } else { x as i128 };
    ax > game_width as i128 + ESCAPE_LENIENCE as i128
}

impl World {
    /// The index of the hooked fish, when there is one.
    pub open spec fn hooked_index(&self) -> int {
        choose|k: int| 0 <= k < self.fish@.len() && #[trigger] self.is_hooked(k)
    }

    /// The hook holds a fish and has reached the water line.
    pub open spec fn extracts(&self, config: &Config) -> bool {
        self.hook.hook.hooked && self.hook.pos.y >= config.water_level - SURFACE_DIST
    }

    /// Lands the hooked fish once the hook reaches the water line: its
    /// score is added, the fish is gone, and the empty hook goes back to
    /// its start. Gives the points scored.
    pub fn check_extraction(&mut self, state: &mut GameState, config: &Config) -> (r: Option<u64>)
        requires
            old(self).wf(),
            old(state).fish_count == old(self).fish@.len(),
            old(self).extracts(config) ==> old(state).score
                + old(self).fish@[old(self).hooked_index()].fish.score_spec() <= u64::MAX,
        ensures
            final(self).wf(),
            final(state).fish_count == final(self).fish@.len(),
            !old(self).extracts(config) ==> r.is_none() && *final(self) == *old(self) && *final(state)
                == *old(state),
            old(self).extracts(config) ==> {
                let k = old(self).hooked_index();
                let points = old(self).fish@[k].fish.score_spec();
                &&& 0 <= k < old(self).fish@.len()
                &&& r == Some(points as u64)
                &&& final(state).score == old(state).score + points
                &&& final(state).stage == old(state).stage
                &&& final(state).started == old(state).started
                &&& final(self).fish@ == old(self).fish@.remove(k)
                &&& final(self).hook == (HookBody {
                    pos: Hook::start_pos_spec(config),
                    hook: Hook { hooked: false, ..old(self).hook.hook },
                    ..old(self).hook
                })
                &&& final(self).floor_y == old(self).floor_y
                &&& final(self).countdown == old(self).countdown
                &&& final(self).spawner == old(self).spawner
                &&& final(self).next_id == old(self).next_id
            },
    {
        if !self.hook.hook.hooked || (self.hook.pos.y as i128) < config.water_level as i128
            - SURFACE_DIST as i128 {
            return None;
        }
        let ghost k = self.hooked_index();
        let n = self.fish.len();
        let mut i: usize = 0;
        while i < n && !self.fish[i].fish.state.hooked
            invariant
                n == self.fish@.len(),
                0 <= i <= n,
                *self == *old(self),
                old(self).wf(),
                0 <= k < n,
                self.is_hooked(k),
                forall|j: int| 0 <= j < i ==> !#[trigger] self.is_hooked(j),
            decreases n - i,
        {
            i = i + 1;
        }
        proof {
            if i == n {
                assert(!self.is_hooked(k));
            }
            assert(self.is_hooked(i as int));
            assert(i == k);
            assert(old(self).is_hooked(k));
        }
        let b = self.fish.remove(i);
        let points = b.fish.get_score();
        state.score = state.score + points;
        state.fish_count = state.fish_count - 1;
        self.hook.pos = Position { x: 0, y: config.water_level };
        self.hook.hook.hooked = false;
        proof {
            lemma_remove_fish(*old(self), *self, k);
        }
        Some(points)
    }

    /// Ages every free fish by `delta` ms and gives an escape event for
    /// each fish that has left the play area, in order; escaped and hooked
    /// fish do not age.
    pub fn update_fish(&mut self, config: &Config, delta: u64) -> (r: Vec<FishEscapedEvent>)
        requires
            old(self).wf(),
            forall|i: int|
                0 <= i < old(self).fish@.len() ==> (#[trigger] old(self).fish@[i]).fish.state.age + delta
                    <= u64::MAX,
        ensures
            final(self).wf(),
            final(self).hook == old(self).hook,
            final(self).floor_y == old(self).floor_y,
            final(self).countdown == old(self).countdown,
            final(self).spawner == old(self).spawner,
            final(self).next_id == old(self).next_id,
            final(self).fish@.len() == old(self).fish@.len(),
            forall|i: int|
                0 <= i < final(self).fish@.len() ==> (#[trigger] final(self).fish@[i]) == if escaped_spec(
                    old(self).fish@[i].pos.x as int,
                    config.game_width as int,
                ) || old(self).fish@[i].fish.state.hooked {
                    old(self).fish@[i]
                } else {
                    FishBody {
                        fish: Fish {
                            state: FishState {
                                age: (old(self).fish@[i].fish.state.age + delta) as u64,
                                ..old(self).fish@[i].fish.state
                            },
                            ..old(self).fish@[i].fish
                        },
                        ..old(self).fish@[i]
                    }
                },
            event_ids(r@) == escaped_ids(
                old(self).fish@,
                config.game_width as int,
            ),
    {
        let ghost gw = config.game_width as int;
        let mut escaped: Vec<FishEscapedEvent> = Vec::new();
        let n = self.fish.len();
        let mut i: usize = 0;
        while i < n
            invariant
                n == self.fish@.len(),
                0 <= i <= n,
                old(self).wf(),
                gw == config.game_width as int,
                forall|j: int|
                    0 <= j < old(self).fish@.len() ==> (#[trigger] old(self).fish@[j]).fish.state.age
                        + delta <= u64::MAX,
                self.hook == old(self).hook,
                self.floor_y == old(self).floor_y,
                self.countdown == old(self).countdown,
                self.spawner == old(self).spawner,
                self.next_id == old(self).next_id,
                self.fish@.len() == old(self).fish@.len(),
                forall|j: int|
                    0 <= j < i ==> (#[trigger] self.fish@[j]) == if escaped_spec(
                        old(self).fish@[j].pos.x as int,
                        gw,
                    ) || old(self).fish@[j].fish.state.hooked {
                        old(self).fish@[j]
                    } else {
                        FishBody {
                            fish: Fish {
                                state: FishState {
                                    age: (old(self).fish@[j].fish.state.age + delta) as u64,
                                    ..old(self).fish@[j].fish.state
                                },
                                ..old(self).fish@[j].fish
                            },
                            ..old(self).fish@[j]
                        }
                    },
                forall|j: int| i <= j < n ==> (#[trigger] self.fish@[j]) == old(self).fish@[j],
                event_ids(escaped@) == escaped_ids(
                    old(self).fish@.subrange(0, i as int),
                    gw,
                ),
            decreases n - i,
        {
            let b = self.fish[i];
            let ghost before = escaped@;
            if is_escaped(b.pos.x, config.game_width) {
                escaped.push(FishEscapedEvent { entity: b.id });
            } else if !b.fish.state.hooked {
                let mut nb = b;
                nb.fish.state.age = b.fish.state.age + delta;
                self.fish.set(i, nb);
            }
            proof {
                let s0 = old(self).fish@.subrange(0, i as int);
                let s = old(self).fish@.subrange(0, i as int + 1);
                assert(s.drop_last() =~= s0);
                assert(s.last() == b);
                reveal(Seq::filter);
                let p = |c: FishBody| escaped_spec(c.pos.x as int, gw);
                assert(s.filter(p) == if p(b) {
                    s0.filter(p).push(b)
                } else {
                    s0.filter(p)
                });
                if p(b) {
                    assert(escaped@ == before.push(FishEscapedEvent { entity: b.id }));
                    assert(event_ids(escaped@) =~= event_ids(before).push(b.id));
                } else {
                    assert(escaped@ == before);
                }
                assert(event_ids(escaped@) =~= escaped_ids(s, gw));
            }
            i = i + 1;
        }
        proof {
            assert(old(self).fish@.subrange(0, n as int) =~= old(self).fish@);
            assert forall|j: int| 0 <= j < self.fish@.len() implies #[trigger] self.is_hooked(j)
                == old(self).is_hooked(j) by {}
            if self.hook.hook.hooked {
                let k = choose|k: int| 0 <= k < old(self).fish@.len() && #[trigger] old(self).is_hooked(k);
                assert(self.is_hooked(k));
            }
        }
        escaped
    }
}


/// Taking the fish at `k` out of a well-formed world leaves it well formed,
/// provided the hook is flagged hooked only if it still holds a fish.
proof fn lemma_remove_fish(before: World, after: World, k: int)
    requires
        before.wf(),
        0 <= k < before.fish@.len(),
        after.fish@ == before.fish@.remove(k),
        after.hook.id == before.hook.id,
        after.next_id == before.next_id,
        after.hook.hook.hooked == (before.hook.hook.hooked && !before.is_hooked(k)),
    ensures
        after.wf(),
{
    assert forall|j: int| 0 <= j < after.fish@.len() implies (#[trigger] after.fish@[j]) == before.fish@[
        if j < k { j } else { j + 1 }] by {}
    assert forall|a: int, c: int|
        0 <= a < after.fish@.len() && 0 <= c < after.fish@.len() && #[trigger] after.is_hooked(a)
            && #[trigger] after.is_hooked(c) implies a == c by {
        let a2 = if a < k { a } else { a + 1 };
        let c2 = if c < k { c } else { c + 1 };
        assert(before.is_hooked(a2) && before.is_hooked(c2));
    }
    assert forall|a: int, c: int|
        0 <= a < after.fish@.len() && 0 <= c < after.fish@.len() && a != c implies #[trigger] after.fish@[a].id
        != #[trigger] after.fish@[c].id by {
        let a2 = if a < k { a } else { a + 1 };
        let c2 = if c < k { c } else { c + 1 };
        assert(after.fish@[a] == before.fish@[a2]);
        assert(after.fish@[c] == before.fish@[c2]);
    }
    if after.hook.hook.hooked {
        let h = choose|h: int| 0 <= h < before.fish@.len() && #[trigger] before.is_hooked(h);
        assert(h != k);
        let h2 = if h < k { h } else { h - 1 };
        assert(after.fish@[h2] == before.fish@[h]);
        assert(after.is_hooked(h2));
    } else {
        assert forall|j: int| 0 <= j < after.fish@.len() implies !#[trigger] after.is_hooked(j) by {
            let j2 = if j < k { j } else { j + 1 };
            assert(after.fish@[j] == before.fish@[j2]);
            if before.is_hooked(j2) {
                if !before.is_hooked(k) {
                    assert(before.hook.hook.hooked);
                }
                assert(before.is_hooked(k));
            }
        }
    }
}

impl World {
    /// Some live fish has the id `id`.
    pub open spec fn has_id(&self, id: u64) -> bool {
        exists|k: int| 0 <= k < self.fish@.len() && #[trigger] self.fish@[k].id == id
    }

    /// The index of the live fish with the id `id`.
    pub open spec fn index_of(&self, id: u64) -> int {
        choose|k: int| 0 <= k < self.fish@.len() && #[trigger] self.fish@[k].id == id
    }

    /// Removes the escaped fish `id`, which counts as one fish fewer; when
    /// it was on the hook, the hook is empty again. Gives whether the hook
    /// lost its fish. An id of no live fish changes nothing.
    pub fn on_fish_escape(&mut self, state: &mut GameState, id: u64) -> (r: bool)
        requires
            old(self).wf(),
            old(state).fish_count == old(self).fish@.len(),
        ensures
            final(self).wf(),
            final(state).fish_count == final(self).fish@.len(),
            !old(self).has_id(id) ==> !r && *final(self) == *old(self) && *final(state) == *old(state),
            old(self).has_id(id) ==> {
                let k = old(self).index_of(id);
                &&& 0 <= k < old(self).fish@.len()
                &&& old(self).fish@[k].id == id
                &&& r == old(self).is_hooked(k)
                &&& final(self).fish@ == old(self).fish@.remove(k)
                &&& final(self).hook == (HookBody {
                    hook: Hook { hooked: old(self).hook.hook.hooked && !r, ..old(self).hook.hook },
                    ..old(self).hook
                })
                &&& final(self).floor_y == old(self).floor_y
                &&& final(self).countdown == old(self).countdown
                &&& final(self).spawner == old(self).spawner
                &&& final(self).next_id == old(self).next_id
                &&& *final(state) == (GameState { fish_count: (old(state).fish_count - 1) as u32, ..*old(state) })
            },
    {
        let n = self.fish.len();
        let mut i: usize = 0;
        while i < n && self.fish[i].id != id
            invariant
                n == self.fish@.len(),
                0 <= i <= n,
                *self == *old(self),
                forall|j: int| 0 <= j < i ==> (#[trigger] self.fish@[j]).id != id,
            decreases n - i,
        {
            i = i + 1;
        }
        if i == n {
            return false;
        }
        let ghost k = self.index_of(id);
        proof {
            assert(self.fish@[i as int].id == id);
            assert(self.has_id(id));
            assert(k == i);
        }
        let b = self.fish.remove(i);
        let lost = b.fish.state.hooked;
        if lost {
            self.hook.hook.hooked = false;
        }
        state.fish_count = state.fish_count - 1;
        proof {
            lemma_remove_fish(*old(self), *self, k);
        }
        lost
    }
}


impl World {
    /// The index of the fish on the hook, if any.
    pub fn find_hooked(&self) -> (r: Option<usize>)
        requires
            self.wf(),
        ensures
            r.is_some() == self.hook.hook.hooked,
            r matches Some(k) ==> k == self.hooked_index() && self.is_hooked(k as int) && k
                < self.fish@.len(),
    {
        let n = self.fish.len();
        let mut i: usize = 0;
        while i < n && !self.fish[i].fish.state.hooked
            invariant
                n == self.fish@.len(),
                0 <= i <= n,
                forall|j: int| 0 <= j < i ==> !#[trigger] self.is_hooked(j),
            decreases n - i,
        {
            i = i + 1;
        }
        if i == n {
            proof {
                if self.hook.hook.hooked {
                    let h = choose|h: int| 0 <= h < self.fish@.len() && #[trigger] self.is_hooked(h);
                    assert(!self.is_hooked(h));
                }
            }
            None
        } else {
            proof {
                assert(self.is_hooked(i as int));
                let h = self.hooked_index();
                assert(self.is_hooked(h));
            }
            Some(i)
        }
    }

    /// Sets the hook's velocity from this frame's input, between the water
    /// line and the floor; see `input_velocity_spec`.
    pub fn handle_input(&mut self, keys: Controls, config: &Config)
        requires
            old(self).wf(),
        ensures
            *final(self) == (World {
                hook: HookBody {
                    vel: input_velocity_spec(
                        old(self).hook.hook,
                        keys,
                        if old(self).hook.hook.hooked {
                            Some(old(self).fish@[old(self).hooked_index()].fish)
                        } else {
                            None
                        },
                        old(self).hook.pos.y as int,
                        config.water_level as int,
                        old(self).floor_y as int,
                    ),
                    ..old(self).hook
                },
                ..*old(self)
            }),
    {
        let hooked = self.find_hooked();
        let v = match hooked {
            Some(k) => self.hook.hook.input_velocity(
                keys,
                Some(&self.fish[k].fish),
                self.hook.pos.y,
                config.water_level,
                self.floor_y,
            ),
            None => self.hook.hook.input_velocity(
                keys,
                None,
                self.hook.pos.y,
                config.water_level,
                self.floor_y,
            ),
        };
        self.hook.vel = v;
    }

    /// One tick of the hooked fish's struggle, if a fish is hooked; see
    /// `Fish::struggle`.
    pub fn struggle(&mut self, delta: u64)
        requires
            old(self).wf(),
        ensures
            final(self).wf(),
            final(self).hook == old(self).hook,
            final(self).floor_y == old(self).floor_y,
            final(self).countdown == old(self).countdown,
            final(self).spawner == old(self).spawner,
            final(self).next_id == old(self).next_id,
            final(self).fish@.len() == old(self).fish@.len(),
            forall|i: int|
                0 <= i < old(self).fish@.len() && !old(self).is_hooked(i) ==> #[trigger] final(self).fish@[i]
                    == old(self).fish@[i],
            old(self).hook.hook.hooked ==> {
                let k = old(self).hooked_index();
                let before = old(self).fish@[k];
                let after = final(self).fish@[k];
                &&& after.id == before.id
                &&& after.pos == before.pos
                &&& after.vel == before.vel
                &&& after.hooked_by == before.hooked_by
                &&& after.fish.stats == before.fish.stats
                &&& after.fish.species == before.fish.species
                &&& after.fish.state.hooked
                &&& after.fish.state.age == before.fish.state.age
                &&& before.fish.state.timer.finished() ==> {
                    &&& after.fish.state.pulling != before.fish.state.pulling
                    &&& MIN_STRUGGLE <= after.fish.state.timer.duration <= MAX_STRUGGLE
                    &&& after.fish.state.timer.elapsed == if delta >= after.fish.state.timer.duration {
                        after.fish.state.timer.duration
                    } else {
                        delta
                    }
                }
                &&& !before.fish.state.timer.finished() ==> {
                    &&& after.fish.state.pulling == before.fish.state.pulling
                    &&& after.fish.state.timer.duration == before.fish.state.timer.duration
                    &&& after.fish.state.timer.elapsed == if before.fish.state.timer.elapsed + delta
                        >= before.fish.state.timer.duration {
                        before.fish.state.timer.duration
                    } else {
                        (before.fish.state.timer.elapsed + delta) as u64
                    }
                }
            },
    {
        match self.find_hooked() {
            Some(k) => {
                let mut b = self.fish[k];
                b.fish.struggle(delta);
                self.fish.set(k, b);
                proof {
                    assert forall|j: int| 0 <= j < self.fish@.len() implies #[trigger] self.is_hooked(j)
                        == old(self).is_hooked(j) by {}
                    assert(self.is_hooked(k as int));
                    assert forall|j: int| 0 <= j < self.fish@.len() implies (#[trigger] self.fish@[j]).fish.wf() by {
                        assert(old(self).fish@[j].fish.wf());
                    }
                    assert forall|j: int| 0 <= j < self.fish@.len() implies (#[trigger] self.fish@[j]).id == old(self).fish@[j].id by {}
                }
            },
            None => {},
        }
    }
}


/// The invariant depends on the hook's id and hooked flag, the fish and the
/// next id alone.
pub proof fn lemma_wf_frame(a: World, b: World)
    requires
        a.wf(),
        a.hook.id == b.hook.id,
        a.hook.hook.hooked == b.hook.hook.hooked,
        a.fish@ == b.fish@,
        a.next_id == b.next_id,
    ensures
        b.wf(),
{
    assert forall|j: int| 0 <= j < b.fish@.len() implies #[trigger] b.is_hooked(j) == a.is_hooked(j) by {}
    if b.hook.hook.hooked {
        let k = choose|k: int| 0 <= k < a.fish@.len() && #[trigger] a.is_hooked(k);
        assert(b.is_hooked(k));
    }
}


impl World {
    /// Runs the stage countdown on by `delta` ms while the game is on; when
    /// it runs out, the game is over (see `game_over_screen`). Gives whether the
    /// game ended on this tick.
    pub fn tick_countdown(&mut self, state: &mut GameState, delta: u64) -> (r: bool)
        requires
            old(self).wf(),
        ensures
            final(self).wf(),
            final(self).fish@.len() == old(self).fish@.len(),
            !old(state).started ==> !r && *final(self) == *old(self) && *final(state) == *old(state),
            old(state).started ==> {
                let elapsed = if old(self).countdown.timer.elapsed + delta
                    >= old(self).countdown.timer.duration {
                    old(self).countdown.timer.duration
                } else {
                    (old(self).countdown.timer.elapsed + delta) as u64
                };
                &&& final(self).countdown.timer == (Timer { elapsed, ..old(self).countdown.timer })
                &&& r == (elapsed >= old(self).countdown.timer.duration)
                &&& *final(state) == (GameState { started: !r, ..*old(state) })
                &&& final(self).hook == if r {
                    HookBody { vel: Velocity { x: 0, y: 0 }, ..old(self).hook }
                } else {
                    old(self).hook
                }
                &&& forall|i: int|
                    0 <= i < final(self).fish@.len() ==> (#[trigger] final(self).fish@[i]) == if r {
                        FishBody { vel: Velocity { x: 0, y: 0 }, ..old(self).fish@[i] }
                    } else {
                        old(self).fish@[i]
                    }
                &&& final(self).floor_y == old(self).floor_y
                &&& final(self).spawner == old(self).spawner
                &&& final(self).next_id == old(self).next_id
            },
    {
        if !state.started {
            return false;
        }
        let ghost w0 = *self;
        self.countdown.tick(delta);
        proof {
            lemma_wf_frame(w0, *self);
        }
        if self.countdown.timer.is_finished() {
            self.game_over_screen(state);
            true
        } else {
            false
        }
    }

    /// Moves on to the next stage: the counter goes up by one and the
    /// world is set up for the stage it now points to.
    pub fn advance_stage(&mut self, state: &mut GameState, config: &Config)
        requires
            old(self).wf(),
            old(state).stage < usize::MAX,
            config.wf(),
        ensures
            final(self).wf(),
            final(self).fish@.len() == 0,
            !final(self).hook.hook.hooked,
            final(state).stage == old(state).stage + 1,
            final(state).fish_count == 0,
            final(state).started == old(state).started,
            final(state).score == old(state).score,
            final(self).floor_y == World::floor_of(
                config,
                cur_stage_spec(config, old(state).started, old(state).stage + 1).water_depth,
            ),
            final(self).countdown.timer.duration == cur_stage_spec(
                config,
                old(state).started,
                old(state).stage + 1,
            ).time,
            final(self).countdown.timer.elapsed == 0,
            final(self).hook == (HookBody {
                hook: Hook { hooked: false, ..old(self).hook.hook },
                ..old(self).hook
            }),
            final(self).next_id == old(self).next_id,
            final(self).spawner == old(self).spawner,
    {
        state.next_stage();
        self.stage_transition(state, config);
    }
}


/// The entity id of the hook in a new world.
pub const HOOK_ID: u64 = 0;

/// How long a new world waits before its first spawn, in ms.
pub const FIRST_SPAWN_DELAY: u64 = 1000;

impl World {
    /// A world before the game starts: `hook`, empty, at its start, no fish,
    /// the floor of the stage in play for `state`, the countdown run out,
    /// and the first spawn due after `FIRST_SPAWN_DELAY`.
    pub fn new(hook: Hook, state: &GameState, config: &Config) -> (r: World)
        requires
            config.wf(),
        ensures
            r.wf(),
            r.hook == (HookBody {
                id: HOOK_ID,
                hook: Hook { hooked: false, ..hook },
                pos: Hook::start_pos_spec(config),
                vel: Velocity { x: 0, y: 0 },
            }),
            r.fish@.len() == 0,
            r.floor_y == World::floor_of(
                config,
                cur_stage_spec(config, state.started, state.stage as int).water_depth,
            ),
            r.countdown.timer == (Timer { duration: 0, elapsed: 0 }),
            r.spawner.timer == (Timer { duration: FIRST_SPAWN_DELAY, elapsed: 0 }),
            r.next_id == HOOK_ID + 1,
    {
        let stage = state.cur_stage(config);
        World {
            hook: HookBody {
                id: HOOK_ID,
                hook: Hook { hooked: false, ..hook },
                pos: Hook::start_pos(config),
                vel: Velocity { x: 0, y: 0 },
            },
            fish: Vec::new(),
            floor_y: config.water_level - stage.water_depth as i64,
            countdown: CountdownTimer::new(0),
            spawner: SpawnHandler { timer: Timer::new(FIRST_SPAWN_DELAY) },
            next_id: HOOK_ID + 1,
        }
    }

    /// Whether every body can move over `dt` ms; see `apply_velocity`.
    pub fn can_move(&self, dt: u64) -> (r: bool)
        ensures
            r == self.moves_fit(dt),
    {
        if !self.hook.pos.can_move(&self.hook.vel, dt) {
            return false;
        }
        let n = self.fish.len();
        let mut i: usize = 0;
        while i < n
            invariant
                n == self.fish@.len(),
                0 <= i <= n,
                moves_in_range(self.hook.pos, self.hook.vel, dt),
                forall|j: int|
                    0 <= j < i ==> moves_in_range(
                        (#[trigger] self.fish@[j]).pos,
                        self.fish@[j].vel,
                        dt,
                    ),
            decreases n - i,
        {
            if !self.fish[i].pos.can_move(&self.fish[i].vel, dt) {
                return false;
            }
            i = i + 1;
        }
        true
    }
}


/// A hook that holds a fish and has come within `SURFACE_DIST` of the
/// water line lands its fish: `check_extraction` then scores exactly that
/// fish, removes it, and puts the empty hook back at its start.
pub proof fn lemma_extraction_at_surface(world: World, config: &Config)
    requires
        world.wf(),
        world.hook.hook.hooked,
        config.water_level - SURFACE_DIST <= world.hook.pos.y,
    ensures
        world.extracts(config),
        0 <= world.hooked_index() < world.fish@.len(),
        world.is_hooked(world.hooked_index()),
{
    let k = choose|k: int| 0 <= k < world.fish@.len() && #[trigger] world.is_hooked(k);
    assert(world.is_hooked(k));
}

} // verus!
