//! Fish species, per-fish stats and the behaviour derived from them.

use vstd::prelude::*;

use crate::hook::Hook;
use crate::random::random_fraction;
use crate::timer::Timer;
use crate::units::{lerp_u32, lerp_value, lemma_lerp_between, Inches, Ounces, FRAC_ONE};

verus! {

/// Which way a hooked fish is pulling.
#[derive(Clone, Copy, Debug, PartialEq, Eq, Structural)]
pub enum Direction {
    Left,
    Neutral,
    Right,
}

impl Direction {
    /// -1 for left, 0 for neutral, +1 for right.
    pub open spec fn sign(self) -> int {
        match self {
            Direction::Left => -1,
            Direction::Neutral => 0,
            Direction::Right => 1,
        }
    }

    /// The two directions other than this one, leftmost first.
    pub open spec fn others(self) -> (Direction, Direction) {
        match self {
            Direction::Left => (Direction::Neutral, Direction::Right),
            Direction::Neutral => (Direction::Left, Direction::Right),
            Direction::Right => (Direction::Left, Direction::Neutral),
        }
    }

    /// The two directions other than this one.
    pub fn different(&self) -> (r: (Direction, Direction))
        ensures
            r == self.others(),
            r.0 != *self,
            r.1 != *self,
            r.0 != r.1,
    {
        match self {
            Direction::Left => (Direction::Neutral, Direction::Right),
            Direction::Neutral => (Direction::Left, Direction::Right),
            Direction::Right => (Direction::Left, Direction::Neutral),
        }
    }

    /// The sign of this direction as an integer.
    pub fn signum(&self) -> (r: i64)
        ensures
            r == self.sign(),
    {
        match self {
            Direction::Left => -1,
            Direction::Neutral => 0,
            Direction::Right => 1,
        }
    }
}

/// Which way a fish faces, fixed when it spawns.
#[derive(Clone, Copy, Debug, PartialEq, Eq, Structural)]
pub enum Heading {
    Left,
    Right,
}

/// The stats of one fish, or the bounds of a species.
#[derive(Clone, Copy, Debug, PartialEq, Eq, Structural)]
pub struct FishStats {
    /// How hard the fish is to reel; the main factor of its score.
    pub weight: Ounces,
    /// Multiplies the weight in the score.
    pub length: Inches,
    /// How hard the fish is to wrangle sideways, in thousandths.
    pub strength: u32,
    /// How often the fish bobs, in thousandths.
    pub energy: u32,
    /// How far below the water line the fish spawns.
    pub depth: Inches,
    /// Which way the fish faces.
    pub heading: Heading,
}

impl FishStats {
    /// Each numeric stat of `self` lies between those of `lo` and `hi`.
    pub open spec fn within(self, lo: FishStats, hi: FishStats) -> bool {
        &&& lo.weight.0 <= self.weight.0 <= hi.weight.0
        &&& lo.length.0 <= self.length.0 <= hi.length.0
        &&& lo.strength <= self.strength <= hi.strength
        &&& lo.energy <= self.energy <= hi.energy
        &&& lo.depth.0 <= self.depth.0 <= hi.depth.0
    }
}

/// The changing state of one fish.
#[derive(Clone, Copy, Debug, PartialEq, Eq, Structural)]
pub struct FishState {
    /// True while the fish is on the hook.
    pub hooked: bool,
    /// Milliseconds since the fish spawned, counted while it swims free.
    pub age: u64,
    /// Which way the fish pulls while hooked.
    pub pulling: Direction,
    /// Time until the next change of pulling direction.
    pub timer: Timer,
}

impl FishState {
    pub open spec fn is_initial(self) -> bool {
        &&& !self.hooked
        &&& self.age == 0
        &&& self.pulling == Direction::Neutral
        &&& self.timer.duration == 0
        &&& self.timer.elapsed == 0
    }

}

impl Default for FishState {
    /// A free fish of age zero, pulling nowhere, due to struggle at once.
    fn default() -> (r: FishState)
        ensures
            r.is_initial(),
    {
        FishState { hooked: false, age: 0, pulling: Direction::Neutral, timer: Timer::new(0) }
    }
}

/// Shortest time between two changes of a hooked fish's direction, in ms.
pub const MIN_STRUGGLE: u64 = 80;

/// Longest time between two changes of a hooked fish's direction, in ms.
pub const MAX_STRUGGLE: u64 = 5000;

/// A kind of fish: the range of its stats and how they turn into behaviour.
#[derive(Clone, Copy, Debug, PartialEq, Eq, Structural)]
pub struct Species {
    /// The lowest stats of the species.
    pub base_stats: FishStats,
    /// The highest stats of the species.
    pub max_stats: FishStats,
    /// Horizontal speed per unit of strength above the base, in thousandths.
    pub strength_to_speed: u32,
    /// Score for any catch of this species.
    pub base_score: u32,
    /// Horizontal speed of the weakest fish, in thousandths of a unit per second.
    pub base_speed: u32,
    /// Bobbing amplitude per unit of strength above the base, in thousandths.
    pub strength_to_bobbing: u32,
    /// Pull on the hook per unit of strength, in thousandths.
    pub strength_to_hook: u32,
    /// Bobbing frequency per unit of energy above the base, in thousandths.
    pub energy_to_frequency: u32,
    /// Longest time a hooked fish keeps one direction, in ms.
    pub struggle_time: u64,
}

impl Species {
    /// The base stats are at most the max stats.
    pub open spec fn wf(self) -> bool {
        self.base_stats.within(self.base_stats, self.max_stats)
    }

    /// Largemouth bass.
    pub fn bass() -> (r: Species)
        ensures
            r.wf(),
            r == (Species {
                base_stats: FishStats {
                    weight: Ounces(6),
                    length: Inches(10),
                    strength: 5000,
                    energy: 1000,
                    depth: Inches(30),
                    heading: Heading::Left,
                },
                max_stats: FishStats {
                    weight: Ounces(165),
                    length: Inches(29),
                    strength: 10000,
                    energy: 1500,
                    depth: Inches(480),
                    heading: Heading::Left,
                },
                strength_to_speed: 3000,
                base_score: 100,
                base_speed: 3000,
                strength_to_bobbing: 2500,
                strength_to_hook: 10250,
                energy_to_frequency: 600,
                struggle_time: 2000,
            }),
    {
        Species {
            base_stats: FishStats {
                weight: Ounces(6),
                length: Inches(10),
                strength: 5000,
                energy: 1000,
                depth: Inches::from_ft_ins(2, 6),
                heading: Heading::Left,
            },
            max_stats: FishStats {
                weight: Ounces::from_lbs_ozs(10, 5),
                length: Inches(29),
                strength: 10000,
                energy: 1500,
                depth: Inches::from_ft_ins(40, 0),
                heading: Heading::Left,
            },
            strength_to_speed: 3000,
            base_score: 100,
            base_speed: 3000,
            strength_to_bobbing: 2500,
            strength_to_hook: 10250,
            energy_to_frequency: 600,
            struggle_time: 2000,
        }
    }
}

/// One fish: its species, its rolled stats and its state.
#[derive(Clone, Copy, Debug, PartialEq, Eq, Structural)]
pub struct Fish {
    pub stats: FishStats,
    pub species: Species,
    pub state: FishState,
}

/// The tug-of-war: the horizontal velocity of a hook moving at `v` with a
/// fish pulling towards `pull` with extra speed `pull_speed`.
pub open spec fn tug_velocity(pull: Direction, v: int, pull_speed: int) -> int {
    let speed = if v < 0 { -v } else { v };
    let hook_dir = if v < 0 { -1int } else if v > 0 { 1int } else { 0int };
    if pull.sign() == 0 {
        v
    } else if hook_dir == 0 || hook_dir == pull.sign() {
        pull.sign() * (speed + pull_speed)
    } else {
        0
    }
}

/// Largest hook velocity the tug-of-war takes, in either direction.
pub const MAX_HOOK_VELOCITY: i64 = 0x4000_0000_0000_0000;

impl Fish {
    /// A well-formed species, and strength and energy at least its base.
    pub open spec fn wf(self) -> bool {
        &&& self.species.wf()
        &&& self.species.base_stats.strength <= self.stats.strength
        &&& self.species.base_stats.energy <= self.stats.energy
    }

    pub open spec fn extra_strength_spec(self) -> int {
        self.stats.strength - self.species.base_stats.strength
    }

    pub open spec fn extra_energy_spec(self) -> int {
        self.stats.energy - self.species.base_stats.energy
    }

    pub open spec fn speed_spec(self) -> int {
        self.species.base_speed + self.extra_strength_spec() * self.species.strength_to_speed
            / 1000
    }

    pub open spec fn bobbing_spec(self) -> int {
        self.extra_strength_spec() * self.species.strength_to_bobbing / 1000
    }

    pub open spec fn frequency_spec(self) -> int {
        self.extra_energy_spec() * self.species.energy_to_frequency / 1000
    }

    pub open spec fn score_spec(self) -> int {
        self.species.base_score + self.stats.weight.0 * self.stats.length.0
    }

    pub open spec fn pull_speed_spec(self) -> int {
        self.species.strength_to_hook * self.stats.strength / 1000
    }

    fn extra_strength(&self) -> (r: u32)
        requires
            self.wf(),
        ensures
            r == self.extra_strength_spec(),
    {
        self.stats.strength - self.species.base_stats.strength
    }

    fn extra_energy(&self) -> (r: u32)
        requires
            self.wf(),
        ensures
            r == self.extra_energy_spec(),
    {
        self.stats.energy - self.species.base_stats.energy
    }

    /// Horizontal swimming speed, in thousandths of a unit per second.
    pub fn get_speed(&self) -> (r: u64)
        requires
            self.wf(),
        ensures
            r == self.speed_spec(),
    {
        let e = self.extra_strength() as u64;
        proof {
            assert(e * (self.species.strength_to_speed as u64) <= 0xffff_ffff * 0xffff_ffff)
                by (nonlinear_arith)
                requires
                    e <= 0xffff_ffff,
                    self.species.strength_to_speed <= 0xffff_ffff,
            ;
        }
        self.species.base_speed as u64 + e * self.species.strength_to_speed as u64 / 1000
    }

    /// Amplitude of the vertical bobbing, in thousandths of a unit per second.
    pub fn get_bobbing(&self) -> (r: u64)
        requires
            self.wf(),
        ensures
            r == self.bobbing_spec(),
    {
        let e = self.extra_strength() as u64;
        proof {
            assert(e * (self.species.strength_to_bobbing as u64) <= 0xffff_ffff * 0xffff_ffff)
                by (nonlinear_arith)
                requires
                    e <= 0xffff_ffff,
                    self.species.strength_to_bobbing <= 0xffff_ffff,
            ;
        }
        e * self.species.strength_to_bobbing as u64 / 1000
    }

    /// Bobbing frequency in thousandths of a cycle per second; the angular
    /// frequency is 2π times this.
    pub fn get_frequency(&self) -> (r: u64)
        requires
            self.wf(),
        ensures
            r == self.frequency_spec(),
    {
        let e = self.extra_energy() as u64;
        proof {
            assert(e * (self.species.energy_to_frequency as u64) <= 0xffff_ffff * 0xffff_ffff)
                by (nonlinear_arith)
                requires
                    e <= 0xffff_ffff,
                    self.species.energy_to_frequency <= 0xffff_ffff,
            ;
        }
        e * self.species.energy_to_frequency as u64 / 1000
    }

    /// Points for extracting this fish: the species' base score plus weight
    /// times length.
    pub fn get_score(&self) -> (r: u64)
        ensures
            r == self.score_spec(),
    {
        let w = self.stats.weight.0 as u64;
        let l = self.stats.length.0 as u64;
        proof {
            assert(w * l <= 0xffff_ffff * 0xffff_ffff) by (nonlinear_arith)
                requires
                    w <= 0xffff_ffff,
                    l <= 0xffff_ffff,
            ;
        }
        self.species.base_score as u64 + w * l
    }

    /// The hook's horizontal velocity once this fish, hooked, pulls on it.
    /// A fish pulling nowhere leaves it as it is; one pulling the way the
    /// hook moves, or on a still hook, adds its pull; one pulling against
    /// the hook stops it.
    pub fn get_hook_velocity(&self, hook: &Hook, hook_velocity: i64) -> (r: i64)
        requires
            -MAX_HOOK_VELOCITY <= hook_velocity <= MAX_HOOK_VELOCITY,
        ensures
            r == tug_velocity(self.state.pulling, hook_velocity as int, self.pull_speed_spec()),
    {
        let s = self.species.strength_to_hook as u64;
        let t = self.stats.strength as u64;
        proof {
            assert(s * t <= 0xffff_ffff * 0xffff_ffff) by (nonlinear_arith)
                requires
                    s <= 0xffff_ffff,
                    t <= 0xffff_ffff,
            ;
        }
        let pull = (s * t / 1000) as i64;
        let hook_speed: i64 = if hook_velocity < 0 { -hook_velocity } else { hook_velocity };
        let hook_direction: i64 = if hook_velocity < 0 {
            -1
        } else if hook_velocity > 0 {
            1
        } else {
            0
        };
        let fish_direction = self.state.pulling.signum();
        if fish_direction == 0 {
            hook_velocity
        } else if hook_direction == 0 || hook_direction == fish_direction {
            fish_direction * (hook_speed + pull)
        } else {
            0
        }
    }
}


impl Fish {
    /// The fish that the given draws (fractions in parts per million) give:
    /// each stat interpolated from the species' base to its max, and the
    /// fish facing left when the last draw is at least one half.
    pub open spec fn rolled(
        species: Species,
        w_weight: nat,
        w_length: nat,
        w_strength: nat,
        w_energy: nat,
        w_depth: nat,
        roll_heading: nat,
    ) -> FishStats {
        let lo = species.base_stats;
        let hi = species.max_stats;
        FishStats {
            weight: Ounces(lerp_value(lo.weight.0 as nat, hi.weight.0 as nat, w_weight) as u32),
            length: Inches(lerp_value(lo.length.0 as nat, hi.length.0 as nat, w_length) as u32),
            strength: lerp_value(lo.strength as nat, hi.strength as nat, w_strength) as u32,
            energy: lerp_value(lo.energy as nat, hi.energy as nat, w_energy) as u32,
            depth: Inches(lerp_value(lo.depth.0 as nat, hi.depth.0 as nat, w_depth) as u32),
            heading: if roll_heading >= FRAC_ONE / 2 {
                Heading::Left
            } else {
                Heading::Right
            },
        }
    }

    /// A new fish of `species` from the given draws, in its initial state.
    pub fn from_rolls(
        species: &Species,
        w_weight: u32,
        w_length: u32,
        w_strength: u32,
        w_energy: u32,
        w_depth: u32,
        roll_heading: u32,
    ) -> (r: Fish)
        requires
            species.wf(),
            w_weight <= FRAC_ONE,
            w_length <= FRAC_ONE,
            w_strength <= FRAC_ONE,
            w_energy <= FRAC_ONE,
            w_depth <= FRAC_ONE,
        ensures
            r.species == *species,
            r.stats == Fish::rolled(
                *species,
                w_weight as nat,
                w_length as nat,
                w_strength as nat,
                w_energy as nat,
                w_depth as nat,
                roll_heading as nat,
            ),
            r.stats.within(species.base_stats, species.max_stats),
            r.state.is_initial(),
            r.wf(),
    {
        let lo = &species.base_stats;
        let hi = &species.max_stats;
        proof {
            lemma_lerp_between(lo.weight.0 as nat, hi.weight.0 as nat, w_weight as nat);
            lemma_lerp_between(lo.length.0 as nat, hi.length.0 as nat, w_length as nat);
            lemma_lerp_between(lo.strength as nat, hi.strength as nat, w_strength as nat);
            lemma_lerp_between(lo.energy as nat, hi.energy as nat, w_energy as nat);
            lemma_lerp_between(lo.depth.0 as nat, hi.depth.0 as nat, w_depth as nat);
        }
        let stats = FishStats {
            weight: lo.weight.lerp(&hi.weight, w_weight),
            length: lo.length.lerp(&hi.length, w_length),
            strength: lerp_u32(lo.strength, hi.strength, w_strength),
            energy: lerp_u32(lo.energy, hi.energy, w_energy),
            depth: lo.depth.lerp(&hi.depth, w_depth),
            heading: if roll_heading >= FRAC_ONE / 2 {
                Heading::Left
            } else {
                Heading::Right
            },
        };
        Fish { stats, species: *species, state: FishState::default() }
    }

    /// A new fish of `species` with randomly rolled stats: each stat lies
    /// between the species' base and max.
    pub fn new(species: &Species) -> (r: Fish)
        requires
            species.wf(),
        ensures
            r.species == *species,
            r.stats.within(species.base_stats, species.max_stats),
            r.state.is_initial(),
            r.wf(),
    {
        let w_weight = random_fraction();
        let w_length = random_fraction();
        let w_strength = random_fraction();
        let w_energy = random_fraction();
        let w_depth = random_fraction();
        let roll_heading = random_fraction();
        Fish::from_rolls(species, w_weight, w_length, w_strength, w_energy, w_depth, roll_heading)
    }
}

/// The depth a fish of `species` rolled at `depth` spawns at when the floor
/// lies `floor_depth` below the water: unchanged above the floor, else
/// re-rolled at `w` of the way from the species' base depth to the floor.
pub open spec fn floor_depth_spec(species: Species, depth: nat, floor_depth: nat, w: nat) -> nat {
    if depth > floor_depth {
        lerp_value(species.base_stats.depth.0 as nat, floor_depth, w)
    } else {
        depth
    }
}

/// Re-rolls `depth` against the floor, with the draw `w` (parts per million).
pub fn depth_within_floor(species: &Species, depth: Inches, floor_depth: u32, w: u32) -> (r: Inches)
    requires
        w <= FRAC_ONE,
    ensures
        r.0 == floor_depth_spec(*species, depth.0 as nat, floor_depth as nat, w as nat),
        species.base_stats.depth.0 <= floor_depth ==> r.0 <= floor_depth,
{
    proof {
        lemma_lerp_between(species.base_stats.depth.0 as nat, floor_depth as nat, w as nat);
    }
    if depth.0 > floor_depth {
        species.base_stats.depth.lerp(&Inches(floor_depth), w)
    } else {
        depth
    }
}

/// The struggle interval for a species: `w` of its struggle time, clamped
/// to the shortest and longest struggle.
pub open spec fn struggle_interval_spec(species: Species, w: nat) -> int {
    let t = (species.struggle_time as int) * (w as int) / (FRAC_ONE as int);
    if t < MIN_STRUGGLE {
        MIN_STRUGGLE as int
    } else if t > MAX_STRUGGLE {
        MAX_STRUGGLE as int
    } else {
        t
    }
}

/// The pulling direction that a struggle from `from` gives with the draw
/// `w`: the first of the two other directions when `w` is at least one half.
pub open spec fn struggle_direction_spec(from: Direction, w: nat) -> Direction {
    if w >= FRAC_ONE / 2 {
        from.others().0
    } else {
        from.others().1
    }
}

impl Fish {
    /// One tick of a hooked fish's struggle, with the draws `w_interval`
    /// and `w_direction`: when its timer has run out it gets a new interval
    /// and pulls a different way; then the timer advances by `delta` ms.
    pub fn struggle_with(&mut self, delta: u64, w_interval: u32, w_direction: u32)
        requires
            w_interval <= FRAC_ONE,
        ensures
            final(self).stats == old(self).stats,
            final(self).species == old(self).species,
            final(self).state.hooked == old(self).state.hooked,
            final(self).state.age == old(self).state.age,
            old(self).state.timer.finished() ==> {
                &&& final(self).state.pulling != old(self).state.pulling
                &&& final(self).state.pulling == struggle_direction_spec(
                    old(self).state.pulling,
                    w_direction as nat,
                )
                &&& final(self).state.timer.duration == struggle_interval_spec(
                    old(self).species,
                    w_interval as nat,
                )
                &&& final(self).state.timer.elapsed == if delta
                    >= final(self).state.timer.duration {
                    final(self).state.timer.duration
                } else {
                    delta
                }
            },
            !old(self).state.timer.finished() ==> {
                &&& final(self).state.pulling == old(self).state.pulling
                &&& final(self).state.timer.duration == old(self).state.timer.duration
                &&& final(self).state.timer.elapsed == if old(self).state.timer.elapsed + delta
                    >= old(self).state.timer.duration {
                    old(self).state.timer.duration
                } else {
                    (old(self).state.timer.elapsed + delta) as u64
                }
            },
    {
        if self.state.timer.is_finished() {
            proof {
                assert(self.species.struggle_time as u128 * w_interval as u128 <= 0xffff_ffff_ffff_ffff
                    * 0xffff_ffff) by (nonlinear_arith)
                    requires
                        self.species.struggle_time <= 0xffff_ffff_ffff_ffff,
                        w_interval <= 0xffff_ffff,
                ;
            }
            let t = self.species.struggle_time as u128 * w_interval as u128 / FRAC_ONE as u128;
            proof {
                let st = self.species.struggle_time as int;
                assert(st * (w_interval as int) / (FRAC_ONE as int) <= st) by (nonlinear_arith)
                    requires
                        w_interval <= FRAC_ONE,
                        st >= 0,
                ;
            }
            let interval: u64 = if t < MIN_STRUGGLE as u128 {
                MIN_STRUGGLE
            } else if t > MAX_STRUGGLE as u128 {
                MAX_STRUGGLE
            } else {
                t as u64
            };
            self.state.timer = Timer::new(interval);
            let diff = self.state.pulling.different();
            self.state.pulling = if w_direction >= FRAC_ONE / 2 {
                diff.0
            } else {
                diff.1
            };
        }
        self.state.timer.tick(delta);
    }

    /// One tick of a hooked fish's struggle with fresh random draws: when
    /// its timer has run out it pulls a different way than before.
    pub fn struggle(&mut self, delta: u64)
        ensures
            final(self).stats == old(self).stats,
            final(self).species == old(self).species,
            final(self).state.hooked == old(self).state.hooked,
            final(self).state.age == old(self).state.age,
            old(self).state.timer.finished() ==> {
                &&& final(self).state.pulling != old(self).state.pulling
                &&& MIN_STRUGGLE <= final(self).state.timer.duration <= MAX_STRUGGLE
                &&& final(self).state.timer.elapsed == if delta >= final(self).state.timer.duration {
                    final(self).state.timer.duration
                } else {
                    delta
                }
            },
            !old(self).state.timer.finished() ==> {
                &&& final(self).state.pulling == old(self).state.pulling
                &&& final(self).state.timer.duration == old(self).state.timer.duration
                &&& final(self).state.timer.elapsed == if old(self).state.timer.elapsed + delta
                    >= old(self).state.timer.duration {
                    old(self).state.timer.duration
                } else {
                    (old(self).state.timer.elapsed + delta) as u64
                }
            },
    {
        let w_interval = random_fraction();
        let w_direction = random_fraction();
        self.struggle_with(delta, w_interval, w_direction);
    }
}


impl Fish {
    /// How far through its bobbing cycle a free fish is, in parts per
    /// million of a cycle: its age in seconds times its frequency, less
    /// whole cycles. Its vertical velocity is the bobbing amplitude times the
    /// cosine of 2π times this.
    pub fn bob_phase(&self) -> (r: u32)
        requires
            self.wf(),
        ensures
            r == (self.state.age as int * self.frequency_spec()) % (FRAC_ONE as int),
            r < FRAC_ONE,
    {
        let f = self.get_frequency();
        proof {
            let e = self.extra_energy_spec();
            let c = self.species.energy_to_frequency as int;
            assert(e * c <= 0xffff_ffff * 0xffff_ffff) by (nonlinear_arith)
                requires
                    0 <= e <= 0xffff_ffff,
                    0 <= c <= 0xffff_ffff,
            ;
            assert(f <= 0xffff_ffff_ffff_ffff);
            assert((self.state.age as int) * (f as int) <= 0xffff_ffff_ffff_ffff * 0xffff_ffff_ffff_ffff)
                by (nonlinear_arith)
                requires
                    0 <= self.state.age <= 0xffff_ffff_ffff_ffff,
                    0 <= f <= 0xffff_ffff_ffff_ffff,
            ;
        }
        ((self.state.age as u128 * f as u128) % FRAC_ONE as u128) as u32
    }
}

} // verus!
