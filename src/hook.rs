//! The player's hook and how input moves it.

use vstd::prelude::*;

use crate::fish::{tug_velocity, Fish};
use crate::config::Config;
use crate::physics::{Position, Velocity};

verus! {

/// The hook on the end of the line.
#[derive(Clone, Copy, Debug, PartialEq, Eq, Structural)]
pub struct Hook {
    /// Horizontal speed, in thousandths of a unit per second.
    pub speed: u32,
    /// Upward speed while reeling, in thousandths of a unit per second.
    pub reel_speed: u32,
    /// Sinking speed, in thousandths of a unit per second.
    pub density: u32,
    /// True while a fish is on the hook.
    pub hooked: bool,
    /// How close a fish must come to be caught, in thousandths of a unit.
    pub catch_radius: u32,
}

/// The inputs held down this frame.
#[derive(Clone, Copy, Debug, PartialEq, Eq, Structural)]
pub struct Controls {
    pub left: bool,
    pub right: bool,
    pub reel: bool,
}

/// The horizontal velocity that the keys alone ask for.
pub open spec fn key_velocity(hook: Hook, keys: Controls) -> int {
    (if keys.left { -(hook.speed as int) } else { 0 }) + (if keys.right { hook.speed as int } else { 0 })
}

/// The hook's velocity for the given keys, with `hooked` the fish on it, if
/// any, at height `y`, between the water line `upper` and the floor `lower`.
/// A hooked fish pulls sideways by the tug-of-war, and reeling is four
/// times as hard while steering. The hook reels up or sinks, and stops at
/// the water line going up and at the floor going down.
pub open spec fn input_velocity_spec(
    hook: Hook,
    keys: Controls,
    hooked: Option<Fish>,
    y: int,
    upper: int,
    lower: int,
) -> Velocity {
    let kx = key_velocity(hook, keys);
    let resistance = if hooked.is_some() && kx != 0 { 4int } else { 1int };
    let vx = match hooked {
        Some(f) => tug_velocity(f.state.pulling, kx, f.pull_speed_spec()),
        None => kx,
    };
    let vy = if keys.reel { (hook.reel_speed as int) / resistance } else { -(hook.density as int) };
    let vy = if y >= upper && vy > 0 {
        0
    } else if y <= lower && vy < 0 {
        0
    } else {
        vy
    };
    Velocity { x: vx as i64, y: vy as i64 }
}

impl Hook {
    /// The hook's resting place: the middle of the water line.
    pub open spec fn start_pos_spec(config: &Config) -> Position {
        Position { x: 0, y: config.water_level }
    }

    /// Where the hook rests: the middle of the water line.
    pub fn start_pos(config: &Config) -> (r: Position)
        ensures
            r == Hook::start_pos_spec(config),
    {
        Position { x: 0, y: config.water_level }
    }

    /// The hook's velocity for this frame's input; see `input_velocity_spec`.
    pub fn input_velocity(
        &self,
        keys: Controls,
        hooked: Option<&Fish>,
        y: i64,
        upper: i64,
        lower: i64,
    ) -> (r: Velocity)
        ensures
            r == input_velocity_spec(
                *self,
                keys,
                match hooked {
                    Some(f) => Some(*f),
                    None => None,
                },
                y as int,
                upper as int,
                lower as int,
            ),
    {
        let mut kx: i64 = 0;
        if keys.left {
            kx = kx - self.speed as i64;
        }
        if keys.right {
            kx = kx + self.speed as i64;
        }
        let mut resistance: u32 = 1;
        let mut vx = kx;
        match hooked {
            Some(f) => {
                if kx != 0 {
                    resistance = 4;
                }
                vx = f.get_hook_velocity(self, kx);
            },
            None => {},
        }
        let mut vy: i64 = if keys.reel {
            (self.reel_speed / resistance) as i64
        } else {
            -(self.density as i64)
        };
        if y >= upper && vy > 0 {
            vy = 0;
        } else if y <= lower && vy < 0 {
            vy = 0;
        }
        proof {
            match hooked {
                Some(f) => {
                    assert(-0x1_0000_0000_0000_0000 < tug_velocity(f.state.pulling, kx as int, f.pull_speed_spec())
                        < 0x1_0000_0000_0000_0000);
                },
                None => {},
            }
        }
        Velocity { x: vx, y: vy }
    }
}

} // verus!
