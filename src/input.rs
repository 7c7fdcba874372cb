//! Keyboard control of the light position.
use vstd::prelude::*;

verus! {

/// The keys the light control reacts to; every other key is `Other`.
#[derive(Clone, Copy, Debug, PartialEq, Eq, Structural)]
pub enum Key {
    W,
    S,
    A,
    D,
    Q,
    E,
    R,
    Other,
}

/// A light position counted in half units along each axis: a key press moves
/// it by one step, half a unit.
#[derive(Clone, Copy, Debug, PartialEq, Eq, Structural)]
pub struct LightPosition {
    pub x_steps: i64,
    pub y_steps: i64,
    pub z_steps: i64,
}

/// The starting light position, (2, 3, 2) in units.
pub open spec fn home_spec() -> LightPosition {
    LightPosition { x_steps: 4, y_steps: 6, z_steps: 4 }
}

pub fn home_light_position() -> (p: LightPosition)
    ensures
        p == home_spec(),
{
    LightPosition { x_steps: 4, y_steps: 6, z_steps: 4 }
}

/// One step along an axis, held at the ends of the `i64` range.
pub open spec fn step_spec(v: i64, delta: int) -> i64 {
    if v + delta > i64::MAX {
        i64::MAX
    } else if v + delta < i64::MIN {
        i64::MIN
    } else {
        (v + delta) as i64
    }
}

fn step_up(v: i64) -> (r: i64)
    ensures
        r == step_spec(v, 1),
{
    if v == i64::MAX { v } else { v + 1 }
}

fn step_down(v: i64) -> (r: i64)
    ensures
        r == step_spec(v, -1),
{
    if v == i64::MIN { v } else { v - 1 }
}

/// Where a key moves the light: W/S along -z/+z, A/D along -x/+x, Q/E up and
/// down, R back home; `None` for a key the control ignores.
pub open spec fn key_spec(p: LightPosition, key: Key) -> Option<LightPosition> {
    match key {
        Key::W => Some(LightPosition { z_steps: step_spec(p.z_steps, -1), ..p }),
        Key::S => Some(LightPosition { z_steps: step_spec(p.z_steps, 1), ..p }),
        Key::A => Some(LightPosition { x_steps: step_spec(p.x_steps, -1), ..p }),
        Key::D => Some(LightPosition { x_steps: step_spec(p.x_steps, 1), ..p }),
        Key::Q => Some(LightPosition { y_steps: step_spec(p.y_steps, 1), ..p }),
        Key::E => Some(LightPosition { y_steps: step_spec(p.y_steps, -1), ..p }),
        Key::R => Some(home_spec()),
        Key::Other => None,
    }
}

/// Moves the light for a key press; returns whether the key was one of the
/// control's keys.
pub fn handle_key(pos: &mut LightPosition, key: Key) -> (handled: bool)
    ensures
        handled == key_spec(*old(pos), key).is_some(),
        handled ==> *final(pos) == key_spec(*old(pos), key).unwrap(),
        !handled ==> *final(pos) == *old(pos),
{
    match key {
        Key::W => pos.z_steps = step_down(pos.z_steps),
        Key::S => pos.z_steps = step_up(pos.z_steps),
        Key::A => pos.x_steps = step_down(pos.x_steps),
        Key::D => pos.x_steps = step_up(pos.x_steps),
        Key::Q => pos.y_steps = step_up(pos.y_steps),
        Key::E => pos.y_steps = step_down(pos.y_steps),
        Key::R => *pos = home_light_position(),
        Key::Other => return false,
    }
    true
}

} // verus!
