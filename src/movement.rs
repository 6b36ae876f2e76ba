//! Movement intent of a first-person camera: on each of three axes relative
//! to where the camera faces, at most one direction.

use crate::delta_time::DeltaTime;
use crate::input::InputState;
use vstd::prelude::*;

verus! {

/// Along the facing direction.
#[derive(Debug, Clone, Copy, PartialEq, Eq, Structural)]
pub enum Surge {
    Forward,
    Backward,
}

/// Sideways, across the facing direction.
#[derive(Debug, Clone, Copy, PartialEq, Eq, Structural)]
pub enum Sway {
    Left,
    Right,
}

/// Along the world's up direction.
#[derive(Debug, Clone, Copy, PartialEq, Eq, Structural)]
pub enum Heave {
    Up,
    Down,
}

/// One direction or none on each axis: the translation asked for in a frame.
#[derive(Debug, Clone, Copy, PartialEq, Eq, Structural)]
pub struct TranslationalMovement {
    pub surge: Option<Surge>,
    pub sway: Option<Sway>,
    pub heave: Option<Heave>,
}

/// The direction picked by two opposing controls: the one held alone, and
/// none where both or neither are held.
pub open spec fn pick<D>(first: bool, second: bool, a: D, b: D) -> Option<D> {
    if first && !second {
        Some(a)
    } else if second && !first {
        Some(b)
    } else {
        None
    }
}

impl Surge {
    pub fn from_keys(forward: bool, backward: bool) -> (r: Option<Surge>)
        ensures
            r == pick(forward, backward, Surge::Forward, Surge::Backward),
    {
        match (forward, backward) {
            (true, false) => Some(Surge::Forward),
            (false, true) => Some(Surge::Backward),
            _ => None,
        }
    }
}

impl Sway {
    pub fn from_keys(left: bool, right: bool) -> (r: Option<Sway>)
        ensures
            r == pick(left, right, Sway::Left, Sway::Right),
    {
        match (left, right) {
            (true, false) => Some(Sway::Left),
            (false, true) => Some(Sway::Right),
            _ => None,
        }
    }
}

impl Heave {
    pub fn from_keys(up: bool, down: bool) -> (r: Option<Heave>)
        ensures
            r == pick(up, down, Heave::Up, Heave::Down),
    {
        match (up, down) {
            (true, false) => Some(Heave::Up),
            (false, true) => Some(Heave::Down),
            _ => None,
        }
    }
}

/// The keys bound to each direction of movement.
#[derive(Debug, Clone, Copy, PartialEq, Eq, Structural)]
pub struct MovementKeys {
    pub forward: u32,
    pub backward: u32,
    pub left: u32,
    pub right: u32,
    pub up: u32,
    pub down: u32,
}

/// Signed unit along an axis: `1` toward the first-named positive direction,
/// `-1` toward the opposite one, `0` for none.
pub open spec fn axis_sign<D>(d: Option<D>, positive: D) -> int {
    match d {
        None => 0,
        Some(x) => if x == positive {
            1
        } else {
            -1
        },
    }
}

impl TranslationalMovement {
    /// The movement that the held keys ask for.
    pub open spec fn spec_from_pressed(pressed: Set<u32>, keys: MovementKeys) -> Self {
        TranslationalMovement {
            surge: pick(
                pressed.contains(keys.forward),
                pressed.contains(keys.backward),
                Surge::Forward,
                Surge::Backward,
            ),
            sway: pick(pressed.contains(keys.left), pressed.contains(keys.right), Sway::Left, Sway::Right),
            heave: pick(pressed.contains(keys.up), pressed.contains(keys.down), Heave::Up, Heave::Down),
        }
    }

    /// No direction on any axis.
    pub open spec fn spec_is_still(self) -> bool {
        self.surge is None && self.sway is None && self.heave is None
    }

    pub fn from_input<P: Copy>(input: &InputState<P>, keys: &MovementKeys) -> (r: Self)
        ensures
            r == Self::spec_from_pressed(input@.pressed, *keys),
    {
        let surge = Surge::from_keys(input.is_key_pressed(keys.forward), input.is_key_pressed(keys.backward));
        let sway = Sway::from_keys(input.is_key_pressed(keys.left), input.is_key_pressed(keys.right));
        let heave = Heave::from_keys(input.is_key_pressed(keys.up), input.is_key_pressed(keys.down));
        TranslationalMovement { surge, sway, heave }
    }

    /// Whether the movement asks for no translation at all; a camera then
    /// keeps its position as it is.
    pub fn is_still(&self) -> (r: bool)
        ensures
            r == self.spec_is_still(),
    {
        self.surge.is_none() && self.sway.is_none() && self.heave.is_none()
    }

    /// Whether the movement has a part in the horizontal plane.
    pub fn is_horizontal(&self) -> (r: bool)
        ensures
            r == (self.surge is Some || self.sway is Some),
    {
        self.surge.is_some() || self.sway.is_some()
    }

    /// `1` forward, `-1` backward, `0` neither.
    pub fn surge_sign(&self) -> (r: i8)
        ensures
            r == axis_sign(self.surge, Surge::Forward),
    {
        match self.surge {
            None => 0,
            Some(Surge::Forward) => 1,
            Some(Surge::Backward) => -1,
        }
    }

    /// `1` right, `-1` left, `0` neither.
    pub fn sway_sign(&self) -> (r: i8)
        ensures
            r == axis_sign(self.sway, Sway::Right),
    {
        match self.sway {
            None => 0,
            Some(Sway::Right) => 1,
            Some(Sway::Left) => -1,
        }
    }

    /// `1` up, `-1` down, `0` neither.
    pub fn heave_sign(&self) -> (r: i8)
        ensures
            r == axis_sign(self.heave, Heave::Up),
    {
        match self.heave {
            None => 0,
            Some(Heave::Up) => 1,
            Some(Heave::Down) => -1,
        }
    }
}

/// The translation of one frame: the movement that the held keys ask for and
/// the time since the previous frame in nanoseconds. There is none on the
/// first frame, which has no previous one to measure from.
pub fn movement_for_frame<P: Copy>(
    time: &DeltaTime,
    input: &InputState<P>,
    keys: &MovementKeys,
) -> (r: Option<(TranslationalMovement, u64)>)
    ensures
        r == (match time.last_delta() {
            None => None,
            Some(d) => Some((TranslationalMovement::spec_from_pressed(input@.pressed, *keys), d)),
        }),
{
    match time.delta() {
        None => None,
        Some(d) => Some((TranslationalMovement::from_input(input, keys), d)),
    }
}

} // verus!
