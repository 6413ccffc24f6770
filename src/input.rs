//! Keyboard snapshot, the intent vector derived from it, its normalisation,
//! and the "just pressed" edge of the fire key.
use vstd::prelude::*;

verus! {

/// Scale of a normalised direction: a unit vector has length
/// `DIRECTION_SCALE`.
pub const DIRECTION_SCALE: i64 = 1_000_000;

/// `DIRECTION_SCALE / sqrt(2)`, rounded to the nearest integer: each component
/// of a normalised diagonal direction.
pub const DIAGONAL_COMPONENT: i64 = 707_107;

/// Which of the movement keys are held this tick. Each logical direction has
/// two bindings: an arrow key and a letter key.
#[derive(Clone, Copy, Debug, PartialEq, Eq, Structural)]
pub struct HeldKeys {
    pub arrow_left: bool,
    pub key_a: bool,
    pub arrow_right: bool,
    pub key_d: bool,
    pub arrow_up: bool,
    pub key_w: bool,
    pub arrow_down: bool,
    pub key_s: bool,
}

impl HeldKeys {
    /// No key held.
    pub fn none() -> (r: HeldKeys)
        ensures
            !r.left(),
            !r.right(),
            !r.up(),
            !r.down(),
    {
        HeldKeys {
            arrow_left: false,
            key_a: false,
            arrow_right: false,
            key_d: false,
            arrow_up: false,
            key_w: false,
            arrow_down: false,
            key_s: false,
        }
    }

    pub open spec fn left(self) -> bool {
        self.arrow_left || self.key_a
    }

    pub open spec fn right(self) -> bool {
        self.arrow_right || self.key_d
    }

    pub open spec fn up(self) -> bool {
        self.arrow_up || self.key_w
    }

    pub open spec fn down(self) -> bool {
        self.arrow_down || self.key_s
    }
}

/// The desired movement of one tick, before normalisation: one step per axis,
/// right and up positive.
#[derive(Clone, Copy, Debug, PartialEq, Eq, Structural)]
pub struct Intent {
    pub x: i8,
    pub y: i8,
}

impl Intent {
    /// Each component is -1, 0 or 1.
    pub open spec fn wf(self) -> bool {
        -1 <= self.x <= 1 && -1 <= self.y <= 1
    }

    pub open spec fn is_zero(self) -> bool {
        self.x == 0 && self.y == 0
    }
}

/// A normalised direction, each component scaled by `DIRECTION_SCALE`.
#[derive(Clone, Copy, Debug, PartialEq, Eq, Structural)]
pub struct Direction {
    pub x: i64,
    pub y: i64,
}

impl Direction {
    /// No component is longer than a unit vector.
    pub open spec fn wf(self) -> bool {
        -DIRECTION_SCALE <= self.x <= DIRECTION_SCALE && -DIRECTION_SCALE <= self.y
            <= DIRECTION_SCALE
    }
}

pub open spec fn axis_of(neg: bool, pos: bool) -> int {
    (if pos { 1int } else { 0int }) - (if neg { 1int } else { 0int })
}

pub open spec fn intent_of(keys: HeldKeys) -> Intent {
    Intent {
        x: axis_of(keys.left(), keys.right()) as i8,
        y: axis_of(keys.down(), keys.up()) as i8,
    }
}

/// Sums the unit contributions of the four logical directions; opposite
/// directions cancel.
pub fn intent(keys: &HeldKeys) -> (r: Intent)
    ensures
        r == intent_of(*keys),
        r.wf(),
{
    let mut x: i8 = 0;
    let mut y: i8 = 0;
    if keys.arrow_left || keys.key_a {
        x = x - 1;
    }
    if keys.arrow_right || keys.key_d {
        x = x + 1;
    }
    if keys.arrow_up || keys.key_w {
        y = y + 1;
    }
    if keys.arrow_down || keys.key_s {
        y = y - 1;
    }
    Intent { x, y }
}

/// The normalised component along one axis of a well-formed intent.
pub open spec fn unit_component(c: int, other: int) -> int {
    if c == 0 {
        0
    } else if other == 0 {
        c * DIRECTION_SCALE
    } else {
        c * DIAGONAL_COMPONENT
    }
}

pub open spec fn direction_of(i: Intent) -> Direction {
    Direction {
        x: unit_component(i.x as int, i.y as int) as i64,
        y: unit_component(i.y as int, i.x as int) as i64,
    }
}

pub open spec fn squared_length(d: Direction) -> int {
    d.x * d.x + d.y * d.y
}

proof fn lemma_component_square(v: int)
    requires
        v == 0 || v == DIRECTION_SCALE || v == -DIRECTION_SCALE || v == DIAGONAL_COMPONENT || v
            == -DIAGONAL_COMPONENT,
    ensures
        v == 0 ==> v * v == 0,
        (v == DIRECTION_SCALE || v == -DIRECTION_SCALE) ==> v * v == 1_000_000_000_000,
        (v == DIAGONAL_COMPONENT || v == -DIAGONAL_COMPONENT) ==> v * v == 500_000_309_449,
{
    assert(v == 0 ==> v * v == 0) by (nonlinear_arith);
    assert((v == 1_000_000 || v == -1_000_000) ==> v * v == 1_000_000_000_000) by (nonlinear_arith);
    assert((v == 707_107 || v == -707_107) ==> v * v == 500_000_309_449) by (nonlinear_arith);
}

/// Normalises an intent to zero or unit length. The zero intent stays exactly
/// zero; any other intent has length `DIRECTION_SCALE` up to a relative error
/// of one in a million in its square.
pub fn normalize_or_zero(i: Intent) -> (r: Direction)
    requires
        i.wf(),
    ensures
        r == direction_of(i),
        r.wf(),
        i.is_zero() ==> r.x == 0 && r.y == 0,
        !i.is_zero() ==> DIRECTION_SCALE * DIRECTION_SCALE - DIRECTION_SCALE <= squared_length(r)
            <= DIRECTION_SCALE * DIRECTION_SCALE + DIRECTION_SCALE,
{
    let x: i64 = if i.x == 0 {
        0
    } else if i.y == 0 {
        i.x as i64 * DIRECTION_SCALE
    } else {
        i.x as i64 * DIAGONAL_COMPONENT
    };
    let y: i64 = if i.y == 0 {
        0
    } else if i.x == 0 {
        i.y as i64 * DIRECTION_SCALE
    } else {
        i.y as i64 * DIAGONAL_COMPONENT
    };
    proof {
        lemma_component_square(x as int);
        lemma_component_square(y as int);
    }
    Direction { x, y }
}

/// Whether a key counts as just pressed this frame: held now, not held at the
/// previous frame.
pub open spec fn rising_edge(was_held: bool, held: bool) -> bool {
    held && !was_held
}

/// Tracks one key across frames to tell a new press from a key kept held.
#[derive(Clone, Copy, Debug, PartialEq, Eq, Structural)]
pub struct KeyEdge {
    pub was_held: bool,
}

impl KeyEdge {
    /// A key that was not held before the first frame.
    pub fn new() -> (r: KeyEdge)
        ensures
            !r.was_held,
    {
        KeyEdge { was_held: false }
    }

    /// Records this frame's state of the key and says whether it was just
    /// pressed.
    pub fn update(&mut self, held: bool) -> (just_pressed: bool)
        ensures
            just_pressed == rising_edge(old(self).was_held, held),
            final(self).was_held == held,
    {
        let just_pressed = held && !self.was_held;
        self.was_held = held;
        just_pressed
    }
}

} // verus!
