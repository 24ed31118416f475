use vstd::prelude::*;

verus! {

/// The sign of a coordinate.
#[derive(Clone, Copy, Debug, PartialEq, Eq, Structural)]
pub enum Sign {
    Negative,
    Zero,
    Positive,
}

/// Whether a sprite is mirrored after a horizontal move of sign `x`:
/// mirrored when moving left, not when moving right, unchanged otherwise.
pub open spec fn flip_after(flip: bool, x: Sign) -> bool {
    match x {
        Sign::Negative => true,
        Sign::Positive => false,
        Sign::Zero => flip,
    }
}

pub fn facing_flip(flip: bool, x: Sign) -> (r: bool)
    ensures
        r == flip_after(flip, x),
{
    match x {
        Sign::Negative => true,
        Sign::Positive => false,
        Sign::Zero => flip,
    }
}

/// Which horizontal sign decides how a chaser faces: that of the target's
/// own position, or that of the offset from the chaser to the target.
#[derive(Clone, Copy, Debug, PartialEq, Eq, Structural)]
pub enum FacingPolicy {
    TargetPosition,
    RelativeOffset,
}

/// Whether a chaser's sprite is mirrored after a tick, given the sign of
/// the target's x coordinate and the sign of the target's x offset from the
/// chaser.
pub fn chaser_flip(policy: FacingPolicy, flip: bool, target_x: Sign, offset_x: Sign) -> (r: bool)
    ensures
        r == flip_after(
            flip,
            match policy {
                FacingPolicy::TargetPosition => target_x,
                FacingPolicy::RelativeOffset => offset_x,
            },
        ),
{
    match policy {
        FacingPolicy::TargetPosition => facing_flip(flip, target_x),
        FacingPolicy::RelativeOffset => facing_flip(flip, offset_x),
    }
}

/// The unnormalised direction that four held movement keys ask for:
/// right minus left across, up minus down along.
pub fn key_direction(up: bool, left: bool, down: bool, right: bool) -> (r: (i8, i8))
    ensures
        r.0 == (if right { 1int } else { 0int }) - (if left { 1int } else { 0int }),
        r.1 == (if up { 1int } else { 0int }) - (if down { 1int } else { 0int }),
{
    let mut x: i8 = 0;
    let mut y: i8 = 0;
    if up {
        y = y + 1;
    }
    if left {
        x = x - 1;
    }
    if down {
        y = y - 1;
    }
    if right {
        x = x + 1;
    }
    (x, y)
}

/// The sign of a small integer.
pub fn sign_of(v: i8) -> (r: Sign)
    ensures
        r == (if v < 0 {
            Sign::Negative
        } else if v > 0 {
            Sign::Positive
        } else {
            Sign::Zero
        }),
{
    if v < 0 {
        Sign::Negative
    } else if v > 0 {
        Sign::Positive
    } else {
        Sign::Zero
    }
}

/// Whether the player's sprite is mirrored after the keys are read.
pub fn player_flip(flip: bool, up: bool, left: bool, down: bool, right: bool) -> (r: bool)
    ensures
        r == (if left && !right {
            true
        } else if right && !left {
            false
        } else {
            flip
        }),
{
    let (x, _y) = key_direction(up, left, down, right);
    facing_flip(flip, sign_of(x))
}

/// The side on which a tower is placed next to the player: +1 (right) when
/// the player has the default orientation, -1 (left) otherwise.
pub fn tower_side(default_orientation: bool) -> (r: i8)
    ensures
        r == (if default_orientation { 1int } else { -1int }),
{
    if default_orientation { 1 } else { -1 }
}

} // verus!
