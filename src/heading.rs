use vstd::prelude::*;

verus! {

/// The sign of a velocity component.
#[derive(Clone, Copy, Debug, PartialEq, Eq, Structural)]
pub enum Sign {
    Negative,
    Zero,
    Positive,
}

/// Which formula gives the heading angle for a horizontal velocity (vx, vy).
/// The four axis sectors have a fixed angle; the four quadrant sectors add
/// an arctangent term to a base angle.
#[derive(Clone, Copy, Debug, PartialEq, Eq, Structural)]
pub enum HeadingSector {
    /// vy = 0 and vx >= 0: heading 0.
    AlongPositiveX,
    /// vx = 0 and vy > 0: heading pi/2.
    AlongPositiveY,
    /// vy = 0 and vx < 0: heading pi.
    AlongNegativeX,
    /// vx = 0 and vy < 0: heading 3pi/2.
    AlongNegativeY,
    /// vx > 0 and vy > 0: atan(vy/vx).
    First,
    /// vx < 0 and vy > 0: pi/2 + atan(|vx/vy|).
    Second,
    /// vx < 0 and vy < 0: pi + atan(vy/vx).
    Third,
    /// vx > 0 and vy < 0: 3pi/2 + atan(|vx/vy|).
    Fourth,
}

impl Sign {
    /// Sign of an integer.
    pub open spec fn of_int(v: int) -> Sign {
        if v < 0 {
            Sign::Negative
        } else if v == 0 {
            Sign::Zero
        } else {
            Sign::Positive
        }
    }
}

/// The heading table, with its cases tried in order: vx >= 0 and vy = 0;
/// vx = 0 and vy > 0; vx <= 0 and vy = 0; vx = 0 and vy < 0; vx > 0 and
/// vy > 0; vx < 0 and vy > 0; vx < 0 and vy < 0; otherwise.
pub open spec fn sector_of(sx: Sign, sy: Sign) -> HeadingSector {
    if sx != Sign::Negative && sy == Sign::Zero {
        HeadingSector::AlongPositiveX
    } else if sx == Sign::Zero && sy == Sign::Positive {
        HeadingSector::AlongPositiveY
    } else if sx != Sign::Positive && sy == Sign::Zero {
        HeadingSector::AlongNegativeX
    } else if sx == Sign::Zero && sy == Sign::Negative {
        HeadingSector::AlongNegativeY
    } else if sx == Sign::Positive && sy == Sign::Positive {
        HeadingSector::First
    } else if sx == Sign::Negative && sy == Sign::Positive {
        HeadingSector::Second
    } else if sx == Sign::Negative && sy == Sign::Negative {
        HeadingSector::Third
    } else {
        HeadingSector::Fourth
    }
}

/// Base angle of a sector, in quarter turns (pi/2 each).
pub open spec fn base_quarter_turns(s: HeadingSector) -> nat {
    match s {
        HeadingSector::AlongPositiveX => 0,
        HeadingSector::First => 0,
        HeadingSector::AlongPositiveY => 1,
        HeadingSector::Second => 1,
        HeadingSector::AlongNegativeX => 2,
        HeadingSector::Third => 2,
        HeadingSector::AlongNegativeY => 3,
        HeadingSector::Fourth => 3,
    }
}

/// Whether the sector's heading has an arctangent term.
pub open spec fn has_arctangent(s: HeadingSector) -> bool {
    match s {
        HeadingSector::First | HeadingSector::Second | HeadingSector::Third
        | HeadingSector::Fourth => true,
        _ => false,
    }
}

/// Picks the heading formula for the signs of vx and vy.
pub fn heading_sector(sx: Sign, sy: Sign) -> (r: HeadingSector)
    ensures
        r == sector_of(sx, sy),
{
    match (sx, sy) {
        (Sign::Positive, Sign::Zero) | (Sign::Zero, Sign::Zero) => HeadingSector::AlongPositiveX,
        (Sign::Zero, Sign::Positive) => HeadingSector::AlongPositiveY,
        (Sign::Negative, Sign::Zero) => HeadingSector::AlongNegativeX,
        (Sign::Zero, Sign::Negative) => HeadingSector::AlongNegativeY,
        (Sign::Positive, Sign::Positive) => HeadingSector::First,
        (Sign::Negative, Sign::Positive) => HeadingSector::Second,
        (Sign::Negative, Sign::Negative) => HeadingSector::Third,
        (Sign::Positive, Sign::Negative) => HeadingSector::Fourth,
    }
}

impl HeadingSector {
    /// Base angle of this sector in quarter turns: the heading is this many
    /// times pi/2, plus the arctangent term where the sector has one.
    pub fn quarter_turns(&self) -> (r: u32)
        ensures
            r == base_quarter_turns(*self),
    {
        match self {
            HeadingSector::AlongPositiveX | HeadingSector::First => 0,
            HeadingSector::AlongPositiveY | HeadingSector::Second => 1,
            HeadingSector::AlongNegativeX | HeadingSector::Third => 2,
            HeadingSector::AlongNegativeY | HeadingSector::Fourth => 3,
        }
    }

    /// Whether the heading of this sector adds an arctangent term.
    pub fn adds_arctangent(&self) -> (r: bool)
        ensures
            r == has_arctangent(*self),
    {
        match self {
            HeadingSector::First | HeadingSector::Second | HeadingSector::Third
            | HeadingSector::Fourth => true,
            _ => false,
        }
    }
}

/// The table picks an axis sector exactly when one component is zero, and
/// the base angle is the quarter turn of the quadrant the velocity lies in:
/// 0 for vx > 0 and vy >= 0 (and for the zero vector), 1 for vx <= 0 and
/// vy > 0, 2 for vx < 0 and vy <= 0, 3 for vx >= 0 and vy < 0.
pub proof fn lemma_sector_quadrant(vx: int, vy: int)
    ensures
        has_arctangent(sector_of(Sign::of_int(vx), Sign::of_int(vy))) <==> (vx != 0 && vy != 0),
        base_quarter_turns(sector_of(Sign::of_int(vx), Sign::of_int(vy))) == (if vx >= 0 && vy
            == 0 {
            0nat
        } else if vx > 0 && vy > 0 {
            0nat
        } else if vx <= 0 && vy > 0 {
            1nat
        } else if vx < 0 && vy <= 0 {
            2nat
        } else {
            3nat
        }),
{
}

} // verus!
