use vstd::prelude::*;
use crate::sign::Sign;

verus! {

/// Which side of a border the simulation box lies on. An `Inner` border closes
/// the box at its far side (right or top), an `Outer` border at its near side
/// (left or bottom).
#[derive(Clone, Copy, PartialEq, Eq, Debug, Structural)]
pub enum BorderType {
    Inner,
    Outer,
}

/// A border is the line `a * x + b * y = c`. What the discrete decisions read of
/// it: whether `a == 1`, whether `b == 1`, and the sign of `c`.
#[derive(Clone, Copy, PartialEq, Eq, Debug, Structural)]
pub struct BorderShape {
    pub border_type: BorderType,
    pub a_is_one: bool,
    pub b_is_one: bool,
    pub c: Sign,
}

/// The orientation of a border as the collision response reads it:
/// `Vertical` for `(a, b) == (1, 0)`, `Horizontal` for `(a, b) == (0, 1)`.
#[derive(Clone, Copy, PartialEq, Eq, Debug, Structural)]
pub enum Axis {
    Vertical,
    Horizontal,
    Oblique,
}

/// Whether an electron moving with the velocity whose components have signs
/// `vel_x`, `vel_y` is heading for the border: towards a far (`Inner`) border
/// with a positive offset, or towards a near (`Outer`) border through the origin.
pub open spec fn spec_filter_border(shape: BorderShape, vel_x: Sign, vel_y: Sign) -> bool {
    match shape.border_type {
        BorderType::Inner => {
            (vel_x is Positive && shape.a_is_one && shape.c is Positive)
            || (vel_y is Positive && shape.b_is_one && shape.c is Positive)
        },
        BorderType::Outer => {
            (vel_x is Negative && shape.a_is_one && shape.c is Zero)
            || (vel_y is Negative && shape.b_is_one && shape.c is Zero)
        },
    }
}

/// Decides whether a border is a collision candidate for an electron with the
/// given velocity signs.
pub fn filter_border(shape: &BorderShape, vel_x: Sign, vel_y: Sign) -> (r: bool)
    ensures
        r == spec_filter_border(*shape, vel_x, vel_y),
{
    let c_positive = match shape.c {
        Sign::Positive => true,
        _ => false,
    };
    let c_zero = match shape.c {
        Sign::Zero => true,
        _ => false,
    };
    match shape.border_type {
        BorderType::Inner => {
            let moving_right = match vel_x {
                Sign::Positive => true,
                _ => false,
            };
            let moving_up = match vel_y {
                Sign::Positive => true,
                _ => false,
            };
            (moving_right && shape.a_is_one && c_positive) || (moving_up && shape.b_is_one
                && c_positive)
        },
        BorderType::Outer => {
            let moving_left = match vel_x {
                Sign::Negative => true,
                _ => false,
            };
            let moving_down = match vel_y {
                Sign::Negative => true,
                _ => false,
            };
            (moving_left && shape.a_is_one && c_zero) || (moving_down && shape.b_is_one && c_zero)
        },
    }
}

/// What a border does to an electron that reaches it.
#[derive(Clone, Copy, PartialEq, Eq, Debug, Structural)]
pub enum BounceAction {
    /// The electron leaves through the far vertical border and comes back at the
    /// near one: its x coordinate decreases by the width of the box.
    WrapBackward,
    /// The electron leaves through the near vertical border and comes back at the
    /// far one: its x coordinate increases by the width of the box.
    WrapForward,
    /// The electron is reflected: the y component of its velocity changes sign.
    ReflectY,
}

pub open spec fn spec_bounce_action(border_type: BorderType, axis: Axis) -> Option<BounceAction> {
    match axis {
        Axis::Vertical => match border_type {
            BorderType::Inner => Some(BounceAction::WrapBackward),
            BorderType::Outer => Some(BounceAction::WrapForward),
        },
        Axis::Horizontal => Some(BounceAction::ReflectY),
        Axis::Oblique => None,
    }
}

/// The response of a border to an electron that reaches it; `None` for a border
/// that is neither vertical nor horizontal, which has no response.
pub fn bounce_action(border_type: BorderType, axis: Axis) -> (r: Option<BounceAction>)
    ensures
        r == spec_bounce_action(border_type, axis),
{
    match axis {
        Axis::Vertical => match border_type {
            BorderType::Inner => Some(BounceAction::WrapBackward),
            BorderType::Outer => Some(BounceAction::WrapForward),
        },
        Axis::Horizontal => Some(BounceAction::ReflectY),
        Axis::Oblique => None,
    }
}

/// The direction of a border's normal `(a, b)`: `(1, 0)` or `(0, 1)`.
#[derive(Clone, Copy, PartialEq, Eq, Debug, Structural)]
pub enum Normal {
    X,
    Y,
}

/// The offset `c` of a border of the box: zero, the width or the height of the box.
#[derive(Clone, Copy, PartialEq, Eq, Debug, Structural)]
pub enum Offset {
    Origin,
    Width,
    Height,
}

/// One border of the simulation box, described by its normal, its offset and its type.
#[derive(Clone, Copy, PartialEq, Eq, Debug, Structural)]
pub struct BorderSpec {
    pub normal: Normal,
    pub offset: Offset,
    pub border_type: BorderType,
}

impl BorderSpec {
    /// The shape of this border in a box whose width and height have the given signs.
    pub open spec fn shape(self, width: Sign, height: Sign) -> BorderShape {
        BorderShape {
            border_type: self.border_type,
            a_is_one: self.normal is X,
            b_is_one: self.normal is Y,
            c: match self.offset {
                Offset::Origin => Sign::Zero,
                Offset::Width => width,
                Offset::Height => height,
            },
        }
    }

    /// The orientation of this border.
    pub open spec fn axis(self) -> Axis {
        match self.normal {
            Normal::X => Axis::Vertical,
            Normal::Y => Axis::Horizontal,
        }
    }
}

/// The four borders that close the box, in the order the simulation creates
/// them: left, bottom, right, top.
pub open spec fn spec_standard_borders() -> Seq<BorderSpec> {
    seq![
        BorderSpec { normal: Normal::X, offset: Offset::Origin, border_type: BorderType::Outer },
        BorderSpec { normal: Normal::Y, offset: Offset::Origin, border_type: BorderType::Outer },
        BorderSpec { normal: Normal::X, offset: Offset::Width, border_type: BorderType::Inner },
        BorderSpec { normal: Normal::Y, offset: Offset::Height, border_type: BorderType::Inner },
    ]
}

/// The four borders that close the box: left, bottom, right, top.
pub fn standard_borders() -> (r: Vec<BorderSpec>)
    ensures
        r@ == spec_standard_borders(),
{
    let mut r: Vec<BorderSpec> = Vec::new();
    r.push(BorderSpec { normal: Normal::X, offset: Offset::Origin, border_type: BorderType::Outer });
    r.push(BorderSpec { normal: Normal::Y, offset: Offset::Origin, border_type: BorderType::Outer });
    r.push(BorderSpec { normal: Normal::X, offset: Offset::Width, border_type: BorderType::Inner });
    r.push(BorderSpec { normal: Normal::Y, offset: Offset::Height, border_type: BorderType::Inner });
    assert(r@ =~= spec_standard_borders());
    r
}

/// In a box of positive width and height, an electron is tested against exactly
/// the borders it moves towards: the left one when it moves left, the bottom one
/// when it moves down, the right one when it moves right, the top one when it
/// moves up. So an electron that moves at all has a border among its collision
/// candidates.
pub proof fn lemma_standard_borders_faced(vel_x: Sign, vel_y: Sign)
    ensures
        spec_standard_borders().len() == 4,
        spec_filter_border(spec_standard_borders()[0].shape(Sign::Positive, Sign::Positive), vel_x, vel_y)
            <==> vel_x is Negative,
        spec_filter_border(spec_standard_borders()[1].shape(Sign::Positive, Sign::Positive), vel_x, vel_y)
            <==> vel_y is Negative,
        spec_filter_border(spec_standard_borders()[2].shape(Sign::Positive, Sign::Positive), vel_x, vel_y)
            <==> vel_x is Positive,
        spec_filter_border(spec_standard_borders()[3].shape(Sign::Positive, Sign::Positive), vel_x, vel_y)
            <==> vel_y is Positive,
        vel_x.is_nonzero() || vel_y.is_nonzero() ==> exists|i: int|
            0 <= i < 4 && #[trigger] spec_filter_border(
                spec_standard_borders()[i].shape(Sign::Positive, Sign::Positive),
                vel_x,
                vel_y,
            ),
{
    let s = spec_standard_borders();
    let p = Sign::Positive;
    if vel_x is Negative {
        assert(spec_filter_border(s[0].shape(p, p), vel_x, vel_y));
    } else if vel_y is Negative {
        assert(spec_filter_border(s[1].shape(p, p), vel_x, vel_y));
    } else if vel_x is Positive {
        assert(spec_filter_border(s[2].shape(p, p), vel_x, vel_y));
    } else if vel_y is Positive {
        assert(spec_filter_border(s[3].shape(p, p), vel_x, vel_y));
    }
}

/// Every border of the box has a response, so a collision with one never
/// reaches the case of an invalid border: the left border moves the electron
/// forward by the width and the right one back by the width (the two undo each
/// other), the bottom and top borders reflect it.
pub proof fn lemma_standard_border_responses()
    ensures
        spec_bounce_action(spec_standard_borders()[0].border_type, spec_standard_borders()[0].axis())
            == Some(BounceAction::WrapForward),
        spec_bounce_action(spec_standard_borders()[2].border_type, spec_standard_borders()[2].axis())
            == Some(BounceAction::WrapBackward),
        spec_bounce_action(spec_standard_borders()[1].border_type, spec_standard_borders()[1].axis())
            == Some(BounceAction::ReflectY),
        spec_bounce_action(spec_standard_borders()[3].border_type, spec_standard_borders()[3].axis())
            == Some(BounceAction::ReflectY),
{
}

} // verus!
