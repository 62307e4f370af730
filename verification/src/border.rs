use vstd::prelude::*;
use crate::settings::BoundaryBehavior;

verus! {

/// Where a coordinate lies relative to the domain `[-limit, limit]` along
/// one axis.
#[derive(Copy, Clone, PartialEq, Eq, Debug, Structural)]
pub enum Side {
    Below,
    Within,
    Above,
}

/// What the border rule does to one coordinate of a particle.
#[derive(Copy, Clone, PartialEq, Eq, Debug, Structural)]
pub enum AxisFix {
    /// Leave the coordinate as it is.
    Keep,
    /// Wrap around: add the domain's width and restart the trail.
    ShiftUp,
    /// Wrap around: subtract the domain's width and restart the trail.
    ShiftDown,
    /// Bounce: put the coordinate on the lower edge and reflect, damped, the
    /// velocity along this axis.
    PinLow,
    /// Bounce: put the coordinate on the upper edge and reflect, damped, the
    /// velocity along this axis.
    PinHigh,
}

/// What happens to a particle at the border after it moved.
#[derive(Copy, Clone, PartialEq, Eq, Debug, Structural)]
pub struct BorderAction {
    /// Replace the particle by a fresh one.
    pub respawn: bool,
    pub x: AxisFix,
    pub y: AxisFix,
}

/// The action that leaves the particle alone.
pub open spec fn no_action() -> BorderAction {
    BorderAction { respawn: false, x: AxisFix::Keep, y: AxisFix::Keep }
}

/// Wrapping moves a coordinate that lies outside to the opposite side.
pub open spec fn wrap_fix(side: Side) -> AxisFix {
    match side {
        Side::Below => AxisFix::ShiftUp,
        Side::Within => AxisFix::Keep,
        Side::Above => AxisFix::ShiftDown,
    }
}

/// Bouncing pins a coordinate that lies outside to the edge it crossed.
pub open spec fn bounce_fix(side: Side) -> AxisFix {
    match side {
        Side::Below => AxisFix::PinLow,
        Side::Within => AxisFix::Keep,
        Side::Above => AxisFix::PinHigh,
    }
}

/// `fix` wraps a coordinate on `side` to the opposite side: up from below,
/// down from above, and not at all from within; it never pins.
pub open spec fn wraps(side: Side, fix: AxisFix) -> bool {
    &&& fix != AxisFix::PinLow && fix != AxisFix::PinHigh
    &&& (fix == AxisFix::ShiftUp <==> side == Side::Below)
    &&& (fix == AxisFix::ShiftDown <==> side == Side::Above)
    &&& (fix == AxisFix::Keep <==> side == Side::Within)
}

/// `fix` pins a coordinate on `side` to the edge it crossed: the low edge
/// from below, the high edge from above, and not at all from within; it
/// never wraps.
pub open spec fn pins(side: Side, fix: AxisFix) -> bool {
    &&& fix != AxisFix::ShiftUp && fix != AxisFix::ShiftDown
    &&& (fix == AxisFix::PinLow <==> side == Side::Below)
    &&& (fix == AxisFix::PinHigh <==> side == Side::Above)
    &&& (fix == AxisFix::Keep <==> side == Side::Within)
}

/// The action of `rule` on a particle that has, or has not, `escaped` the
/// domain enlarged by its margin, and whose coordinates lie on sides `x`
/// and `y` of the domain itself.
pub open spec fn border_plan(rule: BoundaryBehavior, escaped: bool, x: Side, y: Side) -> BorderAction {
    if !escaped {
        no_action()
    } else {
        match rule {
            BoundaryBehavior::Respawn => BorderAction {
                respawn: true,
                x: AxisFix::Keep,
                y: AxisFix::Keep,
            },
            BoundaryBehavior::Wrap => BorderAction { respawn: false, x: wrap_fix(x), y: wrap_fix(y) },
            BoundaryBehavior::Bounce => BorderAction {
                respawn: false,
                x: bounce_fix(x),
                y: bounce_fix(y),
            },
        }
    }
}

fn wrap_axis(side: Side) -> (fix: AxisFix)
    ensures
        fix == wrap_fix(side),
{
    match side {
        Side::Below => AxisFix::ShiftUp,
        Side::Within => AxisFix::Keep,
        Side::Above => AxisFix::ShiftDown,
    }
}

fn bounce_axis(side: Side) -> (fix: AxisFix)
    ensures
        fix == bounce_fix(side),
{
    match side {
        Side::Below => AxisFix::PinLow,
        Side::Within => AxisFix::Keep,
        Side::Above => AxisFix::PinHigh,
    }
}

impl BoundaryBehavior {
    /// Decides what happens to a particle at the border: nothing unless it
    /// `escaped` the domain enlarged by its margin; otherwise it respawns,
    /// or each coordinate outside the domain wraps to the other side, or is
    /// pinned to the edge it crossed, as the rule says.
    pub fn border_action(&self, escaped: bool, x: Side, y: Side) -> (action: BorderAction)
        ensures
            action == border_plan(*self, escaped, x, y),
            action.respawn <==> (escaped && *self == BoundaryBehavior::Respawn),
            !escaped || *self == BoundaryBehavior::Respawn ==> action.x == AxisFix::Keep
                && action.y == AxisFix::Keep,
            escaped && *self == BoundaryBehavior::Wrap ==> wraps(x, action.x) && wraps(y, action.y),
            escaped && *self == BoundaryBehavior::Bounce ==> pins(x, action.x) && pins(y, action.y),
    {
        if !escaped {
            return BorderAction { respawn: false, x: AxisFix::Keep, y: AxisFix::Keep };
        }
        match self {
            BoundaryBehavior::Respawn => BorderAction {
                respawn: true,
                x: AxisFix::Keep,
                y: AxisFix::Keep,
            },
            BoundaryBehavior::Wrap => BorderAction {
                respawn: false,
                x: wrap_axis(x),
                y: wrap_axis(y),
            },
            BoundaryBehavior::Bounce => BorderAction {
                respawn: false,
                x: bounce_axis(x),
                y: bounce_axis(y),
            },
        }
    }
}

/// A particle that escaped the domain along some axis is never left alone,
/// and no rule touches a coordinate that lies within the domain.
pub proof fn lemma_escaped_particle_is_handled(rule: BoundaryBehavior, x: Side, y: Side)
    requires
        x != Side::Within || y != Side::Within,
    ensures
        border_plan(rule, true, x, y) != no_action(),
        x == Side::Within ==> border_plan(rule, true, x, y).x == AxisFix::Keep,
        y == Side::Within ==> border_plan(rule, true, x, y).y == AxisFix::Keep,
{
}


/// Only the Respawn rule ever respawns, and it respawns every escaped
/// particle whatever its sides, touching no coordinate.
pub proof fn lemma_respawn_rule(rule: BoundaryBehavior, escaped: bool, x: Side, y: Side)
    ensures
        border_plan(rule, escaped, x, y).respawn <==> (escaped && rule == BoundaryBehavior::Respawn),
        border_plan(rule, escaped, x, y).respawn ==> border_plan(rule, escaped, x, y).x == AxisFix::Keep
            && border_plan(rule, escaped, x, y).y == AxisFix::Keep,
        !escaped ==> border_plan(rule, escaped, x, y) == no_action(),
{
}

/// Under the Wrap rule an escaped particle is never respawned or pinned:
/// each coordinate below the domain shifts up, each above it shifts down,
/// and each within it stays.
pub proof fn lemma_wrap_rule(x: Side, y: Side)
    ensures
        !border_plan(BoundaryBehavior::Wrap, true, x, y).respawn,
        wraps(x, border_plan(BoundaryBehavior::Wrap, true, x, y).x),
        wraps(y, border_plan(BoundaryBehavior::Wrap, true, x, y).y),
{
}

/// Under the Bounce rule an escaped particle is never respawned or wrapped:
/// each coordinate below the domain is pinned low, each above it pinned
/// high, and each within it stays.
pub proof fn lemma_bounce_rule(x: Side, y: Side)
    ensures
        !border_plan(BoundaryBehavior::Bounce, true, x, y).respawn,
        pins(x, border_plan(BoundaryBehavior::Bounce, true, x, y).x),
        pins(y, border_plan(BoundaryBehavior::Bounce, true, x, y).y),
{
}

/// Every rule treats the two axes alike: swapping the sides of a particle
/// swaps the fixes of its axes.
pub proof fn lemma_axes_treated_alike(rule: BoundaryBehavior, escaped: bool, x: Side, y: Side)
    ensures
        border_plan(rule, escaped, x, y).x == border_plan(rule, escaped, y, x).y,
        border_plan(rule, escaped, x, y).respawn == border_plan(rule, escaped, y, x).respawn,
{
}

} // verus!
