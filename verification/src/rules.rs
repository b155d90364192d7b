//! Rule semantics: fill rules, overlay rules and their algebra.
//!
//! The rule vocabulary comes from the `i_overlay` engine; the enums are
//! declared to the verifier so that verified code can construct and inspect
//! them, and aliased here under crate-local names. The spec functions give
//! each rule its mathematical meaning: a fill rule is a predicate over an
//! accumulated winding number, and an overlay rule is a boolean relation
//! between the two operands' filled regions. The proof functions state the
//! algebraic laws relating the overlay rules to each other.

use vstd::prelude::*;

verus! {

#[verifier::external_type_specification]
pub struct ExFillRule(i_overlay::core::fill_rule::FillRule);

#[verifier::external_type_specification]
pub struct ExOverlayRule(i_overlay::core::overlay_rule::OverlayRule);

#[verifier::external_type_specification]
pub struct ExContourDirection(i_overlay::core::overlay::ContourDirection);

#[verifier::external_type_specification]
pub struct ExShapeType(i_overlay::core::overlay::ShapeType);

#[verifier::external_type_specification]
pub struct ExStrategy(i_overlay::core::solver::Strategy);

/// The engine's fill-rule vocabulary: EvenOdd, NonZero, Positive, Negative.
pub type CoreFillRule = i_overlay::core::fill_rule::FillRule;

/// The engine's overlay-rule vocabulary: Subject, Clip, Intersect, Union,
/// Difference, InverseDifference, Xor.
pub type CoreOverlayRule = i_overlay::core::overlay_rule::OverlayRule;

/// The engine's contour winding direction: CounterClockwise or Clockwise.
pub type CoreDirection = i_overlay::core::overlay::ContourDirection;

/// The engine's operand tagging: Subject or Clip.
pub type CoreShapeType = i_overlay::core::overlay::ShapeType;

/// The engine's algorithm-selection strategy: List, Tree, Frag or Auto.
pub type CoreStrategy = i_overlay::core::solver::Strategy;

/// Numeric encoding of a fill rule, used where a contract needs a plain value.
pub open spec fn fill_code(rule: CoreFillRule) -> int {
    match rule {
        CoreFillRule::EvenOdd => 0,
        CoreFillRule::NonZero => 1,
        CoreFillRule::Positive => 2,
        CoreFillRule::Negative => 3,
    }
}

/// Numeric encoding of an overlay rule.
pub open spec fn rule_code(rule: CoreOverlayRule) -> int {
    match rule {
        CoreOverlayRule::Subject => 0,
        CoreOverlayRule::Clip => 1,
        CoreOverlayRule::Intersect => 2,
        CoreOverlayRule::Union => 3,
        CoreOverlayRule::Difference => 4,
        CoreOverlayRule::InverseDifference => 5,
        CoreOverlayRule::Xor => 6,
    }
}

/// Numeric encoding of a contour direction.
pub open spec fn dir_code(dir: CoreDirection) -> int {
    match dir {
        CoreDirection::CounterClockwise => 0,
        CoreDirection::Clockwise => 1,
    }
}

/// Numeric encoding of a strategy.
pub open spec fn strategy_code(s: CoreStrategy) -> int {
    match s {
        CoreStrategy::List => 0,
        CoreStrategy::Tree => 1,
        CoreStrategy::Frag => 2,
        CoreStrategy::Auto => 3,
    }
}

/// Whether a region with the given accumulated winding number counts as
/// filled under a fill rule: parity for `EvenOdd`, non-zero winding for
/// `NonZero`, and the winding's sign for `Positive` and `Negative`.
pub open spec fn is_filled(rule: CoreFillRule, winding: int) -> bool {
    match rule {
        CoreFillRule::EvenOdd => winding % 2 != 0,
        CoreFillRule::NonZero => winding != 0,
        CoreFillRule::Positive => winding > 0,
        CoreFillRule::Negative => winding < 0,
    }
}

/// Whether a point belongs to the result of an overlay rule, given whether
/// it lies in the subject's filled region and in the clip's filled region.
pub open spec fn keeps_region(rule: CoreOverlayRule, subj: bool, clip: bool) -> bool {
    match rule {
        CoreOverlayRule::Subject => subj,
        CoreOverlayRule::Clip => clip,
        CoreOverlayRule::Intersect => subj && clip,
        CoreOverlayRule::Union => subj || clip,
        CoreOverlayRule::Difference => subj && !clip,
        CoreOverlayRule::InverseDifference => clip && !subj,
        CoreOverlayRule::Xor => subj != clip,
    }
}

/// Intersection, union and symmetric difference do not depend on the
/// order of the operands.
pub proof fn lemma_symmetric_rules_commute(rule: CoreOverlayRule, subj: bool, clip: bool)
    requires
        rule == CoreOverlayRule::Intersect || rule == CoreOverlayRule::Union || rule
            == CoreOverlayRule::Xor,
    ensures
        keeps_region(rule, subj, clip) == keeps_region(rule, clip, subj),
{
}

/// The two difference rules are mirror images: subtracting the clip from
/// the subject keeps the same regions as subtracting the subject from the
/// clip with the operands swapped.
pub proof fn lemma_difference_mirror(subj: bool, clip: bool)
    ensures
        keeps_region(CoreOverlayRule::Difference, subj, clip) == keeps_region(
            CoreOverlayRule::InverseDifference,
            clip,
            subj,
        ),
{
}

/// The two self-resolution rules are mirror images: each keeps exactly
/// its own operand's filled region.
pub proof fn lemma_operand_mirror(subj: bool, clip: bool)
    ensures
        keeps_region(CoreOverlayRule::Subject, subj, clip) == keeps_region(
            CoreOverlayRule::Clip,
            clip,
            subj,
        ),
{
}

/// The symmetric difference is the union with the intersection removed:
/// a region lies in the `Xor` result exactly when it lies in the `Union`
/// result but not in the `Intersect` result. In consequence the area of
/// the symmetric difference is the union's area minus the intersection's.
pub proof fn lemma_xor_decomposition(subj: bool, clip: bool)
    ensures
        keeps_region(CoreOverlayRule::Xor, subj, clip) == (keeps_region(
            CoreOverlayRule::Union,
            subj,
            clip,
        ) && !keeps_region(CoreOverlayRule::Intersect, subj, clip)),
{
}

/// Difference, intersection and inverse difference partition the union:
/// together they cover exactly the union's regions, and no region lies in
/// two of them, so their areas add up to the union's with nothing counted
/// twice.
pub proof fn lemma_difference_partition(subj: bool, clip: bool)
    ensures
        keeps_region(CoreOverlayRule::Union, subj, clip) == (keeps_region(
            CoreOverlayRule::Difference,
            subj,
            clip,
        ) || keeps_region(CoreOverlayRule::Intersect, subj, clip) || keeps_region(
            CoreOverlayRule::InverseDifference,
            subj,
            clip,
        )),
        !(keeps_region(CoreOverlayRule::Difference, subj, clip) && keeps_region(
            CoreOverlayRule::Intersect,
            subj,
            clip,
        )),
        !(keeps_region(CoreOverlayRule::Difference, subj, clip) && keeps_region(
            CoreOverlayRule::InverseDifference,
            subj,
            clip,
        )),
        !(keeps_region(CoreOverlayRule::Intersect, subj, clip) && keeps_region(
            CoreOverlayRule::InverseDifference,
            subj,
            clip,
        )),
{
}

} // verus!
