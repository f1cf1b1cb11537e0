//! How the minimum, preferred and maximum sizes of a node bound its text block.

use vstd::prelude::*;

verus! {

/// A length in a node's style: automatic, a number of logical pixels, or a
/// percentage of the parent's size. The number type is a parameter: the
/// rules below only move it around.
#[derive(Debug, Clone, Copy, PartialEq)]
pub enum Val<P> {
    Auto,
    Px(P),
    Percent(P),
}

/// The bound of a text block along one axis.
#[derive(Debug, Clone, Copy, PartialEq)]
pub enum TextBound<P> {
    /// Bounded by this length in logical pixels (before the scale factor).
    Px(P),
    /// Not bounded: the text may extend as far as it needs.
    Unbounded,
}

/// Defines how `min_size`, `size` and `max_size` bound a text block along one
/// axis. A maximum in pixels bounds it; failing that, a minimum in pixels;
/// failing that, a size in pixels when both the minimum and the maximum are
/// automatic. Every other combination, percentages among them, leaves it
/// unbounded.
pub fn text_constraint<P: Copy>(min_size: Val<P>, size: Val<P>, max_size: Val<P>) -> (bound: TextBound<P>)
    ensures
        max_size matches Val::Px(m) ==> bound == TextBound::Px(m),
        !(max_size is Px) ==> (min_size matches Val::Px(m) ==> bound == TextBound::Px(m)),
        min_size is Auto && max_size is Auto ==> (size matches Val::Px(s) ==> bound
            == TextBound::Px(s)),
        bound is Unbounded <==> !(max_size is Px) && !(min_size is Px) && !(min_size is Auto
            && max_size is Auto && size is Px),
        // the bound is always one of the three lengths given in pixels
        bound matches TextBound::Px(v) ==> (max_size == Val::Px(v) || min_size == Val::Px(v)
            || size == Val::Px(v)),
{
    match (min_size, size, max_size) {
        (_, _, Val::Px(max)) => TextBound::Px(max),
        (Val::Px(min), _, _) => TextBound::Px(min),
        (Val::Auto, Val::Px(size), Val::Auto) => TextBound::Px(size),
        _ => TextBound::Unbounded,
    }
}

/// The plugin that lays out UI text.
#[derive(Debug, Default, Clone, Copy)]
pub struct TextPlugin;

} // verus!
