//! Directions: the axes by which the controller names them, the unit vectors
//! that stand for the axes on one body, and the fixed direction that takes the
//! place of one that could not be normalised.
//!
//! The vectors are the engine's own; they are carried, never computed with.

use vstd::prelude::*;

verus! {

/// A direction relative to the controlled body.
#[derive(Clone, Copy, Debug, PartialEq, Eq, Structural)]
pub enum Axis {
    /// The horizontal unit vector at right angles to the heading.
    Tangent,
    /// The body's horizontal heading.
    Normal,
    /// The world vertical.
    Up,
}

/// The unit vectors that the axes stand for on one body in one tick, in the
/// engine's vector type.
#[derive(Debug, PartialEq)]
pub struct Frame<V> {
    pub tangent: V,
    pub normal: V,
    pub up: V,
}

impl<V: Copy> Frame<V> {
    /// The unit vector that `axis` stands for.
    pub open spec fn direction(&self, axis: Axis) -> V {
        match axis {
            Axis::Tangent => self.tangent,
            Axis::Normal => self.normal,
            Axis::Up => self.up,
        }
    }

    /// Resolves `axis` to its unit vector.
    pub fn along(&self, axis: Axis) -> (vector: V)
        ensures
            vector == self.direction(axis),
    {
        match axis {
            Axis::Tangent => self.tangent,
            Axis::Normal => self.normal,
            Axis::Up => self.up,
        }
    }
}

/// The direction to use where normalising may have failed on a vector of no
/// length: `normalized` where there is one, else `fallback`.
pub open spec fn or_fallback<V>(normalized: Option<V>, fallback: V) -> V {
    match normalized {
        Some(direction) => direction,
        None => fallback,
    }
}

/// Recovers from a degenerate normalisation by substituting the fixed direction
/// `fallback`; a direction that was found is kept as it is.
pub fn direction_or<V>(normalized: Option<V>, fallback: V) -> (direction: V)
    ensures
        direction == or_fallback(normalized, fallback),
        normalized.is_none() ==> direction == fallback,
{
    match normalized {
        Some(direction) => direction,
        None => fallback,
    }
}

} // verus!
