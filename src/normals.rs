//! Which points and which rule give the thickness direction at each polyline point.
//!
//! The arithmetic (differences, cross products, normalization) is the caller's; what is
//! decided here is which neighbours a tangent is taken from and which fallback applies
//! when a direction degenerates.
use vstd::prelude::*;
use crate::plate::PlateLayout;

verus! {

/// The points a tangent is taken from (`n(v)` normalizes or gives zero).
#[derive(Debug, Clone, Copy, PartialEq, Eq, Structural)]
pub enum TangentStencil {
    /// `n(points[to] - points[from])`, at an end of the polyline.
    Edge { from: usize, to: usize },
    /// `n(n(points[at] - points[prev]) + n(points[next] - points[at]))`, the bisector of the
    /// unit incoming and outgoing directions at an interior point.
    Bisector { prev: usize, at: usize, next: usize },
}

/// How the thickness normal of a point is formed (`e` is `n(extrusion)`, `t` the tangent).
#[derive(Debug, Clone, Copy, PartialEq, Eq, Structural)]
pub enum NormalRule {
    /// `(1, 0, 0)`: the extrusion has no usable direction.
    ConstantX,
    /// `n(t x e)`.
    TangentCross,
    /// `n(e x (1, 0, 0))`: the tangent runs along the extrusion.
    SeedX,
    /// `n(e x (0, 1, 0))`: the tangent runs along an extrusion that itself lies near the
    /// x axis.
    SeedY,
}

/// The stencil of point `point` on a polyline of `point_count` points: the first point
/// looks forward to the second, the last looks back from the one before it, and every
/// other point bisects its two edges.
pub open spec fn tangent_stencil_spec(point_count: int, point: int) -> TangentStencil {
    if point == 0 {
        TangentStencil::Edge { from: 0, to: 1 }
    } else if point == point_count - 1 {
        TangentStencil::Edge { from: (point - 1) as usize, to: point as usize }
    } else {
        TangentStencil::Bisector {
            prev: (point - 1) as usize,
            at: point as usize,
            next: (point + 1) as usize,
        }
    }
}

/// The rule for one point. `extrusion_degenerate`: the normalized extrusion has squared
/// length below the threshold; `cross_degenerate`: so has `n(t x e)`; `extrusion_near_x`:
/// `|e.x|` is not below 0.9.
pub open spec fn normal_rule_spec(
    extrusion_degenerate: bool,
    cross_degenerate: bool,
    extrusion_near_x: bool,
) -> NormalRule {
    if extrusion_degenerate {
        NormalRule::ConstantX
    } else if !cross_degenerate {
        NormalRule::TangentCross
    } else if extrusion_near_x {
        NormalRule::SeedY
    } else {
        NormalRule::SeedX
    }
}

impl PlateLayout {
    /// The points that the tangent at `point` is estimated from.
    pub fn tangent_stencil(&self, point: usize) -> (r: TangentStencil)
        requires
            point < self.spec_point_count(),
        ensures
            r == tangent_stencil_spec(self.spec_point_count() as int, point as int),
            match r {
                TangentStencil::Edge { from, to } => from < to < self.spec_point_count(),
                TangentStencil::Bisector { prev, at, next } => prev < at < next
                    < self.spec_point_count(),
            },
    {
        let point_count = self.point_count();
        if point == 0 {
            TangentStencil::Edge { from: 0, to: 1 }
        } else if point == point_count - 1 {
            TangentStencil::Edge { from: point - 1, to: point }
        } else {
            TangentStencil::Bisector { prev: point - 1, at: point, next: point + 1 }
        }
    }
}

/// With a degenerate extrusion every point gets the constant `(1, 0, 0)` normal, whatever
/// its tangent.
pub proof fn lemma_degenerate_extrusion_is_constant()
    ensures
        forall|cross_degenerate: bool, extrusion_near_x: bool|
            #[trigger] normal_rule_spec(true, cross_degenerate, extrusion_near_x)
                == NormalRule::ConstantX,
{
}

/// Chooses how a point's thickness normal is formed. A degenerate extrusion gives the
/// constant `(1, 0, 0)` whatever the tangent; otherwise the tangent's cross product with the
/// extrusion is used unless it degenerates, and then a seed axis that is not the extrusion's
/// own.
pub fn normal_rule(extrusion_degenerate: bool, cross_degenerate: bool, extrusion_near_x: bool) -> (r:
    NormalRule)
    ensures
        r == normal_rule_spec(extrusion_degenerate, cross_degenerate, extrusion_near_x),
        extrusion_degenerate ==> r == NormalRule::ConstantX,
{
    if extrusion_degenerate {
        NormalRule::ConstantX
    } else if !cross_degenerate {
        NormalRule::TangentCross
    } else if extrusion_near_x {
        NormalRule::SeedY
    } else {
        NormalRule::SeedX
    }
}

} // verus!
