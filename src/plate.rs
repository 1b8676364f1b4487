//! The combinatorial structure of a plate: a polyline of `point_count` points swept along
//! an extrusion in `subdivisions` steps, thickened into a front and a back offset loop.
//!
//! Every vertex of the plate is a vertex of the slice grid, named by its slice, its polyline
//! point and its side. Positions and the arc-length part of the UVW coordinate are computed
//! by the caller from these names; what is decided here is which vertices each quad joins,
//! in which corner order, and which normal rule it carries.
use vstd::prelude::*;

verus! {

/// Why a plate cannot be built from the given inputs.
#[derive(Debug, Clone, Copy, PartialEq, Eq, Structural)]
pub enum PlateError {
    /// Fewer than two polyline points.
    TooFewPoints,
    /// The width is zero, negative or not a number.
    NonPositiveWidth,
}

/// A vertex of the slice grid: polyline point `point` on the front loop (or the back loop,
/// when `back`) of slice `slice`.
///
/// Its position is that loop point translated by `extrusion * slice / subdivisions`.
/// Its UVW coordinate is `(arc[point] / total_arc, slice / subdivisions, w)` with `w` 1 on the
/// back loop and 0 on the front loop (`u` is 0 when the polyline has no length).
#[derive(Debug, Clone, Copy, PartialEq, Eq, Structural)]
pub struct GridVertex {
    pub slice: usize,
    pub point: usize,
    pub back: bool,
}

/// The flat normal that a quad carries, as a rule over the grid positions
/// (`e` is `normalize_or_zero(extrusion)`, `n(v)` normalizes or gives zero).
#[derive(Debug, Clone, Copy, PartialEq, Eq, Structural)]
pub enum FaceNormal {
    /// `-e`.
    AgainstExtrusion,
    /// `e`.
    AlongExtrusion,
    /// `n(n(front[point + 1] - front[point]) x e)` on the given slice.
    FrontEdge { slice: usize, point: usize },
    /// `-n(n(back[point + 1] - back[point]) x e)` on the given slice.
    BackEdge { slice: usize, point: usize },
    /// `-n(e x n(back[0] - front[0]))` on slice 0.
    TopCap,
    /// `n(e x n(back[last] - front[last]))` on slice 0, `last` the final polyline point.
    BottomCap,
}

/// One quad of the plate's surface: four grid vertices and the rule for its normal.
#[derive(Debug, Clone, Copy, PartialEq, Eq, Structural)]
pub struct GridQuad {
    pub top_left: GridVertex,
    pub top_right: GridVertex,
    pub bottom_left: GridVertex,
    pub bottom_right: GridVertex,
    pub normal: FaceNormal,
}

/// The grid vertex with the given slice, point and side.
pub open spec fn vertex(slice: int, point: int, back: bool) -> GridVertex {
    GridVertex { slice: slice as usize, point: point as usize, back }
}

/// Quad `point` of the front face: the edge from `point` to `point + 1` between the two
/// loops of the first slice, front loop on top.
pub open spec fn front_quad(point: int) -> GridQuad {
    GridQuad {
        top_left: vertex(0, point, false),
        top_right: vertex(0, point + 1, false),
        bottom_left: vertex(0, point, true),
        bottom_right: vertex(0, point + 1, true),
        normal: FaceNormal::AgainstExtrusion,
    }
}

/// Quad `point` of the back face: the same edge on the last slice `slice`, back loop on top.
pub open spec fn back_quad(slice: int, point: int) -> GridQuad {
    GridQuad {
        top_left: vertex(slice, point, true),
        top_right: vertex(slice, point + 1, true),
        bottom_left: vertex(slice, point, false),
        bottom_right: vertex(slice, point + 1, false),
        normal: FaceNormal::AlongExtrusion,
    }
}

/// The left-face quad between slices `slice` and `slice + 1` over the front-loop edge from
/// `point` to `point + 1`.
pub open spec fn left_quad(slice: int, point: int) -> GridQuad {
    GridQuad {
        top_left: vertex(slice, point, false),
        top_right: vertex(slice, point + 1, false),
        bottom_left: vertex(slice + 1, point, false),
        bottom_right: vertex(slice + 1, point + 1, false),
        normal: FaceNormal::FrontEdge { slice: slice as usize, point: point as usize },
    }
}

/// The right-face quad between slices `slice` and `slice + 1` over the back-loop edge from
/// `point` to `point + 1`, walked the other way so that it faces outward.
pub open spec fn right_quad(slice: int, point: int) -> GridQuad {
    GridQuad {
        top_left: vertex(slice, point + 1, true),
        top_right: vertex(slice, point, true),
        bottom_left: vertex(slice + 1, point + 1, true),
        bottom_right: vertex(slice + 1, point, true),
        normal: FaceNormal::BackEdge { slice: slice as usize, point: point as usize },
    }
}

/// The top-face quad between slices `slice` and `slice + 1` at the first polyline point.
pub open spec fn top_quad(slice: int) -> GridQuad {
    GridQuad {
        top_left: vertex(slice, 0, false),
        top_right: vertex(slice, 0, true),
        bottom_left: vertex(slice + 1, 0, false),
        bottom_right: vertex(slice + 1, 0, true),
        normal: FaceNormal::TopCap,
    }
}

/// The bottom-face quad between slices `slice` and `slice + 1` at the last polyline point
/// `last`.
pub open spec fn bottom_quad(slice: int, last: int) -> GridQuad {
    GridQuad {
        top_left: vertex(slice, last, true),
        top_right: vertex(slice, last, false),
        bottom_left: vertex(slice + 1, last, true),
        bottom_right: vertex(slice + 1, last, false),
        normal: FaceNormal::BottomCap,
    }
}

/// The slice of the `k`-th quad of a side face: side faces run slice by slice, and within a
/// slice over the `edges` polyline edges in order.
pub open spec fn side_slice(k: int, edges: int) -> int {
    k / edges
}

/// The polyline edge of the `k`-th quad of a side face.
pub open spec fn side_point(k: int, edges: int) -> int {
    k % edges
}

/// True when a grid of `point_count` points on each of `subdivisions + 1` slices can be
/// counted in a `usize`.
pub open spec fn grid_fits(point_count: int, subdivisions: int) -> bool {
    point_count * (subdivisions + 1) <= usize::MAX
}

/// The subdivision count actually used: requests below one are raised to one.
pub open spec fn effective_subdivisions(subdivisions: int) -> int {
    if subdivisions < 1 {
        1
    } else {
        subdivisions
    }
}

proof fn lemma_slices_fit(point_count: int, subdivisions: int)
    requires
        point_count >= 2,
        subdivisions >= 1,
        grid_fits(point_count, subdivisions),
    ensures
        subdivisions + 1 <= usize::MAX,
        (point_count - 1) * subdivisions <= usize::MAX,
{
    assert(subdivisions + 1 <= point_count * (subdivisions + 1)) by (nonlinear_arith)
        requires
            point_count >= 2,
            subdivisions >= 1,
    ;
    assert((point_count - 1) * subdivisions <= point_count * (subdivisions + 1))
        by (nonlinear_arith)
        requires
            point_count >= 2,
            subdivisions >= 1,
    ;
}

/// The `k`-th quad of a side face, `k == slice * edges + point`, is the one of `slice` and
/// `point`.
proof fn lemma_side_index(slice: int, point: int, edges: int)
    requires
        slice >= 0,
        0 <= point < edges,
    ensures
        side_slice(slice * edges + point, edges) == slice,
        side_point(slice * edges + point, edges) == point,
{
    vstd::arithmetic::div_mod::lemma_fundamental_div_mod_converse(
        slice * edges + point,
        edges,
        slice,
        point,
    );
}

/// The validated shape of a plate: how many polyline points and how many extrusion steps.
#[derive(Debug)]
pub struct PlateLayout {
    point_count: usize,
    subdivisions: usize,
}

impl PlateLayout {
    #[verifier::type_invariant]
    spec fn inv(self) -> bool {
        &&& self.point_count >= 2
        &&& self.subdivisions >= 1
        &&& grid_fits(self.point_count as int, self.subdivisions as int)
    }

    /// Number of polyline points.
    pub closed spec fn spec_point_count(self) -> nat {
        self.point_count as nat
    }

    /// Number of extrusion steps (at least one).
    pub closed spec fn spec_subdivisions(self) -> nat {
        self.subdivisions as nat
    }

    /// Checks the inputs of a plate. Fewer than two points are refused first, then a width
    /// that is not positive (`width_is_positive` is the caller's `width > 0`); a subdivision
    /// count below one is raised to one.
    pub fn new(point_count: usize, width_is_positive: bool, subdivisions: usize) -> (r: Result<
        PlateLayout,
        PlateError,
    >)
        requires
            point_count >= 2 ==> grid_fits(
                point_count as int,
                effective_subdivisions(subdivisions as int),
            ),
        ensures
            point_count < 2 ==> r == Err::<PlateLayout, PlateError>(PlateError::TooFewPoints),
            point_count >= 2 && !width_is_positive ==> r == Err::<PlateLayout, PlateError>(
                PlateError::NonPositiveWidth,
            ),
            point_count >= 2 && width_is_positive ==> r.is_ok(),
            r matches Ok(l) ==> l.spec_point_count() == point_count && l.spec_subdivisions()
                == effective_subdivisions(subdivisions as int),
    {
        if point_count < 2 {
            return Err(PlateError::TooFewPoints);
        }
        if !width_is_positive {
            return Err(PlateError::NonPositiveWidth);
        }
        let subdivisions = if subdivisions < 1 {
            1
        } else {
            subdivisions
        };
        Ok(PlateLayout { point_count, subdivisions })
    }

    /// True when `v` names a vertex of this layout's grid.
    pub open spec fn on_grid(self, v: GridVertex) -> bool {
        v.slice <= self.spec_subdivisions() && v.point < self.spec_point_count()
    }

    /// True when every corner of `q`, and every index that its normal rule reads, lies in
    /// this layout's grid.
    pub open spec fn quad_on_grid(self, q: GridQuad) -> bool {
        &&& self.on_grid(q.top_left)
        &&& self.on_grid(q.top_right)
        &&& self.on_grid(q.bottom_left)
        &&& self.on_grid(q.bottom_right)
        &&& match q.normal {
            FaceNormal::FrontEdge { slice, point } => slice <= self.spec_subdivisions() && point
                + 1 < self.spec_point_count(),
            FaceNormal::BackEdge { slice, point } => slice <= self.spec_subdivisions() && point
                + 1 < self.spec_point_count(),
            _ => true,
        }
    }

    /// The front face: one quad per polyline edge on the first slice.
    pub open spec fn front_face_spec(self) -> Seq<GridQuad> {
        Seq::new((self.spec_point_count() - 1) as nat, |i: int| front_quad(i))
    }

    /// The back face: one quad per polyline edge on the last slice.
    pub open spec fn back_face_spec(self) -> Seq<GridQuad> {
        Seq::new(
            (self.spec_point_count() - 1) as nat,
            |i: int| back_quad(self.spec_subdivisions() as int, i),
        )
    }

    /// The left face: for each pair of adjacent slices, one quad per front-loop edge.
    pub open spec fn left_face_spec(self) -> Seq<GridQuad> {
        let edges = self.spec_point_count() - 1;
        Seq::new(
            (edges * self.spec_subdivisions()) as nat,
            |k: int| left_quad(side_slice(k, edges), side_point(k, edges)),
        )
    }

    /// The right face: for each pair of adjacent slices, one quad per back-loop edge.
    pub open spec fn right_face_spec(self) -> Seq<GridQuad> {
        let edges = self.spec_point_count() - 1;
        Seq::new(
            (edges * self.spec_subdivisions()) as nat,
            |k: int| right_quad(side_slice(k, edges), side_point(k, edges)),
        )
    }

    /// The top face: one quad per pair of adjacent slices at the first point.
    pub open spec fn top_face_spec(self) -> Seq<GridQuad> {
        Seq::new(self.spec_subdivisions(), |s: int| top_quad(s))
    }

    /// The bottom face: one quad per pair of adjacent slices at the last point.
    pub open spec fn bottom_face_spec(self) -> Seq<GridQuad> {
        Seq::new(
            self.spec_subdivisions(),
            |s: int| bottom_quad(s, self.spec_point_count() - 1),
        )
    }

    /// The quads of the front face, at the start of the extrusion: one per polyline edge.
    pub fn front_face(&self) -> (r: Vec<GridQuad>)
        ensures
            r@ == self.front_face_spec(),
            r@.len() == self.spec_point_count() - 1,
            forall|k: int| 0 <= k < r@.len() ==> self.quad_on_grid(#[trigger] r@[k]),
    {
        proof {
            use_type_invariant(self);
        }
        let edges: usize = self.point_count - 1;
        let mut quads: Vec<GridQuad> = Vec::new();
        let mut point: usize = 0;
        while point < edges
            invariant
                edges == self.spec_point_count() - 1,
                point <= edges,
                quads@.len() == point,
                forall|k: int|
                    0 <= k < quads@.len() ==> #[trigger] quads@[k] == front_quad(k)
                        && self.quad_on_grid(quads@[k]),
            decreases edges - point,
        {
            quads.push(
                GridQuad {
                    top_left: GridVertex { slice: 0, point, back: false },
                    top_right: GridVertex { slice: 0, point: point + 1, back: false },
                    bottom_left: GridVertex { slice: 0, point, back: true },
                    bottom_right: GridVertex { slice: 0, point: point + 1, back: true },
                    normal: FaceNormal::AgainstExtrusion,
                },
            );
            point = point + 1;
        }
        proof {
            assert(quads@ =~= self.front_face_spec());
        }
        quads
    }

    /// The quads of the back face, at the end of the extrusion: one per polyline edge.
    pub fn back_face(&self) -> (r: Vec<GridQuad>)
        ensures
            r@ == self.back_face_spec(),
            r@.len() == self.spec_point_count() - 1,
            forall|k: int| 0 <= k < r@.len() ==> self.quad_on_grid(#[trigger] r@[k]),
    {
        proof {
            use_type_invariant(self);
        }
        let slice: usize = self.subdivisions;
        let edges: usize = self.point_count - 1;
        let mut quads: Vec<GridQuad> = Vec::new();
        let mut point: usize = 0;
        while point < edges
            invariant
                edges == self.spec_point_count() - 1,
                slice == self.spec_subdivisions(),
                point <= edges,
                quads@.len() == point,
                forall|k: int|
                    0 <= k < quads@.len() ==> #[trigger] quads@[k] == back_quad(slice as int, k)
                        && self.quad_on_grid(quads@[k]),
            decreases edges - point,
        {
            quads.push(
                GridQuad {
                    top_left: GridVertex { slice, point, back: true },
                    top_right: GridVertex { slice, point: point + 1, back: true },
                    bottom_left: GridVertex { slice, point, back: false },
                    bottom_right: GridVertex { slice, point: point + 1, back: false },
                    normal: FaceNormal::AlongExtrusion,
                },
            );
            point = point + 1;
        }
        proof {
            assert(quads@ =~= self.back_face_spec());
        }
        quads
    }

    /// The quads of the top face, across the plate at the first polyline point: one per
    /// extrusion step.
    pub fn top_face(&self) -> (r: Vec<GridQuad>)
        ensures
            r@ == self.top_face_spec(),
            r@.len() == self.spec_subdivisions(),
            forall|k: int| 0 <= k < r@.len() ==> self.quad_on_grid(#[trigger] r@[k]),
    {
        proof {
            use_type_invariant(self);
            lemma_slices_fit(self.point_count as int, self.subdivisions as int);
        }
        let mut quads: Vec<GridQuad> = Vec::new();
        let mut slice: usize = 0;
        while slice < self.subdivisions
            invariant
                self.spec_point_count() >= 2,
                slice <= self.spec_subdivisions(),
                quads@.len() == slice,
                forall|k: int|
                    0 <= k < quads@.len() ==> #[trigger] quads@[k] == top_quad(k)
                        && self.quad_on_grid(quads@[k]),
            decreases self.spec_subdivisions() - slice,
        {
            quads.push(
                GridQuad {
                    top_left: GridVertex { slice, point: 0, back: false },
                    top_right: GridVertex { slice, point: 0, back: true },
                    bottom_left: GridVertex { slice: slice + 1, point: 0, back: false },
                    bottom_right: GridVertex { slice: slice + 1, point: 0, back: true },
                    normal: FaceNormal::TopCap,
                },
            );
            slice = slice + 1;
        }
        proof {
            assert(quads@ =~= self.top_face_spec());
        }
        quads
    }

    /// The quads of the bottom face, across the plate at the last polyline point: one per
    /// extrusion step.
    pub fn bottom_face(&self) -> (r: Vec<GridQuad>)
        ensures
            r@ == self.bottom_face_spec(),
            r@.len() == self.spec_subdivisions(),
            forall|k: int| 0 <= k < r@.len() ==> self.quad_on_grid(#[trigger] r@[k]),
    {
        proof {
            use_type_invariant(self);
            lemma_slices_fit(self.point_count as int, self.subdivisions as int);
        }
        let last: usize = self.point_count - 1;
        let mut quads: Vec<GridQuad> = Vec::new();
        let mut slice: usize = 0;
        while slice < self.subdivisions
            invariant
                last == self.spec_point_count() - 1,
                slice <= self.spec_subdivisions(),
                quads@.len() == slice,
                forall|k: int|
                    0 <= k < quads@.len() ==> #[trigger] quads@[k] == bottom_quad(k, last as int)
                        && self.quad_on_grid(quads@[k]),
            decreases self.spec_subdivisions() - slice,
        {
            quads.push(
                GridQuad {
                    top_left: GridVertex { slice, point: last, back: true },
                    top_right: GridVertex { slice, point: last, back: false },
                    bottom_left: GridVertex { slice: slice + 1, point: last, back: true },
                    bottom_right: GridVertex { slice: slice + 1, point: last, back: false },
                    normal: FaceNormal::BottomCap,
                },
            );
            slice = slice + 1;
        }
        proof {
            assert(quads@ =~= self.bottom_face_spec());
        }
        quads
    }

    /// The quads of the left side face (the side of the front loop), slice by slice and edge
    /// by edge within a slice.
    pub fn left_face(&self) -> (r: Vec<GridQuad>)
        ensures
            r@ == self.left_face_spec(),
            r@.len() == (self.spec_point_count() - 1) * self.spec_subdivisions(),
            forall|k: int| 0 <= k < r@.len() ==> self.quad_on_grid(#[trigger] r@[k]),
    {
        proof {
            use_type_invariant(self);
            lemma_slices_fit(self.point_count as int, self.subdivisions as int);
        }
        let edges: usize = self.point_count - 1;
        let mut quads: Vec<GridQuad> = Vec::new();
        let mut slice: usize = 0;
        while slice < self.subdivisions
            invariant
                edges == self.spec_point_count() - 1,
                edges >= 1,
                slice <= self.spec_subdivisions(),
                quads@.len() == slice * edges,
                forall|k: int|
                    0 <= k < quads@.len() ==> #[trigger] quads@[k] == left_quad(
                        side_slice(k, edges as int),
                        side_point(k, edges as int),
                    ) && self.quad_on_grid(quads@[k]),
            decreases self.spec_subdivisions() - slice,
        {
            let mut point: usize = 0;
            while point < edges
                invariant
                    edges == self.spec_point_count() - 1,
                    edges >= 1,
                    slice < self.spec_subdivisions(),
                    point <= edges,
                    quads@.len() == slice * edges + point,
                    forall|k: int|
                        0 <= k < quads@.len() ==> #[trigger] quads@[k] == left_quad(
                            side_slice(k, edges as int),
                            side_point(k, edges as int),
                        ) && self.quad_on_grid(quads@[k]),
                decreases edges - point,
            {
                proof {
                    lemma_side_index(slice as int, point as int, edges as int);
                }
                quads.push(
                    GridQuad {
                        top_left: GridVertex { slice, point, back: false },
                        top_right: GridVertex { slice, point: point + 1, back: false },
                        bottom_left: GridVertex { slice: slice + 1, point, back: false },
                        bottom_right: GridVertex { slice: slice + 1, point: point + 1, back: false },
                        normal: FaceNormal::FrontEdge { slice, point },
                    },
                );
                point = point + 1;
            }
            proof {
                assert(slice * edges + edges == (slice + 1) * edges) by (nonlinear_arith);
            }
            slice = slice + 1;
        }
        proof {
            assert(quads@.len() == self.left_face_spec().len()) by (nonlinear_arith)
                requires
                    quads@.len() == slice * edges,
                    slice == self.spec_subdivisions(),
                    edges == self.spec_point_count() - 1,
                    edges >= 1,
            ;
            assert(quads@ =~= self.left_face_spec());
        }
        quads
    }

    /// The quads of the right side face (the side of the back loop), slice by slice and edge
    /// by edge within a slice.
    pub fn right_face(&self) -> (r: Vec<GridQuad>)
        ensures
            r@ == self.right_face_spec(),
            r@.len() == (self.spec_point_count() - 1) * self.spec_subdivisions(),
            forall|k: int| 0 <= k < r@.len() ==> self.quad_on_grid(#[trigger] r@[k]),
    {
        proof {
            use_type_invariant(self);
            lemma_slices_fit(self.point_count as int, self.subdivisions as int);
        }
        let edges: usize = self.point_count - 1;
        let mut quads: Vec<GridQuad> = Vec::new();
        let mut slice: usize = 0;
        while slice < self.subdivisions
            invariant
                edges == self.spec_point_count() - 1,
                edges >= 1,
                slice <= self.spec_subdivisions(),
                quads@.len() == slice * edges,
                forall|k: int|
                    0 <= k < quads@.len() ==> #[trigger] quads@[k] == right_quad(
                        side_slice(k, edges as int),
                        side_point(k, edges as int),
                    ) && self.quad_on_grid(quads@[k]),
            decreases self.spec_subdivisions() - slice,
        {
            let mut point: usize = 0;
            while point < edges
                invariant
                    edges == self.spec_point_count() - 1,
                    edges >= 1,
                    slice < self.spec_subdivisions(),
                    point <= edges,
                    quads@.len() == slice * edges + point,
                    forall|k: int|
                        0 <= k < quads@.len() ==> #[trigger] quads@[k] == right_quad(
                            side_slice(k, edges as int),
                            side_point(k, edges as int),
                        ) && self.quad_on_grid(quads@[k]),
                decreases edges - point,
            {
                proof {
                    lemma_side_index(slice as int, point as int, edges as int);
                }
                quads.push(
                    GridQuad {
                        top_left: GridVertex { slice, point: point + 1, back: true },
                        top_right: GridVertex { slice, point, back: true },
                        bottom_left: GridVertex { slice: slice + 1, point: point + 1, back: true },
                        bottom_right: GridVertex { slice: slice + 1, point, back: true },
                        normal: FaceNormal::BackEdge { slice, point },
                    },
                );
                point = point + 1;
            }
            proof {
                assert(slice * edges + edges == (slice + 1) * edges) by (nonlinear_arith);
            }
            slice = slice + 1;
        }
        proof {
            assert(quads@.len() == self.right_face_spec().len()) by (nonlinear_arith)
                requires
                    quads@.len() == slice * edges,
                    slice == self.spec_subdivisions(),
                    edges == self.spec_point_count() - 1,
                    edges >= 1,
            ;
            assert(quads@ =~= self.right_face_spec());
        }
        quads
    }

    /// Face extraction depends on nothing but the layout: two layouts of the same point count
    /// and subdivisions, or two calls on one layout, give identical quads for every face.
    pub proof fn lemma_faces_deterministic(self, other: PlateLayout)
        requires
            self.spec_point_count() == other.spec_point_count(),
            self.spec_subdivisions() == other.spec_subdivisions(),
        ensures
            self.front_face_spec() == other.front_face_spec(),
            self.back_face_spec() == other.back_face_spec(),
            self.left_face_spec() == other.left_face_spec(),
            self.right_face_spec() == other.right_face_spec(),
            self.top_face_spec() == other.top_face_spec(),
            self.bottom_face_spec() == other.bottom_face_spec(),
    {
        assert(self.front_face_spec() =~= other.front_face_spec());
        assert(self.back_face_spec() =~= other.back_face_spec());
        assert(self.left_face_spec() =~= other.left_face_spec());
        assert(self.right_face_spec() =~= other.right_face_spec());
        assert(self.top_face_spec() =~= other.top_face_spec());
        assert(self.bottom_face_spec() =~= other.bottom_face_spec());
    }

    /// Number of polyline points.
    pub fn point_count(&self) -> (r: usize)
        ensures
            r == self.spec_point_count(),
            r >= 2,
    {
        proof {
            use_type_invariant(self);
        }
        self.point_count
    }

    /// Number of extrusion steps.
    pub fn subdivisions(&self) -> (r: usize)
        ensures
            r == self.spec_subdivisions(),
            r >= 1,
    {
        proof {
            use_type_invariant(self);
        }
        self.subdivisions
    }

    /// Number of slices: one at the start of the extrusion and one after each step.
    pub fn slice_count(&self) -> (r: usize)
        ensures
            r == self.spec_subdivisions() + 1,
    {
        proof {
            use_type_invariant(self);
            lemma_slices_fit(self.point_count as int, self.subdivisions as int);
        }
        self.subdivisions + 1
    }
}

} // verus!
