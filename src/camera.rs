use vstd::prelude::*;

use crate::vertex::{quad_corners, Rgb, Vertex};

verus! {

/// An exact fraction `num / den`, with `den > 0` in every value this crate
/// builds.
#[derive(Clone, Copy, Debug, PartialEq, Eq, Structural)]
pub struct Ratio {
    pub num: i64,
    pub den: i64,
}

pub open spec fn ratio(num: int, den: int) -> Ratio {
    Ratio { num: num as i64, den: den as i64 }
}

/// The view-projection matrix for a viewport of `width` by `height` pixels,
/// sixteen entries in column-major order. It is the orthographic projection of
/// `[0, width] x [height, 0]` (origin at the top left, `y` pointing down) with
/// near plane 0 and far plane 2, followed by the correction that keeps `x` and
/// `y` and maps depth from `[-1, 1]` to `[0, 1]`: `z' = z / 2 + w / 2`.
pub open spec fn projection(width: int, height: int) -> Seq<Ratio> {
    seq![
        ratio(2, width), ratio(0, 1), ratio(0, 1), ratio(0, 1),
        ratio(0, 1), ratio(-2, height), ratio(0, 1), ratio(0, 1),
        ratio(0, 1), ratio(0, 1), ratio(-1, 2), ratio(0, 1),
        ratio(-1, 1), ratio(1, 1), ratio(0, 1), ratio(1, 1),
    ]
}

/// Sum of two fractions, as a pair `(numerator, denominator)`.
pub open spec fn frac_add(a: (int, int), b: (int, int)) -> (int, int) {
    (a.0 * b.1 + b.0 * a.1, a.1 * b.1)
}

pub open spec fn frac_scale(r: Ratio, k: int) -> (int, int) {
    (r.num * k, r.den as int)
}

/// Row `row` of the product of the matrix `m` with the point `(x, y, 0, 1)`.
pub open spec fn clip_component(m: Seq<Ratio>, row: int, x: int, y: int) -> (int, int) {
    frac_add(
        frac_add(
            frac_add(frac_scale(m[row], x), frac_scale(m[4 + row], y)),
            frac_scale(m[8 + row], 0),
        ),
        frac_scale(m[12 + row], 1),
    )
}

/// Whether the fraction `f` has the value `k`.
pub open spec fn frac_is(f: (int, int), k: int) -> bool {
    f.1 != 0 && f.0 == k * f.1
}

/// Whether `m` sends the vertex `v` to the clip-space point `(cx, cy, 0, 1)`.
pub open spec fn maps_to(m: Seq<Ratio>, v: Vertex, cx: int, cy: int) -> bool {
    &&& frac_is(clip_component(m, 0, v.x as int, v.y as int), cx)
    &&& frac_is(clip_component(m, 1, v.x as int, v.y as int), cy)
    &&& frac_is(clip_component(m, 2, v.x as int, v.y as int), 0)
    &&& frac_is(clip_component(m, 3, v.x as int, v.y as int), 1)
}

/// The projection shared by both batches: the viewport's size, from which the
/// view-projection matrix is computed.
pub struct Camera {
    width: u32,
    height: u32,
}

impl Camera {
    pub closed spec fn width_spec(&self) -> int {
        self.width as int
    }

    pub closed spec fn height_spec(&self) -> int {
        self.height as int
    }

    pub fn new_from_size(width: u32, height: u32) -> (r: Self)
        ensures
            r.width_spec() == width,
            r.height_spec() == height,
    {
        Camera { width, height }
    }

    /// Takes the new viewport size; the matrix follows it.
    pub fn resize(&mut self, width: u32, height: u32)
        ensures
            final(self).width_spec() == width,
            final(self).height_spec() == height,
    {
        self.width = width;
        self.height = height;
    }

    pub fn size(&self) -> (r: (u32, u32))
        ensures
            r.0 == self.width_spec(),
            r.1 == self.height_spec(),
    {
        (self.width, self.height)
    }

    /// The view-projection matrix of the current viewport, column-major. An
    /// empty viewport has none.
    pub fn view_proj(&self) -> (r: Vec<Ratio>)
        requires
            self.width_spec() > 0,
            self.height_spec() > 0,
        ensures
            r@ == projection(self.width_spec(), self.height_spec()),
    {
        let w = self.width as i64;
        let h = self.height as i64;
        let z = Ratio { num: 0, den: 1 };
        let r = vec![
            Ratio { num: 2, den: w }, z, z, z,
            z, Ratio { num: -2, den: h }, z, z,
            z, z, Ratio { num: -1, den: 2 }, z,
            Ratio { num: -1, den: 1 }, Ratio { num: 1, den: 1 }, z, Ratio { num: 1, den: 1 },
        ];
        assert(r@ =~= projection(self.width_spec(), self.height_spec()));
        r
    }
}

proof fn lemma_frac_scale(r: Ratio, k: int, n: int, d: int)
    requires
        r.num == n,
        r.den == d,
    ensures
        frac_scale(r, k) == (n * k, d),
{
}

proof fn lemma_frac_add(a: (int, int), b: (int, int))
    ensures
        b == (0int, 1int) ==> frac_add(a, b) == a,
        a == (0int, 1int) ==> frac_add(a, b) == b,
        b.1 == 1 ==> frac_add(a, b) == (a.0 + b.0 * a.1, a.1),
{
    let (a0, a1, b0, b1) = (a.0, a.1, b.0, b.1);
    assert(b0 == 0 && b1 == 1 ==> a0 * b1 + b0 * a1 == a0 && a1 * b1 == a1) by (nonlinear_arith);
    assert(a0 == 0 && a1 == 1 ==> a0 * b1 + b0 * a1 == b0 && a1 * b1 == b1) by (nonlinear_arith);
    assert(b1 == 1 ==> a0 * b1 + b0 * a1 == a0 + b0 * a1 && a1 * b1 == a1) by (nonlinear_arith);
}

/// After a resize to `width` by `height`, the quad pushed at `(0, 0)` with the
/// viewport's size covers clip space exactly: its corners land on `(-1, 1)`,
/// `(1, 1)`, `(1, -1)` and `(-1, -1)`, at depth 0.
pub proof fn lemma_full_viewport_quad(width: u32, height: u32, color: Rgb)
    requires
        0 < width <= i32::MAX,
        0 < height <= i32::MAX,
    ensures
        maps_to(projection(width as int, height as int), quad_corners(0, 0, width as int, height as int, color)[0], -1, 1),
        maps_to(projection(width as int, height as int), quad_corners(0, 0, width as int, height as int, color)[1], 1, 1),
        maps_to(projection(width as int, height as int), quad_corners(0, 0, width as int, height as int, color)[2], 1, -1),
        maps_to(projection(width as int, height as int), quad_corners(0, 0, width as int, height as int, color)[3], -1, -1),
{
    let w = width as int;
    let h = height as int;
    let m = projection(w, h);
    assert(m[0] == ratio(2, w) && m[4] == ratio(0, 1) && m[8] == ratio(0, 1) && m[12] == ratio(-1, 1));
    assert(m[1] == ratio(0, 1) && m[5] == ratio(-2, h) && m[9] == ratio(0, 1) && m[13] == ratio(1, 1));
    assert(m[2] == ratio(0, 1) && m[6] == ratio(0, 1) && m[10] == ratio(-1, 2) && m[14] == ratio(0, 1));
    assert(m[3] == ratio(0, 1) && m[7] == ratio(0, 1) && m[11] == ratio(0, 1) && m[15] == ratio(1, 1));
    assert forall|x: int, y: int|
        #![trigger clip_component(m, 0, x, y)]
        clip_component(m, 0, x, y) == (2 * x - w, w) && clip_component(m, 1, x, y) == (h - 2 * y, h)
            && frac_is(clip_component(m, 2, x, y), 0) && frac_is(clip_component(m, 3, x, y), 1) by {
        lemma_frac_scale(m[0], x, 2, w);
        lemma_frac_scale(m[4], y, 0, 1);
        lemma_frac_scale(m[8], 0, 0, 1);
        lemma_frac_scale(m[12], 1, -1, 1);
        lemma_frac_scale(m[1], x, 0, 1);
        lemma_frac_scale(m[5], y, -2, h);
        lemma_frac_scale(m[9], 0, 0, 1);
        lemma_frac_scale(m[13], 1, 1, 1);
        lemma_frac_scale(m[2], x, 0, 1);
        lemma_frac_scale(m[6], y, 0, 1);
        lemma_frac_scale(m[10], 0, -1, 2);
        lemma_frac_scale(m[14], 1, 0, 1);
        lemma_frac_scale(m[3], x, 0, 1);
        lemma_frac_scale(m[7], y, 0, 1);
        lemma_frac_scale(m[11], 0, 0, 1);
        lemma_frac_scale(m[15], 1, 1, 1);
        let m0 = frac_add(frac_scale(m[0], x), frac_scale(m[4], y));
        lemma_frac_add(frac_scale(m[0], x), frac_scale(m[4], y));
        lemma_frac_add(m0, frac_scale(m[8], 0));
        lemma_frac_add(frac_add(m0, frac_scale(m[8], 0)), frac_scale(m[12], 1));
        let m1 = frac_add(frac_scale(m[1], x), frac_scale(m[5], y));
        lemma_frac_add(frac_scale(m[1], x), frac_scale(m[5], y));
        lemma_frac_add(m1, frac_scale(m[9], 0));
        lemma_frac_add(frac_add(m1, frac_scale(m[9], 0)), frac_scale(m[13], 1));
        let m2 = frac_add(frac_scale(m[2], x), frac_scale(m[6], y));
        lemma_frac_add(frac_scale(m[2], x), frac_scale(m[6], y));
        lemma_frac_add(m2, frac_scale(m[10], 0));
        lemma_frac_add(frac_add(m2, frac_scale(m[10], 0)), frac_scale(m[14], 1));
        let m3 = frac_add(frac_scale(m[3], x), frac_scale(m[7], y));
        lemma_frac_add(frac_scale(m[3], x), frac_scale(m[7], y));
        lemma_frac_add(m3, frac_scale(m[11], 0));
        lemma_frac_add(frac_add(m3, frac_scale(m[11], 0)), frac_scale(m[15], 1));
    }
}

} // verus!
