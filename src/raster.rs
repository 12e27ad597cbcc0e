//! Bounding-box scan of a triangle with barycentric inside test and texture lookup.
use vstd::prelude::*;
use crate::linalg::ONE;
use crate::gfx::{
    color_at, color_bits, lemma_pixel_round_trip, on_screen, pixel, pixel_spec, DrawIndex, FRAMEBUFFER_BYTES, Framebuffer, ONE_BPP_BYTES, TEXTURE_HEIGHT, TEXTURE_WIDTH, TWO_BPP_BYTES,
};

verus! {

/// How the palette indices a texture holds map to draw indices.
#[derive(Clone, Copy, Debug)]
pub enum TextureColors {
    OneBpp([DrawIndex; 2]),
    TwoBpp([DrawIndex; 4]),
}

/// Texture coordinates for the three vertices (fixed point, `[0, ONE]`) and
/// the colour mapping. The texels themselves live in the shared buffer that
/// is handed to `render`.
#[derive(Clone, Copy, Debug)]
pub struct Texture {
    pub uv: [[i64; 2]; 3],
    pub colors: TextureColors,
}

impl Texture {
    pub open spec fn wf(&self) -> bool {
        forall|i: int, j: int| 0 <= i < 3 && 0 <= j < 2 ==> 0 <= #[trigger] self.uv[i][j] <= ONE
    }

    /// Bytes of the shared buffer that sampling may read.
    pub open spec fn needed_bytes(&self) -> int {
        match self.colors {
            TextureColors::OneBpp(_) => ONE_BPP_BYTES as int,
            TextureColors::TwoBpp(_) => TWO_BPP_BYTES as int,
        }
    }
}

/// Texture coordinates of the first triangle of a card.
pub const CARD_UV0: [[i64; 2]; 3] = [[0, 0], [ONE, 0], [0, ONE]];

/// Texture coordinates of the second triangle of a card.
pub const CARD_UV1: [[i64; 2]; 3] = [[ONE, 0], [ONE, ONE], [0, ONE]];

#[derive(Clone, Copy, Debug)]
pub enum TriangleFill {
    Texture(Texture),
    Color(DrawIndex),
}

/// A screen-space triangle and what fills it.
#[derive(Clone, Copy, Debug)]
pub struct Triangle {
    pub vertices: [[i32; 2]; 3],
    pub fill: TriangleFill,
}

/// Signed doubled areas: `u1` and `u2` weigh the first two vertices, and
/// `det - u1 - u2` the third.
#[derive(Clone, Copy, Debug, PartialEq, Eq, Structural)]
pub struct Barycentric2D {
    pub u1: i128,
    pub u2: i128,
    pub det: i128,
}

impl Barycentric2D {
    pub fn alpha(&self) -> (r: i128)
        ensures
            r == self.u1,
    {
        self.u1
    }

    pub fn beta(&self) -> (r: i128)
        ensures
            r == self.u2,
    {
        self.u2
    }

    /// Weights that the scan of a triangle with `i32` vertices produces.
    pub open spec fn wf(&self) -> bool {
        &&& -0x2_0000_0000_0000_0000 <= self.u1 <= 0x2_0000_0000_0000_0000
        &&& -0x2_0000_0000_0000_0000 <= self.u2 <= 0x2_0000_0000_0000_0000
        &&& -0x2_0000_0000_0000_0000 <= self.det <= 0x2_0000_0000_0000_0000
    }

    pub fn gamma(&self) -> (r: i128)
        requires
            self.wf(),
        ensures
            r == self.gamma_spec(),
    {
        self.det - self.u1 - self.u2
    }

    pub open spec fn gamma_spec(&self) -> int {
        self.det - self.u1 - self.u2
    }

    pub fn det(&self) -> (r: i128)
        ensures
            r == self.det,
    {
        self.det
    }
}

/// `(x0 - x2)(y1 - y2) - (x1 - x2)(y0 - y2)`: twice the signed area.
pub open spec fn det_spec(v: [[i32; 2]; 3]) -> int {
    (v[0][0] - v[2][0]) * (v[1][1] - v[2][1]) - (v[1][0] - v[2][0]) * (v[0][1] - v[2][1])
}

pub open spec fn u1_spec(v: [[i32; 2]; 3], x: int, y: int) -> int {
    (x - v[2][0]) * (v[1][1] - v[2][1]) + (v[2][0] - v[1][0]) * (y - v[2][1])
}

pub open spec fn u2_spec(v: [[i32; 2]; 3], x: int, y: int) -> int {
    (x - v[2][0]) * (v[2][1] - v[0][1]) + (v[0][0] - v[2][0]) * (y - v[2][1])
}

/// `u` is zero or has the sign of `d`.
pub open spec fn agrees(u: int, d: int) -> bool {
    u == 0 || (u > 0) == (d > 0)
}

/// Inside or on an edge of a non-degenerate triangle.
pub open spec fn inside_spec(v: [[i32; 2]; 3], x: int, y: int) -> bool {
    let det = det_spec(v);
    let u1 = u1_spec(v, x, y);
    let u2 = u2_spec(v, x, y);
    &&& det != 0
    &&& agrees(u1, det)
    &&& agrees(u2, det)
    &&& agrees(det - u1 - u2, det)
}

/// Floor division for a positive divisor.
pub open spec fn floor_div(n: int, d: int) -> int {
    n / d
}

/// The texel coordinate along an axis of `size` texels: the interpolated
/// coordinate `n / (det * ONE)` scaled to the texture, floored and clamped.
pub open spec fn texel_spec(n: int, det: int, size: int) -> int {
    let q = if det < 0 { floor_div(-(n * size), -(det * ONE)) } else { floor_div(n * size, det * ONE) };
    if q < 0 {
        0
    } else if q >= size {
        size - 1
    } else {
        q
    }
}

/// Bit `i` of a buffer, most significant bit of each byte first.
pub open spec fn bit_spec(buf: Seq<u8>, i: int) -> u8 {
    (buf[i / 8] >> ((7 - i % 8) as u8)) & 1u8
}

/// The interpolated coordinate along axis `k` before scaling: `u1·uv0 + u2·uv1 + u3·uv2`.
pub open spec fn uv_sum(t: Texture, u1: int, u2: int, u3: int, k: int) -> int {
    u1 * t.uv[0][k] + u2 * t.uv[1][k] + u3 * t.uv[2][k]
}

/// The draw index a pixel with barycentric weights `(u1, u2, det)` gets.
pub open spec fn fill_color(fill: TriangleFill, texels: Seq<u8>, u1: int, u2: int, det: int) -> DrawIndex {
    match fill {
        TriangleFill::Color(c) => c,
        TriangleFill::Texture(t) => {
            let u3 = det - u1 - u2;
            let tx = texel_spec(uv_sum(t, u1, u2, u3, 0), det, TEXTURE_WIDTH as int);
            let ty = texel_spec(uv_sum(t, u1, u2, u3, 1), det, TEXTURE_HEIGHT as int);
            let i = tx + ty * TEXTURE_WIDTH;
            match t.colors {
                TextureColors::OneBpp(idxs) => idxs[bit_spec(texels, i) as int],
                TextureColors::TwoBpp(idxs) => idxs[bit_spec(texels, 2 * i) + 2 * bit_spec(texels, 2 * i + 1)],
            }
        },
    }
}

/// The framebuffer after the rasterizer visits pixel `(x, y)`.
pub open spec fn paint_px(tri: Triangle, texels: Seq<u8>, fb: Seq<u8>, x: int, y: int) -> Seq<u8> {
    if inside_spec(tri.vertices, x, y) {
        let v = tri.vertices;
        pixel_spec(fb, x, y, fill_color(tri.fill, texels, u1_spec(v, x, y), u2_spec(v, x, y), det_spec(v)))
    } else {
        fb
    }
}

/// The framebuffer after visiting pixels `lx .. x` of row `y`, left to right.
pub open spec fn paint_row(tri: Triangle, texels: Seq<u8>, fb: Seq<u8>, y: int, lx: int, x: int) -> Seq<u8>
    decreases x - lx,
{
    if x <= lx {
        fb
    } else {
        paint_px(tri, texels, paint_row(tri, texels, fb, y, lx, x - 1), x - 1, y)
    }
}

/// The framebuffer after visiting rows `ly .. y`, top to bottom, each over `lx .. hx`.
pub open spec fn paint_rows(tri: Triangle, texels: Seq<u8>, fb: Seq<u8>, ly: int, y: int, lx: int, hx: int) -> Seq<u8>
    decreases y - ly,
{
    if y <= ly {
        fb
    } else {
        paint_row(tri, texels, paint_rows(tri, texels, fb, ly, y - 1, lx, hx), y - 1, lx, hx)
    }
}

pub open spec fn min3(a: int, b: int, c: int) -> int {
    if a <= b && a <= c { a } else if b <= c { b } else { c }
}

pub open spec fn max3(a: int, b: int, c: int) -> int {
    if a >= b && a >= c { a } else if b >= c { b } else { c }
}

/// The bounding box `[[min x, min y], [max x, max y]]` of the vertices.
pub open spec fn box_spec(v: [[i32; 2]; 3]) -> [[i32; 2]; 2] {
    [
        [min3(v[0][0] as int, v[1][0] as int, v[2][0] as int) as i32, min3(v[0][1] as int, v[1][1] as int, v[2][1] as int) as i32],
        [max3(v[0][0] as int, v[1][0] as int, v[2][0] as int) as i32, max3(v[0][1] as int, v[1][1] as int, v[2][1] as int) as i32],
    ]
}

fn min_i32(a: i32, b: i32, c: i32) -> (r: i32)
    ensures
        r == min3(a as int, b as int, c as int),
{
    if a <= b && a <= c { a } else if b <= c { b } else { c }
}

fn max_i32(a: i32, b: i32, c: i32) -> (r: i32)
    ensures
        r == max3(a as int, b as int, c as int),
{
    if a >= b && a >= c { a } else if b >= c { b } else { c }
}

/// Bounds on the cross products, so that they fit an `i128`.
proof fn lemma_cross_bound(a: int, b: int, c: int, d: int)
    requires
        -0x1_0000_0000 <= a <= 0x1_0000_0000,
        -0x1_0000_0000 <= b <= 0x1_0000_0000,
        -0x1_0000_0000 <= c <= 0x1_0000_0000,
        -0x1_0000_0000 <= d <= 0x1_0000_0000,
    ensures
        -0x2_0000_0000_0000_0000 <= a * b + c * d <= 0x2_0000_0000_0000_0000,
        -0x2_0000_0000_0000_0000 <= a * b - c * d <= 0x2_0000_0000_0000_0000,
{
    assert(-0x1_0000_0000_0000_0000 <= a * b <= 0x1_0000_0000_0000_0000) by (nonlinear_arith)
        requires -0x1_0000_0000 <= a <= 0x1_0000_0000, -0x1_0000_0000 <= b <= 0x1_0000_0000;
    assert(-0x1_0000_0000_0000_0000 <= c * d <= 0x1_0000_0000_0000_0000) by (nonlinear_arith)
        requires -0x1_0000_0000 <= c <= 0x1_0000_0000, -0x1_0000_0000 <= d <= 0x1_0000_0000;
}

fn texel(n: i128, det: i128, size: i128) -> (r: usize)
    requires
        det != 0,
        -0x1000_0000_0000_0000_0000_0000 <= n <= 0x1000_0000_0000_0000_0000_0000,
        -0x1000_0000_0000_0000_0000 <= det <= 0x1000_0000_0000_0000_0000,
        1 <= size <= 128,
    ensures
        r == texel_spec(n as int, det as int, size as int),
        r < size,
{
    proof {
        assert(-0x10_0000_0000_0000_0000_0000_0000 <= n * size <= 0x10_0000_0000_0000_0000_0000_0000) by (nonlinear_arith)
            requires -0x1000_0000_0000_0000_0000_0000 <= n <= 0x1000_0000_0000_0000_0000_0000, 1 <= size <= 128;
        assert(-0x10_0000_0000_0000_0000_0000_0000 <= det * ONE <= 0x10_0000_0000_0000_0000_0000_0000) by (nonlinear_arith)
            requires -0x1000_0000_0000_0000_0000 <= det <= 0x1000_0000_0000_0000_0000;
        assert(det * ONE != 0) by (nonlinear_arith)
            requires det != 0;
    }
    let num: i128;
    let den: i128;
    if det < 0 {
        num = -(n * size);
        den = -(det * (ONE as i128));
    } else {
        num = n * size;
        den = det * (ONE as i128);
    }
    assert(den > 0);
    if num < 0 {
        proof {
            let f = floor_div(num as int, den as int);
            vstd::arithmetic::div_mod::lemma_fundamental_div_mod(num as int, den as int);
            assert(f < 0) by (nonlinear_arith)
                requires num == den * f + (num as int % den as int), 0 <= num as int % den as int, num < 0, den > 0;
        }
        return 0;
    }
    let q = num / den;
    if q >= size {
        (size - 1) as usize
    } else {
        q as usize
    }
}

fn bit(buf: &[u8], i: usize) -> (r: u8)
    requires
        i / 8 < buf@.len(),
    ensures
        r == bit_spec(buf@, i as int),
        r < 2,
{
    let b = buf[i / 8];
    let s = (7 - i % 8) as u8;
    let r = (b >> s) & 1;
    assert((b >> s) & 1u8 < 2) by (bit_vector);
    r
}

impl Triangle {
    /// The framebuffer after rasterizing: every pixel of the bounding box
    /// (minimum inclusive, maximum exclusive) visited row by row.
    pub open spec fn spec_render(self, texels: Seq<u8>, fb: Seq<u8>) -> Seq<u8> {
        let bx = box_spec(self.vertices);
        paint_rows(self, texels, fb, bx[0][1] as int, bx[1][1] as int, bx[0][0] as int, bx[1][0] as int)
    }

    /// Whether `render` may sample this triangle's fill from `texels`.
    pub open spec fn fill_ready(self, texels: Seq<u8>) -> bool {
        match self.fill {
            TriangleFill::Texture(t) => t.wf() && texels.len() >= t.needed_bytes(),
            TriangleFill::Color(_) => true,
        }
    }

    /// The bounding box of the vertices: `[[min x, min y], [max x, max y]]`.
    pub fn normalize(&self) -> (r: [[i32; 2]; 2])
        ensures
            r == box_spec(self.vertices),
    {
        let v = &self.vertices;
        let lx = min_i32(v[0][0], v[1][0], v[2][0]);
        let ly = min_i32(v[0][1], v[1][1], v[2][1]);
        let hx = max_i32(v[0][0], v[1][0], v[2][0]);
        let hy = max_i32(v[0][1], v[1][1], v[2][1]);
        [[lx, ly], [hx, hy]]
    }

    /// Barycentric weights of `pt` when it lies inside or on an edge of the
    /// triangle; `None` outside it, and for a degenerate (zero-area) triangle.
    pub fn barycentric(&self, pt: [i32; 2]) -> (r: Option<Barycentric2D>)
        ensures
            r is Some <==> inside_spec(self.vertices, pt[0] as int, pt[1] as int),
            r is Some ==> ({
                let b = r->Some_0;
                &&& b.wf()
                &&& b.det == det_spec(self.vertices)
                &&& b.u1 == u1_spec(self.vertices, pt[0] as int, pt[1] as int)
                &&& b.u2 == u2_spec(self.vertices, pt[0] as int, pt[1] as int)
            }),
    {
        let p = &self.vertices;
        let x0 = p[0][0] as i128;
        let y0 = p[0][1] as i128;
        let x1 = p[1][0] as i128;
        let y1 = p[1][1] as i128;
        let x2 = p[2][0] as i128;
        let y2 = p[2][1] as i128;
        let x = pt[0] as i128;
        let y = pt[1] as i128;
        proof {
            lemma_cross_bound(x0 - x2, y1 - y2, x1 - x2, y0 - y2);
            lemma_cross_bound(x - x2, y1 - y2, x2 - x1, y - y2);
            lemma_cross_bound(x - x2, y2 - y0, x0 - x2, y - y2);
        }
        let det = (x0 - x2) * (y1 - y2) - (x1 - x2) * (y0 - y2);
        let u1 = (x - x2) * (y1 - y2) + (x2 - x1) * (y - y2);
        let u2 = (x - x2) * (y2 - y0) + (x0 - x2) * (y - y2);
        let u3 = det - u1 - u2;
        if det == 0 {
            return None;
        }
        if u1 != 0 && (u1 > 0) != (det > 0) {
            return None;
        }
        if u2 != 0 && (u2 > 0) != (det > 0) {
            return None;
        }
        if u3 != 0 && (u3 > 0) != (det > 0) {
            return None;
        }
        Some(Barycentric2D { u1, u2, det })
    }

    /// The draw index for a pixel with the given weights.
    fn color(&self, texels: &[u8], b: &Barycentric2D) -> (r: DrawIndex)
        requires
            b.det != 0,
            b.wf(),
            self.fill_ready(texels@),
        ensures
            r == fill_color(self.fill, texels@, b.u1 as int, b.u2 as int, b.det as int),
    {
        match self.fill {
            TriangleFill::Color(c) => c,
            TriangleFill::Texture(t) => {
                let u1 = b.u1;
                let u2 = b.u2;
                let u3 = b.det - b.u1 - b.u2;
                proof {
                    assert(0 <= t.uv[0][0] <= ONE && 0 <= t.uv[1][0] <= ONE && 0 <= t.uv[2][0] <= ONE);
                    assert(0 <= t.uv[0][1] <= ONE && 0 <= t.uv[1][1] <= ONE && 0 <= t.uv[2][1] <= ONE);
                    lemma_weighted_bound(u1 as int, u2 as int, u3 as int, t.uv[0][0] as int, t.uv[1][0] as int, t.uv[2][0] as int);
                    lemma_weighted_bound(u1 as int, u2 as int, u3 as int, t.uv[0][1] as int, t.uv[1][1] as int, t.uv[2][1] as int);
                }
                let nx = u1 * (t.uv[0][0] as i128) + u2 * (t.uv[1][0] as i128) + u3 * (t.uv[2][0] as i128);
                let ny = u1 * (t.uv[0][1] as i128) + u2 * (t.uv[1][1] as i128) + u3 * (t.uv[2][1] as i128);
                let tx = texel(nx, b.det, TEXTURE_WIDTH as i128);
                let ty = texel(ny, b.det, TEXTURE_HEIGHT as i128);
                let i = tx + ty * TEXTURE_WIDTH;
                match t.colors {
                    TextureColors::OneBpp(idxs) => {
                        let k = bit(texels, i);
                        idxs[k as usize]
                    },
                    TextureColors::TwoBpp(idxs) => {
                        let lo = bit(texels, 2 * i);
                        let hi = bit(texels, 2 * i + 1);
                        idxs[(lo + 2 * hi) as usize]
                    },
                }
            },
        }
    }

    /// Rasterizes the triangle: every pixel of the bounding box (minimum
    /// inclusive, maximum exclusive), row by row, that lies inside or on an
    /// edge is written with the fill's draw index.
    pub fn render(&self, texels: &[u8], fb: &mut Framebuffer)
        requires
            old(fb).wf(),
            self.fill_ready(texels@),
        ensures
            final(fb).wf(),
            final(fb).bytes@ == self.spec_render(texels@, old(fb).bytes@),
    {
        let bx = self.normalize();
        let lx = bx[0][0];
        let ly = bx[0][1];
        let hx = bx[1][0];
        let hy = bx[1][1];
        let ghost fb0 = fb.bytes@;
        let mut y = ly;
        while y < hy
            invariant
                fb.wf(),
                ly <= y <= hy || (hy < ly && y == ly),
                bx == box_spec(self.vertices),
                lx == bx[0][0], ly == bx[0][1], hx == bx[1][0], hy == bx[1][1],
                self.fill_ready(texels@),
                fb.bytes@ == paint_rows(*self, texels@, fb0, ly as int, y as int, lx as int, hx as int),
            decreases hy - y,
        {
            let ghost row0 = fb.bytes@;
            let mut x = lx;
            while x < hx
                invariant
                    fb.wf(),
                    lx <= x <= hx || (hx < lx && x == lx),
                    ly <= y < hy,
                    self.fill_ready(texels@),
                    fb.bytes@ == paint_row(*self, texels@, row0, y as int, lx as int, x as int),
                decreases hx - x,
            {
                let ghost before = fb.bytes@;
                match self.barycentric([x, y]) {
                    Some(b) => {
                        let c = self.color(texels, &b);
                        pixel(x, y, c, fb);
                    },
                    None => {},
                }
                assert(fb.bytes@ == paint_px(*self, texels@, before, x as int, y as int));
                x = x + 1;
            }
            y = y + 1;
        }
    }
}

proof fn lemma_weighted_bound(u1: int, u2: int, u3: int, a: int, b: int, c: int)
    requires
        -0x2_0000_0000_0000_0000 <= u1 <= 0x2_0000_0000_0000_0000,
        -0x2_0000_0000_0000_0000 <= u2 <= 0x2_0000_0000_0000_0000,
        -0x6_0000_0000_0000_0000 <= u3 <= 0x6_0000_0000_0000_0000,
        0 <= a <= ONE,
        0 <= b <= ONE,
        0 <= c <= ONE,
    ensures
        -0x1000_0000_0000_0000_0000_0000 <= u1 * a + u2 * b + u3 * c <= 0x1000_0000_0000_0000_0000_0000,
        -0x2_0000_0000_0000_0000 * 65536 <= u1 * a <= 0x2_0000_0000_0000_0000 * 65536,
        -0x2_0000_0000_0000_0000 * 65536 <= u2 * b <= 0x2_0000_0000_0000_0000 * 65536,
        -0x6_0000_0000_0000_0000 * 65536 <= u3 * c <= 0x6_0000_0000_0000_0000 * 65536,
{
    assert(-0x2_0000_0000_0000_0000 * 65536 <= u1 * a <= 0x2_0000_0000_0000_0000 * 65536) by (nonlinear_arith)
        requires -0x2_0000_0000_0000_0000 <= u1 <= 0x2_0000_0000_0000_0000, 0 <= a <= 65536;
    assert(-0x2_0000_0000_0000_0000 * 65536 <= u2 * b <= 0x2_0000_0000_0000_0000 * 65536) by (nonlinear_arith)
        requires -0x2_0000_0000_0000_0000 <= u2 <= 0x2_0000_0000_0000_0000, 0 <= b <= 65536;
    assert(-0x6_0000_0000_0000_0000 * 65536 <= u3 * c <= 0x6_0000_0000_0000_0000 * 65536) by (nonlinear_arith)
        requires -0x6_0000_0000_0000_0000 <= u3 <= 0x6_0000_0000_0000_0000, 0 <= c <= 65536;
}

/// For a point inside or on an edge of a non-degenerate triangle the three
/// weights sum to the determinant, and each ratio `u / det` lies in `[0, 1]`.
pub proof fn lemma_barycentric_normalized(v: [[i32; 2]; 3], x: int, y: int)
    requires
        inside_spec(v, x, y),
    ensures
        ({
            let det = det_spec(v);
            let u1 = u1_spec(v, x, y);
            let u2 = u2_spec(v, x, y);
            let u3 = det - u1 - u2;
            &&& u1 + u2 + u3 == det
            &&& det > 0 ==> (0 <= u1 <= det && 0 <= u2 <= det && 0 <= u3 <= det)
            &&& det < 0 ==> (det <= u1 <= 0 && det <= u2 <= 0 && det <= u3 <= 0)
        }),
{
}

/// The two bits the rasterizer writes at an inside pixel.
pub open spec fn drawn_bits(tri: Triangle, texels: Seq<u8>, x: int, y: int) -> u8 {
    let v = tri.vertices;
    color_bits(fill_color(tri.fill, texels, u1_spec(v, x, y), u2_spec(v, x, y), det_spec(v)))
}

proof fn lemma_paint_px(tri: Triangle, texels: Seq<u8>, fb: Seq<u8>, x: int, y: int, px: int, py: int)
    requires
        fb.len() == FRAMEBUFFER_BYTES,
        on_screen(px, py),
    ensures
        paint_px(tri, texels, fb, x, y).len() == FRAMEBUFFER_BYTES,
        (x != px || y != py || !inside_spec(tri.vertices, px, py)) ==> color_at(paint_px(tri, texels, fb, x, y), px, py) == color_at(fb, px, py),
        (x == px && y == py && inside_spec(tri.vertices, px, py)) ==> color_at(paint_px(tri, texels, fb, x, y), px, py) == drawn_bits(tri, texels, px, py),
{
    if inside_spec(tri.vertices, x, y) && on_screen(x, y) {
        let v = tri.vertices;
        let d = fill_color(tri.fill, texels, u1_spec(v, x, y), u2_spec(v, x, y), det_spec(v));
        lemma_pixel_round_trip(fb, x, y, d, px, py);
    }
}

proof fn lemma_paint_row(tri: Triangle, texels: Seq<u8>, fb: Seq<u8>, y: int, lx: int, x: int, px: int, py: int)
    requires
        fb.len() == FRAMEBUFFER_BYTES,
        on_screen(px, py),
    ensures
        paint_row(tri, texels, fb, y, lx, x).len() == FRAMEBUFFER_BYTES,
        (py != y || px < lx || px >= x || !inside_spec(tri.vertices, px, py)) ==> color_at(paint_row(tri, texels, fb, y, lx, x), px, py) == color_at(fb, px, py),
        (py == y && lx <= px < x && inside_spec(tri.vertices, px, py)) ==> color_at(paint_row(tri, texels, fb, y, lx, x), px, py) == drawn_bits(tri, texels, px, py),
    decreases x - lx,
{
    if x > lx {
        let prev = paint_row(tri, texels, fb, y, lx, x - 1);
        lemma_paint_row(tri, texels, fb, y, lx, x - 1, px, py);
        lemma_paint_px(tri, texels, prev, x - 1, y, px, py);
    }
}

proof fn lemma_paint_rows(tri: Triangle, texels: Seq<u8>, fb: Seq<u8>, ly: int, y: int, lx: int, hx: int, px: int, py: int)
    requires
        fb.len() == FRAMEBUFFER_BYTES,
        on_screen(px, py),
    ensures
        paint_rows(tri, texels, fb, ly, y, lx, hx).len() == FRAMEBUFFER_BYTES,
        (py < ly || py >= y || px < lx || px >= hx || !inside_spec(tri.vertices, px, py)) ==> color_at(paint_rows(tri, texels, fb, ly, y, lx, hx), px, py) == color_at(fb, px, py),
        (ly <= py < y && lx <= px < hx && inside_spec(tri.vertices, px, py)) ==> color_at(paint_rows(tri, texels, fb, ly, y, lx, hx), px, py) == drawn_bits(tri, texels, px, py),
    decreases y - ly,
{
    if y > ly {
        let prev = paint_rows(tri, texels, fb, ly, y - 1, lx, hx);
        lemma_paint_rows(tri, texels, fb, ly, y - 1, lx, hx, px, py);
        lemma_paint_row(tri, texels, prev, y - 1, lx, hx, px, py);
    }
}

/// Rendering writes exactly the pixels of its bounding box (minimum edges
/// included, maximum edges left out) that lie inside or on an edge of the
/// triangle: each of them reads back the fill's colour there, and every other
/// pixel keeps what it held.
pub proof fn lemma_render_pixels(tri: Triangle, texels: Seq<u8>, fb: Seq<u8>, px: int, py: int)
    requires
        fb.len() == FRAMEBUFFER_BYTES,
        on_screen(px, py),
    ensures
        ({
            let bx = box_spec(tri.vertices);
            let drawn = inside_spec(tri.vertices, px, py) && bx[0][0] <= px < bx[1][0] && bx[0][1] <= py < bx[1][1];
            &&& drawn ==> color_at(tri.spec_render(texels, fb), px, py) == drawn_bits(tri, texels, px, py)
            &&& !drawn ==> color_at(tri.spec_render(texels, fb), px, py) == color_at(fb, px, py)
        }),
{
    let bx = box_spec(tri.vertices);
    lemma_paint_rows(tri, texels, fb, bx[0][1] as int, bx[1][1] as int, bx[0][0] as int, bx[1][0] as int, px, py);
}

} // verus!
