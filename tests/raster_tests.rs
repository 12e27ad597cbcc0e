use blazen::gfx::{pixel, DrawIndex, Framebuffer, FRAMEBUFFER_BYTES};
use blazen::linalg::ONE;
use blazen::raster::{Texture, TextureColors, Triangle, TriangleFill, CARD_UV0};

fn color_triangle(v: [[i32; 2]; 3], c: DrawIndex) -> Triangle {
    Triangle { vertices: v, fill: TriangleFill::Color(c) }
}

#[test]
fn containment_of_right_triangle() {
    let t = color_triangle([[0, 0], [10, 0], [0, 10]], DrawIndex::First);
    assert!(t.barycentric([1, 1]).is_some());
    assert!(t.barycentric([9, 9]).is_none());
    assert!(t.barycentric([0, 0]).is_some());
    assert!(t.barycentric([10, 0]).is_some());
    assert!(t.barycentric([5, 5]).is_some());
    assert!(t.barycentric([-1, 0]).is_none());
}

#[test]
fn weights_sum_to_determinant() {
    let t = color_triangle([[0, 0], [10, 0], [0, 10]], DrawIndex::First);
    let b = t.barycentric([2, 3]).unwrap();
    assert_eq!(b.alpha() + b.beta() + b.gamma(), b.det());
    for w in [b.alpha(), b.beta(), b.gamma()] {
        if b.det() > 0 {
            assert!(0 <= w && w <= b.det());
        } else {
            assert!(b.det() <= w && w <= 0);
        }
    }
    // The other winding gives a negative determinant and the same ratios.
    let r = color_triangle([[0, 0], [0, 10], [10, 0]], DrawIndex::First);
    let c = r.barycentric([2, 3]).unwrap();
    assert!(c.det() < 0);
    assert_eq!(c.alpha() + c.beta() + c.gamma(), c.det());
}

#[test]
fn degenerate_triangle_has_no_inside() {
    let t = color_triangle([[0, 0], [5, 5], [10, 10]], DrawIndex::First);
    assert!(t.barycentric([5, 5]).is_none());
    assert!(t.barycentric([0, 0]).is_none());
    let mut fb = Framebuffer::new();
    t.render(&[], &mut fb);
    assert!(fb.bytes.iter().all(|b| *b == 0));
}

#[test]
fn bounding_box() {
    let t = color_triangle([[5, -2], [-3, 7], [4, 1]], DrawIndex::First);
    assert_eq!(t.normalize(), [[-3, -2], [5, 7]]);
}

#[test]
fn pixel_packing_round_trip() {
    let mut fb = Framebuffer::new();
    fb.bytes[0] = 0b1010_0101;
    pixel(0, 0, DrawIndex::Fourth, &mut fb);
    pixel(1, 0, DrawIndex::First, &mut fb);
    pixel(2, 0, DrawIndex::Third, &mut fb);
    pixel(3, 0, DrawIndex::Second, &mut fb);
    assert_eq!(fb.color_at(0, 0), Some(3));
    assert_eq!(fb.color_at(1, 0), Some(0));
    assert_eq!(fb.color_at(2, 0), Some(2));
    assert_eq!(fb.color_at(3, 0), Some(1));
    assert_eq!(fb.bytes[0], 0b01_10_00_11);
}

#[test]
fn one_slot_write_keeps_neighbours() {
    let mut fb = Framebuffer::new();
    fb.bytes[40] = 0b11_10_01_00;
    // (1, 1) lives in byte (160 + 1) / 4 = 40, field 1.
    pixel(1, 1, DrawIndex::Fourth, &mut fb);
    assert_eq!(fb.bytes[40], 0b11_10_11_00);
    // Transparent writes (0 - 1) & 3 = 3.
    pixel(0, 1, DrawIndex::Transparent, &mut fb);
    assert_eq!(fb.color_at(0, 1), Some(3));
}

#[test]
fn clipping_writes_nothing() {
    let mut fb = Framebuffer::new();
    for (x, y) in [(-1, 0), (160, 0), (0, -1), (0, 160), (i32::MIN, i32::MAX), (500, 500)] {
        pixel(x, y, DrawIndex::Fourth, &mut fb);
        assert_eq!(fb.color_at(x, y), None);
    }
    assert_eq!(fb.bytes.len(), FRAMEBUFFER_BYTES);
    assert!(fb.bytes.iter().all(|b| *b == 0));
    pixel(159, 159, DrawIndex::Fourth, &mut fb);
    assert_eq!(fb.bytes[FRAMEBUFFER_BYTES - 1], 0b11_00_00_00);
}

#[test]
fn color_fill_render_covers_box_minus_edges() {
    let t = color_triangle([[0, 0], [4, 0], [0, 4]], DrawIndex::Second);
    let mut fb = Framebuffer::new();
    t.render(&[], &mut fb);
    for y in 0..6 {
        for x in 0..6 {
            // Maximum edges of the box are excluded.
            let drawn = x < 4 && y < 4 && x + y <= 4;
            assert_eq!(fb.color_at(x, y), Some(if drawn { 1 } else { 0 }), "({}, {})", x, y);
        }
    }
}

#[test]
fn render_clips_off_screen_parts() {
    let t = color_triangle([[-10, -10], [170, -10], [-10, 170]], DrawIndex::Fourth);
    let mut fb = Framebuffer::new();
    t.render(&[], &mut fb);
    assert_eq!(fb.color_at(0, 0), Some(3));
    assert_eq!(fb.color_at(159, 159), Some(0));
    assert_eq!(fb.bytes.len(), FRAMEBUFFER_BYTES);
}

#[test]
fn one_bpp_texture_sampling() {
    // Texel (0, 0) is set, all others clear.
    let mut texels = vec![0u8; 600];
    texels[0] = 0b1000_0000;
    let tex = Texture { uv: CARD_UV0, colors: TextureColors::OneBpp([DrawIndex::First, DrawIndex::Fourth]) };
    let t = Triangle { vertices: [[0, 0], [60, 0], [0, 80]], fill: TriangleFill::Texture(tex) };
    let mut fb = Framebuffer::new();
    t.render(&texels, &mut fb);
    assert_eq!(fb.color_at(0, 0), Some(3));
    assert_eq!(fb.color_at(1, 0), Some(0));
    assert_eq!(fb.color_at(0, 1), Some(0));
}

#[test]
fn two_bpp_texture_sampling() {
    // Texel (1, 0) reads bits 2 and 3: low bit 1, high bit 1 -> palette slot 3.
    let mut texels = vec![0u8; 1200];
    texels[0] = 0b0011_0000;
    let tex = Texture {
        uv: CARD_UV0,
        colors: TextureColors::TwoBpp([DrawIndex::First, DrawIndex::Second, DrawIndex::Third, DrawIndex::Fourth]),
    };
    let t = Triangle { vertices: [[0, 0], [60, 0], [0, 80]], fill: TriangleFill::Texture(tex) };
    let mut fb = Framebuffer::new();
    t.render(&texels, &mut fb);
    assert_eq!(fb.color_at(1, 0), Some(3));
    assert_eq!(fb.color_at(0, 0), Some(0));
    assert_eq!(fb.color_at(2, 0), Some(0));
}

#[test]
fn texture_coordinates_are_clamped() {
    // A texture x of exactly 1 lands on column 60, held to the last column 59.
    let mut texels = vec![0u8; 600];
    texels[7] = 0b0001_0000;
    let tex = Texture {
        uv: [[ONE, 0], [ONE, ONE], [0, ONE]],
        colors: TextureColors::OneBpp([DrawIndex::First, DrawIndex::Third]),
    };
    let t = Triangle { vertices: [[0, 0], [10, 0], [0, 10]], fill: TriangleFill::Texture(tex) };
    let mut fb = Framebuffer::new();
    t.render(&texels, &mut fb);
    assert_eq!(fb.color_at(0, 0), Some(2));
}
