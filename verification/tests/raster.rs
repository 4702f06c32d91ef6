//! The framebuffer's depth-tested writes and the rasterizer.

use planetarium::color::Color;
use planetarium::fixed::FP_ONE;
use planetarium::framebuffer::{Framebuffer, DEPTH_FAR};
use planetarium::linear::{Vec2, Vec3};
use planetarium::triangle::triangle;
use planetarium::vertex::Vertex;

fn screen_vertex(x: i64, y: i64, z: i64, intensity: i64) -> Vertex {
    Vertex {
        position: Vec3 { x, y, z },
        normal: Vec3 { x: 0, y: 0, z: FP_ONE },
        tex_coords: Vec2 { x: 0, y: 0 },
        intensity,
        transformed_position: Vec3 { x, y, z },
        transformed_normal: Vec3 { x: 0, y: 0, z: FP_ONE },
    }
}

#[test]
fn new_framebuffer_is_black_and_far() {
    let fb = Framebuffer::new(4, 3);
    for y in 0..3 {
        for x in 0..4 {
            assert_eq!(fb.get_color(x, y), 0);
            assert_eq!(fb.get_depth(x, y), DEPTH_FAR);
        }
    }
}

#[test]
fn clear_resets_to_background() {
    let mut fb = Framebuffer::new(4, 4);
    fb.set_background_color(0x123456);
    fb.set_current_color(0xFFFFFF);
    fb.point(2, 2, 100);
    fb.clear();
    for y in 0..4 {
        for x in 0..4 {
            assert_eq!(fb.get_color(x, y), 0x123456);
            assert_eq!(fb.get_depth(x, y), DEPTH_FAR);
        }
    }
}

#[test]
fn write_then_identical_write_changes_nothing() {
    let mut fb = Framebuffer::new(4, 4);
    fb.set_current_color(0xAB01CD);
    fb.point(1, 2, 77);
    let color_once = fb.get_color(1, 2);
    let depth_once = fb.get_depth(1, 2);
    fb.point(1, 2, 77);
    assert_eq!(fb.get_color(1, 2), color_once);
    assert_eq!(fb.get_depth(1, 2), depth_once);
    assert_eq!(color_once, 0xAB01CD);
    assert_eq!(depth_once, 77);
}

#[test]
fn nearer_depth_wins_in_either_order() {
    // nearer first: the later, farther write is rejected
    let mut fb = Framebuffer::new(4, 4);
    fb.set_current_color(111);
    fb.point(1, 1, 100);
    fb.set_current_color(222);
    fb.point(1, 1, 200);
    assert_eq!(fb.get_color(1, 1), 111);
    assert_eq!(fb.get_depth(1, 1), 100);

    // farther first: the later, nearer write overwrites
    let mut fb2 = Framebuffer::new(4, 4);
    fb2.set_current_color(222);
    fb2.point(1, 1, 200);
    fb2.set_current_color(111);
    fb2.point(1, 1, 100);
    assert_eq!(fb2.get_color(1, 1), 111);
    assert_eq!(fb2.get_depth(1, 1), 100);
}

#[test]
fn equal_depth_keeps_the_earlier_pixel() {
    let mut fb = Framebuffer::new(4, 4);
    fb.set_current_color(111);
    fb.point(1, 1, 100);
    fb.set_current_color(222);
    fb.point(1, 1, 100);
    assert_eq!(fb.get_color(1, 1), 111);
}

#[test]
fn out_of_bounds_writes_never_mutate() {
    let mut fb = Framebuffer::new(4, 4);
    fb.set_current_color(0xFFFFFF);
    fb.point(4, 0, 1);
    fb.point(0, 4, 1);
    fb.point(1000, 1000, 1);
    for y in 0..4 {
        for x in 0..4 {
            assert_eq!(fb.get_color(x, y), 0);
            assert_eq!(fb.get_depth(x, y), DEPTH_FAR);
        }
    }
}

#[test]
fn positive_area_triangle_emits_fragments() {
    let v0 = screen_vertex(0, 0, 0, FP_ONE);
    let v1 = screen_vertex(4 * FP_ONE, 0, 0, FP_ONE);
    let v2 = screen_vertex(0, 4 * FP_ONE, 0, FP_ONE);
    let frags = triangle(&v0, &v1, &v2);
    assert!(!frags.is_empty());
    // every fragment lies in the scanned bounding box
    for f in &frags {
        assert!(f.x >= 0 && f.x <= 4);
        assert!(f.y >= 0 && f.y <= 4);
    }
    // the corner pixel of the first vertex is covered
    assert!(frags.iter().any(|f| f.x == 0 && f.y == 0));
    // an interior pixel is covered
    assert!(frags.iter().any(|f| f.x == 1 && f.y == 1));
}

#[test]
fn reversed_winding_is_still_rasterized() {
    let v0 = screen_vertex(0, 0, 0, FP_ONE);
    let v1 = screen_vertex(0, 4 * FP_ONE, 0, FP_ONE);
    let v2 = screen_vertex(4 * FP_ONE, 0, 0, FP_ONE);
    let frags = triangle(&v0, &v1, &v2);
    assert!(frags.iter().any(|f| f.x == 1 && f.y == 1));
}

#[test]
fn collinear_triangle_emits_nothing() {
    let v0 = screen_vertex(0, 0, 0, FP_ONE);
    let v1 = screen_vertex(2 * FP_ONE, 2 * FP_ONE, 0, FP_ONE);
    let v2 = screen_vertex(4 * FP_ONE, 4 * FP_ONE, 0, FP_ONE);
    let frags = triangle(&v0, &v1, &v2);
    assert_eq!(frags.len(), 0);
}

#[test]
fn coincident_triangle_emits_nothing() {
    let v = screen_vertex(3 * FP_ONE, 3 * FP_ONE, 0, FP_ONE);
    let frags = triangle(&v, &v, &v);
    assert_eq!(frags.len(), 0);
}

#[test]
fn vertex_attributes_interpolate_exactly_at_corners() {
    let mut v0 = screen_vertex(0, 0, 1000, FP_ONE);
    let v1 = screen_vertex(4 * FP_ONE, 0, 5000, 0);
    let v2 = screen_vertex(0, 4 * FP_ONE, 9000, 0);
    v0.intensity = FP_ONE;
    let frags = triangle(&v0, &v1, &v2);
    let corner = frags.iter().find(|f| f.x == 0 && f.y == 0).expect("corner fragment");
    // at the first vertex the barycentric weights are (1, 0, 0)
    assert_eq!(corner.depth, 1000);
    assert_eq!(corner.intensity, FP_ONE);
}

#[test]
fn color_blend_is_linear() {
    let a = Color::new(10, 200, 0);
    let b = Color::new(20, 100, 255);
    let at0 = a.lerp(&b, 0);
    assert_eq!((at0.r, at0.g, at0.b), (10, 200, 0));
    let at1 = a.lerp(&b, FP_ONE);
    assert_eq!((at1.r, at1.g, at1.b), (20, 100, 255));
    let mid = a.lerp(&b, FP_ONE / 2);
    assert!((2 * mid.r as i32 - 30).abs() <= 1);
    assert!((2 * mid.g as i32 - 300).abs() <= 1);
    assert!((2 * mid.b as i32 - 255).abs() <= 1);
}

#[test]
fn color_scale_clamps_to_channel_range() {
    let c = Color::new(100, 200, 255);
    let half = c.scale(FP_ONE / 2);
    assert_eq!((half.r, half.g, half.b), (50, 100, 127));
    let doubled = c.scale(2 * FP_ONE);
    assert_eq!((doubled.r, doubled.g, doubled.b), (200, 255, 255));
    let negative = c.scale(-FP_ONE);
    assert_eq!((negative.r, negative.g, negative.b), (0, 0, 0));
}

#[test]
fn color_packs_to_hex() {
    assert_eq!(Color::new(0x12, 0x34, 0x56).to_hex(), 0x123456);
    assert_eq!(Color::new(255, 255, 255).to_hex(), 0xFFFFFF);
    assert!(Color::new(0, 0, 0).is_black());
    assert!(!Color::new(0, 1, 0).is_black());
}
