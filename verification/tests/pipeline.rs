//! The shading stages and whole-pipeline scenarios.

use planetarium::color::Color;
use planetarium::fixed::{FP_HALF, FP_ONE};
use planetarium::fragment::Fragment;
use planetarium::framebuffer::{Framebuffer, DEPTH_FAR};
use planetarium::linear::{Mat4, Vec2, Vec3};
use planetarium::noise::NoiseField;
use planetarium::shaders::{
    combined_shader, fragment_shader, ice_shader, jupiter_shader, metal_shader,
    moving_circles_shader, ring_shader, static_pattern_shader, vertex_shader, ShaderKind,
};
use planetarium::vertex::Vertex;
use planetarium::{
    create_cloud_noise, create_model_matrix, create_noise, create_perspective_matrix,
    create_view_matrix, create_viewport_matrix, render, Uniforms,
};

fn identity_uniforms(time: u32) -> Uniforms {
    Uniforms {
        model_matrix: Mat4::identity(),
        view_matrix: Mat4::identity(),
        projection_matrix: Mat4::identity(),
        viewport_matrix: Mat4::identity(),
        time,
        noise: create_noise(),
    }
}

fn sample_fragment(x: i64, y: i64, normal: Vec3) -> Fragment {
    Fragment {
        x: 1,
        y: 1,
        depth: FP_HALF,
        normal,
        vertex_position: Vec3 { x, y, z: 0 },
        intensity: FP_ONE,
    }
}

fn mesh_vertex(x: i64, y: i64, z: i64, normal: Vec3) -> Vertex {
    Vertex::new(Vec3 { x, y, z }, normal, Vec2 { x: 0, y: 0 }, FP_ONE)
}

#[test]
fn every_shader_is_deterministic() {
    let u = identity_uniforms(17);
    let f = sample_fragment(20000, -30000, Vec3 { x: 11111, y: 22222, z: 33333 });
    let kinds = [
        ShaderKind::Lava,
        ShaderKind::Ice,
        ShaderKind::Cloud,
        ShaderKind::Jupiter,
        ShaderKind::Ring,
        ShaderKind::Metal,
        ShaderKind::Combined,
    ];
    for kind in kinds {
        let c1 = fragment_shader(&f, &u, kind);
        let c2 = fragment_shader(&f, &u, kind);
        assert_eq!((c1.r, c1.g, c1.b), (c2.r, c2.g, c2.b));
    }
}

#[test]
fn metal_facing_the_light_is_the_full_highlight() {
    let u = identity_uniforms(0);
    let light = Vec3 { x: FP_HALF, y: FP_HALF, z: FP_ONE };
    let c = metal_shader(&sample_fragment(0, 0, light), &u);
    assert_eq!((c.r, c.g, c.b), (220, 220, 255));
}

#[test]
fn metal_facing_away_is_the_base_color() {
    let u = identity_uniforms(0);
    let away = Vec3 { x: -FP_HALF, y: -FP_HALF, z: -FP_ONE };
    let c = metal_shader(&sample_fragment(0, 0, away), &u);
    assert_eq!((c.r, c.g, c.b), (100, 100, 120));
}

#[test]
fn ice_at_origin_and_time_zero_is_pure_blue() {
    let u = identity_uniforms(0);
    let c = ice_shader(&sample_fragment(0, 0, Vec3 { x: 0, y: 0, z: FP_ONE }), &u);
    assert_eq!((c.r, c.g, c.b), (0, 0, 255));
}

#[test]
fn jupiter_storm_region_overrides_the_bands() {
    let u = identity_uniforms(0);
    // the fixed storm center lies at (0.3, -0.3) in shading coordinates
    let c = jupiter_shader(&sample_fragment(19661, -19661, Vec3 { x: 0, y: 0, z: FP_ONE }), &u);
    assert_eq!((c.r, c.g, c.b), (255, 69, 0));
}

#[test]
fn ring_center_is_the_ring_color() {
    let u = identity_uniforms(0);
    let c = ring_shader(&sample_fragment(0, 0, Vec3 { x: 0, y: 0, z: FP_ONE }), &u);
    assert_eq!((c.r, c.g, c.b), (200, 200, 200));
}

#[test]
fn static_pattern_at_origin() {
    let c = static_pattern_shader(&sample_fragment(0, 0, Vec3 { x: 0, y: 0, z: FP_ONE }));
    assert_eq!((c.r, c.g, c.b), (0, 255, 128));
}

#[test]
fn moving_circles_far_from_both_circles_is_black() {
    let u = identity_uniforms(0);
    let c = moving_circles_shader(&sample_fragment(0, 0, Vec3 { x: 0, y: 0, z: FP_ONE }), &u);
    assert!(c.is_black());
}

#[test]
fn combined_falls_back_to_the_static_pattern() {
    let u = identity_uniforms(0);
    let c = combined_shader(&sample_fragment(0, 0, Vec3 { x: 0, y: 0, z: FP_ONE }), &u);
    assert_eq!((c.r, c.g, c.b), (0, 255, 128));
}

#[test]
fn vertex_shader_with_identity_transforms_keeps_position() {
    let u = identity_uniforms(0);
    let v = mesh_vertex(FP_HALF, -FP_HALF, FP_ONE, Vec3 { x: 0, y: 0, z: FP_ONE });
    let t = vertex_shader(&v, &u);
    assert_eq!(t.transformed_position.x, FP_HALF);
    assert_eq!(t.transformed_position.y, -FP_HALF);
    assert_eq!(t.transformed_position.z, FP_ONE);
    assert_eq!(t.transformed_normal.z, FP_ONE);
    assert_eq!(t.position.x, v.position.x);
}

#[test]
fn viewport_matrix_maps_ndc_to_pixels() {
    let m = create_viewport_matrix(800 * FP_ONE, 600 * FP_ONE);
    assert_eq!(m.m00, 400 * FP_ONE);
    assert_eq!(m.m03, 400 * FP_ONE);
    assert_eq!(m.m11, -300 * FP_ONE);
    assert_eq!(m.m13, 300 * FP_ONE);
    assert_eq!(m.m22, FP_ONE);
    assert_eq!(m.m33, FP_ONE);
}

#[test]
fn perspective_matrix_shape() {
    let m = create_perspective_matrix(800 * FP_ONE, 600 * FP_ONE);
    assert_eq!(m.m32, -FP_ONE);
    assert_eq!(m.m33, 0);
    assert!(m.m00 > 0 && m.m11 > 0);
    assert!(m.m22 < 0 && m.m23 < 0);
}

#[test]
fn model_matrix_carries_the_translation() {
    let t = Vec3 { x: 3 * FP_ONE, y: -2 * FP_ONE, z: 5 * FP_ONE };
    let m = create_model_matrix(t, FP_ONE, Vec3 { x: 0, y: 0, z: 0 });
    assert_eq!(m.m03, 3 * FP_ONE);
    assert_eq!(m.m13, -2 * FP_ONE);
    assert_eq!(m.m23, 5 * FP_ONE);
    assert_eq!(m.m33, FP_ONE);
}

#[test]
fn model_matrix_at_rest_is_the_identity() {
    let zero = Vec3 { x: 0, y: 0, z: 0 };
    let m = create_model_matrix(zero, FP_ONE, zero);
    assert_eq!(m, Mat4::identity());
}

#[test]
fn look_at_from_the_z_axis_is_a_pure_translation() {
    let eye = Vec3 { x: 0, y: 0, z: 30 * FP_ONE };
    let center = Vec3 { x: 0, y: 0, z: 0 };
    let up = Vec3 { x: 0, y: FP_ONE, z: 0 };
    let m = create_view_matrix(eye, center, up);
    assert_eq!((m.m00, m.m01, m.m02, m.m03), (FP_ONE, 0, 0, 0));
    assert_eq!((m.m10, m.m11, m.m12, m.m13), (0, FP_ONE, 0, 0));
    assert_eq!((m.m20, m.m21, m.m22, m.m23), (0, 0, FP_ONE, -30 * FP_ONE));
    assert_eq!((m.m30, m.m31, m.m32, m.m33), (0, 0, 0, FP_ONE));
}

#[test]
fn look_at_with_coincident_eye_and_center_does_not_fault() {
    let p = Vec3 { x: FP_ONE, y: FP_ONE, z: FP_ONE };
    let up = Vec3 { x: 0, y: FP_ONE, z: 0 };
    let m = create_view_matrix(p, p, up);
    assert_eq!(m.m33, FP_ONE);
}

#[test]
fn noise_constructors_share_the_seed() {
    let a = create_noise();
    let b = create_cloud_noise();
    let c = NoiseField::with_seed(1337);
    assert_eq!(a.get_noise_2d(7777, 8888), b.get_noise_2d(7777, 8888));
    assert_eq!(a.get_noise_2d(7777, 8888), c.get_noise_2d(7777, 8888));
}

/// One axis-aligned square face (two triangles) with an outward
/// normal, spanning [-0.5, 0.5]^2 at depth z.
fn quad(normal: Vec3, z: i64) -> Vec<Vertex> {
    let h = FP_HALF;
    vec![
        mesh_vertex(-h, -h, z, normal),
        mesh_vertex(h, -h, z, normal),
        mesh_vertex(h, h, z, normal),
        mesh_vertex(-h, -h, z, normal),
        mesh_vertex(h, h, z, normal),
        mesh_vertex(-h, h, z, normal),
    ]
}

fn viewport_uniforms(size: i64) -> Uniforms {
    Uniforms {
        model_matrix: Mat4::identity(),
        view_matrix: Mat4::identity(),
        projection_matrix: Mat4::identity(),
        viewport_matrix: create_viewport_matrix(size * FP_ONE, size * FP_ONE),
        time: 0,
        noise: create_noise(),
    }
}

#[test]
fn metal_lit_face_renders_brighter_than_unlit_face() {
    let u = viewport_uniforms(32);
    let toward = quad(Vec3 { x: FP_HALF, y: FP_HALF, z: FP_ONE }, 0);
    let away = quad(Vec3 { x: -FP_HALF, y: -FP_HALF, z: -FP_ONE }, 0);

    let mut fb_lit = Framebuffer::new(32, 32);
    fb_lit.clear();
    render(&mut fb_lit, &u, &toward, 5);

    let mut fb_unlit = Framebuffer::new(32, 32);
    fb_unlit.clear();
    render(&mut fb_unlit, &u, &away, 5);

    let lit = fb_lit.get_color(16, 16);
    let unlit = fb_unlit.get_color(16, 16);
    assert_ne!(lit, 0, "lit face left no pixel");
    assert_ne!(unlit, 0, "unlit face left no pixel");
    let lit_green = (lit >> 8) & 0xFF;
    let unlit_green = (unlit >> 8) & 0xFF;
    assert!(
        lit_green > unlit_green,
        "lit {lit_green} not brighter than unlit {unlit_green}"
    );
}

#[test]
fn mesh_outside_the_viewport_leaves_the_framebuffer_cleared() {
    let u = viewport_uniforms(8);
    // every screen x lands left of pixel column zero
    let mesh = vec![
        mesh_vertex(-3 * FP_ONE, 0, 0, Vec3 { x: 0, y: 0, z: FP_ONE }),
        mesh_vertex(-2 * FP_ONE, 0, 0, Vec3 { x: 0, y: 0, z: FP_ONE }),
        mesh_vertex(-2 * FP_ONE, FP_ONE, 0, Vec3 { x: 0, y: 0, z: FP_ONE }),
    ];
    let mut fb = Framebuffer::new(8, 8);
    fb.set_background_color(0x0000FF);
    fb.clear();
    render(&mut fb, &u, &mesh, 0);
    for y in 0..8 {
        for x in 0..8 {
            assert_eq!(fb.get_color(x, y), 0x0000FF);
            assert_eq!(fb.get_depth(x, y), DEPTH_FAR);
        }
    }
}

#[test]
fn rendering_a_visible_mesh_writes_pixels() {
    let u = viewport_uniforms(16);
    let mesh = quad(Vec3 { x: 0, y: 0, z: FP_ONE }, 0);
    let mut fb = Framebuffer::new(16, 16);
    fb.clear();
    render(&mut fb, &u, &mesh, 1);
    let mut touched = 0;
    for y in 0..16 {
        for x in 0..16 {
            if fb.get_depth(x, y) != DEPTH_FAR {
                touched += 1;
            }
        }
    }
    assert!(touched > 0, "no pixel written");
}

#[test]
fn trailing_vertices_that_form_no_triple_are_dropped() {
    let u = viewport_uniforms(16);
    // two vertices cannot form a triangle: nothing may be drawn
    let mesh = vec![
        mesh_vertex(0, 0, 0, Vec3 { x: 0, y: 0, z: FP_ONE }),
        mesh_vertex(FP_HALF, 0, 0, Vec3 { x: 0, y: 0, z: FP_ONE }),
    ];
    let mut fb = Framebuffer::new(16, 16);
    fb.clear();
    render(&mut fb, &u, &mesh, 0);
    for y in 0..16 {
        for x in 0..16 {
            assert_eq!(fb.get_depth(x, y), DEPTH_FAR);
        }
    }
}

#[test]
fn lava_color_is_a_blend_of_the_two_lava_colors() {
    let u = identity_uniforms(3);
    let f = sample_fragment(10000, 20000, Vec3 { x: 0, y: 0, z: FP_ONE });
    let c = fragment_shader(&f, &u, ShaderKind::Lava);
    // every blend of (130,20,0) toward (255,240,0) keeps a zero blue channel
    assert_eq!(c.b, 0);
    assert!(c.r >= 100);
}

#[test]
fn unknown_shader_selection_falls_back_to_lava() {
    let u = viewport_uniforms(16);
    let mesh = quad(Vec3 { x: 0, y: 0, z: FP_ONE }, 0);
    let mut fb1 = Framebuffer::new(16, 16);
    fb1.clear();
    render(&mut fb1, &u, &mesh, 0);
    let mut fb2 = Framebuffer::new(16, 16);
    fb2.clear();
    render(&mut fb2, &u, &mesh, 99);
    for y in 0..16 {
        for x in 0..16 {
            assert_eq!(fb1.get_color(x, y), fb2.get_color(x, y));
        }
    }
}
