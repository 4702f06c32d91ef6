//! The programmable stages: the vertex transform and the procedural
//! fragment shaders. Every shader is a pure function of the fragment
//! and the uniforms, stated exactly by its mirror specification, so
//! repeated invocation on equal inputs gives equal colors.

use vstd::prelude::*;
use crate::fixed::{
    fp_ok, sat, tdiv, iabs, fp_mul_spec, fp_div_spec, sin_spec, cos_spec, fp_sqrt_spec, fp_add,
    fp_sub, fp_mul, fp_div, fp_abs, fp_sat, fp_sqrt, sin_fp, cos_fp, tdiv_i64, floor_mod_i64,
    lemma_tdiv_bound, FP_ONE, FP_HALF, FP_LIM,
};
use crate::linear::{
    Vec3, Vec4, Mat3, mat4_mul, mat4_vec, mat4_to_mat3, mat3_transpose, mat3_inverse, mat3_vec,
    dot3, mat4_mul_spec, mat4_vec_spec, mat4_to_mat3_spec, mat3_transpose_spec, mat3_inverse_spec,
    mat3_vec_spec, dot3_spec,
};
use crate::vertex::Vertex;
use crate::fragment::Fragment;
use crate::color::{Color, lerp_channel_spec, scale_channel_spec};
use crate::noise::{noise2_spec, noise3_spec};
use crate::Uniforms;

verus! {

/// The closed set of surface shaders, one per body kind.
#[derive(Clone, Copy, PartialEq, Eq, Structural, Debug)]
pub enum ShaderKind {
    Lava,
    Ice,
    Cloud,
    Jupiter,
    Ring,
    Metal,
    Combined,
}

/// The shader a numeric selection picks; anything unknown falls back
/// to the lava surface.
pub open spec fn shader_kind_of_spec(sel: u32) -> ShaderKind {
    if sel == 1 {
        ShaderKind::Ice
    } else if sel == 2 {
        ShaderKind::Cloud
    } else if sel == 3 {
        ShaderKind::Jupiter
    } else if sel == 4 {
        ShaderKind::Ring
    } else if sel == 5 {
        ShaderKind::Metal
    } else {
        ShaderKind::Lava
    }
}

pub fn shader_kind_of(sel: u32) -> (k: ShaderKind)
    ensures
        k == shader_kind_of_spec(sel),
{
    if sel == 1 {
        ShaderKind::Ice
    } else if sel == 2 {
        ShaderKind::Cloud
    } else if sel == 3 {
        ShaderKind::Jupiter
    } else if sel == 4 {
        ShaderKind::Ring
    } else if sel == 5 {
        ShaderKind::Metal
    } else {
        ShaderKind::Lava
    }
}

/// The tick counter as a fixed-point scalar.
pub open spec fn time_fp_spec(time: u32) -> int {
    sat(time * FP_ONE)
}

fn time_fp(time: u32) -> (r: i64)
    ensures
        r == time_fp_spec(time),
        fp_ok(r as int),
{
    proof {
        crate::fixed::lemma_abs_mul_le(time as int, FP_ONE as int, 0x100000000, FP_ONE as int);
    }
    fp_sat((time as i128) * (FP_ONE as i128))
}

/// A unit-range scalar mapped onto one 8-bit channel.
pub open spec fn unit_channel_spec(v: int) -> int {
    tdiv(v * 255, FP_ONE as int)
}

fn unit_channel(v: i64) -> (r: u8)
    requires
        0 <= v <= FP_ONE,
    ensures
        r == unit_channel_spec(v as int),
{
    let p: i64 = v * 255;
    let q: i64 = tdiv_i64(p, FP_ONE);
    proof {
        lemma_tdiv_bound(p as int, FP_ONE as int, 255);
    }
    q as u8
}

/// Transform one vertex: lift the position to homogeneous form, apply
/// projection * view * model, perspective-divide (a zero w is clamped
/// to the smallest positive scalar rather than faulting), map through
/// the viewport, and carry the normal through the inverse transpose
/// of the model matrix's upper 3x3 block (the identity when that
/// block is singular).
#[verifier::opaque]
pub open spec fn vertex_shader_spec(v: Vertex, u: Uniforms) -> Vertex {
    let pv = mat4_mul_spec(u.projection_matrix, u.view_matrix);
    let pvm = mat4_mul_spec(pv, u.model_matrix);
    let clip = mat4_vec_spec(
        pvm,
        Vec4 { x: v.position.x, y: v.position.y, z: v.position.z, w: FP_ONE },
    );
    let wd = if clip.w == 0 {
        1int
    } else {
        clip.w as int
    };
    let ndc = Vec4 {
        x: fp_div_spec(clip.x as int, wd) as i64,
        y: fp_div_spec(clip.y as int, wd) as i64,
        z: fp_div_spec(clip.z as int, wd) as i64,
        w: FP_ONE,
    };
    let screen = mat4_vec_spec(u.viewport_matrix, ndc);
    let normal_matrix = mat3_inverse_spec(mat3_transpose_spec(mat4_to_mat3_spec(u.model_matrix)));
    Vertex {
        position: v.position,
        normal: v.normal,
        tex_coords: v.tex_coords,
        intensity: v.intensity,
        transformed_position: Vec3 { x: screen.x, y: screen.y, z: screen.z },
        transformed_normal: mat3_vec_spec(normal_matrix, v.normal),
    }
}

#[verifier::rlimit(100)]
pub fn vertex_shader(vertex: &Vertex, uniforms: &Uniforms) -> (r: Vertex)
    requires
        vertex.wf(),
        uniforms.wf(),
    ensures
        r == vertex_shader_spec(*vertex, *uniforms),
        r.wf(),
{
    proof {
        reveal(vertex_shader_spec);
    }
    let position = Vec4 {
        x: vertex.position.x,
        y: vertex.position.y,
        z: vertex.position.z,
        w: FP_ONE,
    };
    let pv = mat4_mul(&uniforms.projection_matrix, &uniforms.view_matrix);
    let pvm = mat4_mul(&pv, &uniforms.model_matrix);
    let transformed = mat4_vec(&pvm, &position);
    let w: i64 = if transformed.w == 0 {
        1
    } else {
        transformed.w
    };
    let ndc = Vec4 {
        x: fp_div(transformed.x, w),
        y: fp_div(transformed.y, w),
        z: fp_div(transformed.z, w),
        w: FP_ONE,
    };
    let screen = mat4_vec(&uniforms.viewport_matrix, &ndc);
    let model_mat3 = mat4_to_mat3(&uniforms.model_matrix);
    let normal_matrix = mat3_inverse(&mat3_transpose(&model_mat3));
    let transformed_normal = mat3_vec(&normal_matrix, &vertex.normal);
    Vertex {
        position: vertex.position,
        normal: vertex.normal,
        tex_coords: vertex.tex_coords,
        intensity: vertex.intensity,
        transformed_position: Vec3 { x: screen.x, y: screen.y, z: screen.z },
        transformed_normal,
    }
}

/// The lava surface: two offset 3D noise taps at a pulsating depth,
/// averaged, blend a dark red-orange toward a bright orange.
#[verifier::opaque]
pub open spec fn lava_spec(f: Fragment, u: Uniforms) -> Color {
    let t = fp_mul_spec(time_fp_spec(u.time), 655);
    let pulsate = fp_mul_spec(sin_spec(fp_mul_spec(t, 13107)), FP_HALF as int);
    let zoom = 65536000int;
    let x = f.vertex_position.x as int;
    let y = f.vertex_position.y as int;
    let z = f.depth as int;
    let n1 = noise3_spec(
        u.noise.seed,
        fp_mul_spec(x, zoom),
        fp_mul_spec(y, zoom),
        fp_mul_spec(sat(z + pulsate), zoom),
    );
    let n2 = noise3_spec(
        u.noise.seed,
        fp_mul_spec(sat(x + 65536000), zoom),
        fp_mul_spec(sat(y + 65536000), zoom),
        fp_mul_spec(sat(sat(z + 65536000) + pulsate), zoom),
    );
    let nv = fp_mul_spec(sat(n1 + n2), FP_HALF as int);
    let dark = Color { r: 130, g: 20, b: 0 };
    let bright = Color { r: 255, g: 240, b: 0 };
    scale_color_spec(lerp_color_spec(dark, bright, nv), f.intensity as int)
}

/// A whole color blended channel-wise.
pub open spec fn lerp_color_spec(a: Color, b: Color, t: int) -> Color {
    Color {
        r: lerp_channel_spec(a.r as int, b.r as int, t) as u8,
        g: lerp_channel_spec(a.g as int, b.g as int, t) as u8,
        b: lerp_channel_spec(a.b as int, b.b as int, t) as u8,
    }
}

/// A whole color scaled channel-wise by an intensity.
pub open spec fn scale_color_spec(c: Color, f: int) -> Color {
    Color {
        r: scale_channel_spec(c.r as int, f) as u8,
        g: scale_channel_spec(c.g as int, f) as u8,
        b: scale_channel_spec(c.b as int, f) as u8,
    }
}

pub fn lava_shader(fragment: &Fragment, uniforms: &Uniforms) -> (c: Color)
    requires
        fragment.wf(),
    ensures
        c == lava_spec(*fragment, *uniforms),
{
    proof {
        reveal(lava_spec);
    }
    let bright_color = Color::new(255, 240, 0);
    let dark_color = Color::new(130, 20, 0);
    let t: i64 = fp_mul(time_fp(uniforms.time), 655);
    let pulsate: i64 = fp_mul(sin_fp(fp_mul(t, 13107)), FP_HALF);
    let zoom: i64 = 65536000;
    let x = fragment.vertex_position.x;
    let y = fragment.vertex_position.y;
    let z = fragment.depth;
    let noise_value1: i64 = uniforms.noise.get_noise_3d(
        fp_mul(x, zoom),
        fp_mul(y, zoom),
        fp_mul(fp_add(z, pulsate), zoom),
    );
    let noise_value2: i64 = uniforms.noise.get_noise_3d(
        fp_mul(fp_add(x, 65536000), zoom),
        fp_mul(fp_add(y, 65536000), zoom),
        fp_mul(fp_add(fp_add(z, 65536000), pulsate), zoom),
    );
    let noise_value: i64 = fp_mul(fp_add(noise_value1, noise_value2), FP_HALF);
    let color = dark_color.lerp(&bright_color, noise_value);
    color.scale(fragment.intensity)
}

/// The ice surface: a sinusoidal ripple of x plus time drives the
/// green channel of a blue-white water color.
#[verifier::opaque]
pub open spec fn ice_spec(f: Fragment, u: Uniforms) -> Color {
    let ripple = iabs(
        sin_spec(
            sat(
                fp_mul_spec(f.vertex_position.x as int, 524288) + fp_mul_spec(
                    time_fp_spec(u.time),
                    6554,
                ),
            ),
        ),
    );
    scale_color_spec(
        Color { r: 0, g: unit_channel_spec(ripple) as u8, b: 255 },
        f.intensity as int,
    )
}

pub fn ice_shader(fragment: &Fragment, uniforms: &Uniforms) -> (c: Color)
    requires
        fragment.wf(),
    ensures
        c == ice_spec(*fragment, *uniforms),
{
    proof {
        reveal(ice_spec);
    }
    let ripple: i64 = fp_abs(
        sin_fp(
            fp_add(fp_mul(fragment.vertex_position.x, 524288), fp_mul(time_fp(uniforms.time), 6554)),
        ),
    );
    let g: u8 = unit_channel(ripple);
    Color::new(0, g, 255).scale(fragment.intensity)
}

/// The cloud surface: a moving cloud layer and a slower terrain layer
/// of 2D noise, thresholded into white cloud, green land or blue sky.
#[verifier::opaque]
pub open spec fn cloud_spec(f: Fragment, u: Uniforms) -> Color {
    let zoom = 6553600int;
    let ox = 6553600int;
    let oy = 6553600int;
    let x = f.vertex_position.x as int;
    let y = f.vertex_position.y as int;
    let cloud_time = fp_mul_spec(time_fp_spec(u.time), FP_HALF as int);
    let land_time = fp_mul_spec(time_fp_spec(u.time), 13107);
    let cloud_noise = noise2_spec(
        u.noise.seed,
        sat(sat(fp_mul_spec(x, zoom) + ox) + cloud_time),
        sat(fp_mul_spec(y, zoom) + oy),
    );
    let land_noise = noise2_spec(
        u.noise.seed,
        sat(sat(fp_mul_spec(x, zoom) + ox) + land_time),
        sat(fp_mul_spec(y, zoom) + oy),
    );
    let base = if cloud_noise > FP_HALF {
        Color { r: 255, g: 255, b: 255 }
    } else if land_noise > 6554 {
        Color { r: 0, g: 100, b: 0 }
    } else {
        Color { r: 30, g: 97, b: 145 }
    };
    scale_color_spec(base, f.intensity as int)
}

pub fn cloud_shader(fragment: &Fragment, uniforms: &Uniforms) -> (c: Color)
    requires
        fragment.wf(),
    ensures
        c == cloud_spec(*fragment, *uniforms),
{
    proof {
        reveal(cloud_spec);
    }
    let zoom: i64 = 6553600;
    let ox: i64 = 6553600;
    let oy: i64 = 6553600;
    let x = fragment.vertex_position.x;
    let y = fragment.vertex_position.y;
    let cloud_time: i64 = fp_mul(time_fp(uniforms.time), FP_HALF);
    let land_time: i64 = fp_mul(time_fp(uniforms.time), 13107);
    let cloud_noise: i64 = uniforms.noise.get_noise_2d(
        fp_add(fp_add(fp_mul(x, zoom), ox), cloud_time),
        fp_add(fp_mul(y, zoom), oy),
    );
    let land_noise: i64 = uniforms.noise.get_noise_2d(
        fp_add(fp_add(fp_mul(x, zoom), ox), land_time),
        fp_add(fp_mul(y, zoom), oy),
    );
    let cloud_color = Color::new(255, 255, 255);
    let sky_color = Color::new(30, 97, 145);
    let land_color = Color::new(0, 100, 0);
    let final_color = if cloud_noise > FP_HALF {
        cloud_color
    } else if land_noise > 6554 {
        land_color
    } else {
        sky_color
    };
    final_color.scale(fragment.intensity)
}

/// The metal surface: Lambertian shading by a fixed light direction,
/// blending a metallic gray toward a bright highlight.
#[verifier::opaque]
pub open spec fn metal_spec(f: Fragment, u: Uniforms) -> Color {
    let light = Vec3 { x: FP_HALF, y: FP_HALF, z: FP_ONE };
    let d = dot3_spec(f.normal, light);
    let nlen = fp_sqrt_spec(dot3_spec(f.normal, f.normal));
    let llen = fp_sqrt_spec(dot3_spec(light, light));
    let denom = fp_mul_spec(nlen, llen);
    let t = if denom == 0 {
        0int
    } else {
        fp_div_spec(d, denom)
    };
    let tc = if t < 0 {
        0int
    } else {
        t
    };
    let base = Color { r: 100, g: 100, b: 120 };
    let highlight = Color { r: 220, g: 220, b: 255 };
    scale_color_spec(lerp_color_spec(base, highlight, tc), f.intensity as int)
}

pub fn metal_shader(fragment: &Fragment, uniforms: &Uniforms) -> (c: Color)
    requires
        fragment.wf(),
    ensures
        c == metal_spec(*fragment, *uniforms),
{
    proof {
        reveal(metal_spec);
    }
    let light_dir = Vec3 { x: FP_HALF, y: FP_HALF, z: FP_ONE };
    let d: i64 = dot3(&fragment.normal, &light_dir);
    let nlen: i64 = fp_sqrt(dot3(&fragment.normal, &fragment.normal));
    let llen: i64 = fp_sqrt(dot3(&light_dir, &light_dir));
    let denom: i64 = fp_mul(nlen, llen);
    let t: i64 = if denom == 0 {
        0
    } else {
        fp_div(d, denom)
    };
    let tc: i64 = if t < 0 {
        0
    } else {
        t
    };
    let base_color = Color::new(100, 100, 120);
    let highlight_color = Color::new(220, 220, 255);
    base_color.lerp(&highlight_color, tc).scale(fragment.intensity)
}

/// The jupiter surface: a band noise of y quantized into four color
/// bands, overridden by a fixed circular storm region.
#[verifier::opaque]
pub open spec fn jupiter_spec(f: Fragment, u: Uniforms) -> Color {
    let x = f.vertex_position.x as int;
    let y = f.vertex_position.y as int;
    let band_noise = noise2_spec(u.noise.seed, fp_mul_spec(y, 6553600), 0);
    let band = if band_noise > 39322 {
        Color { r: 139, g: 69, b: 19 }
    } else if band_noise > 19661 {
        Color { r: 245, g: 222, b: 179 }
    } else if band_noise > 0 {
        Color { r: 255, g: 165, b: 0 }
    } else {
        Color { r: 205, g: 133, b: 63 }
    };
    let dx = sat(x - 19661);
    let dy = sat(y - (-19661));
    let dist = fp_sqrt_spec(sat(fp_mul_spec(dx, dx) + fp_mul_spec(dy, dy)));
    let base = if dist < 9830 {
        Color { r: 255, g: 69, b: 0 }
    } else {
        band
    };
    scale_color_spec(base, f.intensity as int)
}

pub fn jupiter_shader(fragment: &Fragment, uniforms: &Uniforms) -> (c: Color)
    requires
        fragment.wf(),
    ensures
        c == jupiter_spec(*fragment, *uniforms),
{
    proof {
        reveal(jupiter_spec);
    }
    let x = fragment.vertex_position.x;
    let y = fragment.vertex_position.y;
    let band_noise: i64 = uniforms.noise.get_noise_2d(fp_mul(y, 6553600), 0);
    let dark_brown = Color::new(139, 69, 19);
    let light_brown = Color::new(205, 133, 63);
    let orange = Color::new(255, 165, 0);
    let beige = Color::new(245, 222, 179);
    let band_color = if band_noise > 39322 {
        dark_brown
    } else if band_noise > 19661 {
        beige
    } else if band_noise > 0 {
        orange
    } else {
        light_brown
    };
    let dx: i64 = fp_sub(x, 19661);
    let dy: i64 = fp_sub(y, -19661);
    let distance_to_storm: i64 = fp_sqrt(fp_add(fp_mul(dx, dx), fp_mul(dy, dy)));
    let storm_color = Color::new(255, 69, 0);
    let final_color = if distance_to_storm < 9830 {
        storm_color
    } else {
        band_color
    };
    final_color.scale(fragment.intensity)
}

/// The ring surface: a polar banding of the radial distance blends a
/// ring gray toward the planet purple.
#[verifier::opaque]
pub open spec fn ring_spec(f: Fragment, u: Uniforms) -> Color {
    let x = f.vertex_position.x as int;
    let y = f.vertex_position.y as int;
    let dist = fp_sqrt_spec(sat(fp_mul_spec(x, x) + fp_mul_spec(y, y)));
    let m = dist % 5243;
    let pattern = tdiv(m * FP_ONE, 1311);
    let ring_intensity = if pattern < FP_ONE {
        FP_ONE - pattern
    } else {
        0int
    };
    let ring_color = Color { r: 200, g: 200, b: 200 };
    let planet_color = Color { r: 100, g: 50, b: 200 };
    scale_color_spec(
        lerp_color_spec(ring_color, planet_color, FP_ONE - ring_intensity),
        f.intensity as int,
    )
}

pub fn ring_shader(fragment: &Fragment, uniforms: &Uniforms) -> (c: Color)
    requires
        fragment.wf(),
    ensures
        c == ring_spec(*fragment, *uniforms),
{
    proof {
        reveal(ring_spec);
    }
    let x = fragment.vertex_position.x;
    let y = fragment.vertex_position.y;
    let distance: i64 = fp_sqrt(fp_add(fp_mul(x, x), fp_mul(y, y)));
    let m: i64 = floor_mod_i64(distance, 5243);
    let p: i64 = m * FP_ONE;
    let ring_pattern: i64 = tdiv_i64(p, 1311);
    proof {
        lemma_tdiv_bound(p as int, 1311, 0x10000000);
    }
    let ring_intensity: i64 = if ring_pattern < FP_ONE {
        FP_ONE - ring_pattern
    } else {
        0
    };
    let ring_color = Color::new(200, 200, 200);
    let planet_color = Color::new(100, 50, 200);
    ring_color.lerp(&planet_color, FP_ONE - ring_intensity).scale(fragment.intensity)
}

/// The static sine interference pattern behind the combined surface.
#[verifier::opaque]
pub open spec fn static_pattern_spec(f: Fragment) -> Color {
    let sx = sin_spec(fp_mul_spec(f.vertex_position.x as int, 655360));
    let sy = sin_spec(fp_mul_spec(f.vertex_position.y as int, 655360));
    let pattern = iabs(fp_mul_spec(sx, sy));
    Color {
        r: unit_channel_spec(pattern) as u8,
        g: unit_channel_spec(FP_ONE - pattern) as u8,
        b: 128,
    }
}

pub fn static_pattern_shader(fragment: &Fragment) -> (c: Color)
    requires
        fragment.wf(),
    ensures
        c == static_pattern_spec(*fragment),
{
    proof {
        reveal(static_pattern_spec);
    }
    let sx: i64 = sin_fp(fp_mul(fragment.vertex_position.x, 655360));
    let sy: i64 = sin_fp(fp_mul(fragment.vertex_position.y, 655360));
    let pattern: i64 = fp_abs(fp_mul(sx, sy));
    proof {
        crate::fixed::lemma_abs_mul_le(sx as int, sy as int, FP_ONE as int, FP_ONE as int);
        lemma_tdiv_bound(sx as int * sy as int, FP_ONE as int, FP_ONE as int);
    }
    let r: u8 = unit_channel(pattern);
    let g: u8 = unit_channel(FP_ONE - pattern);
    Color::new(r, g, 128)
}

/// Two circles gliding on sinusoidal paths; white where either
/// covers the fragment, black elsewhere.
#[verifier::opaque]
pub open spec fn moving_circles_spec(f: Fragment, u: Uniforms) -> Color {
    let x = f.vertex_position.x as int;
    let y = f.vertex_position.y as int;
    let t = fp_mul_spec(time_fp_spec(u.time), 3277);
    let circle1_x = sat(fp_mul_spec(sin_spec(t), 26214) + FP_HALF) % FP_ONE as int;
    let circle2_x = sat(fp_mul_spec(cos_spec(t), 26214) + FP_HALF) % FP_ONE as int;
    let d1x = sat(x - circle1_x);
    let d1y = sat(y - 19661);
    let d2x = sat(x - circle2_x);
    let d2y = sat(y - 45875);
    let dist1 = fp_sqrt_spec(sat(fp_mul_spec(d1x, d1x) + fp_mul_spec(d1y, d1y)));
    let dist2 = fp_sqrt_spec(sat(fp_mul_spec(d2x, d2x) + fp_mul_spec(d2y, d2y)));
    let circle1 = if dist1 < 6554 {
        FP_ONE as int
    } else {
        0int
    };
    let circle2 = if dist2 < 6554 {
        FP_ONE as int
    } else {
        0int
    };
    let ci = if circle1 + circle2 >= FP_ONE {
        FP_ONE as int
    } else {
        circle1 + circle2
    };
    let v = unit_channel_spec(ci) as u8;
    Color { r: v, g: v, b: v }
}

pub fn moving_circles_shader(fragment: &Fragment, uniforms: &Uniforms) -> (c: Color)
    requires
        fragment.wf(),
    ensures
        c == moving_circles_spec(*fragment, *uniforms),
{
    proof {
        reveal(moving_circles_spec);
    }
    let x = fragment.vertex_position.x;
    let y = fragment.vertex_position.y;
    let t: i64 = fp_mul(time_fp(uniforms.time), 3277);
    let circle1_x: i64 = floor_mod_i64(fp_add(fp_mul(sin_fp(t), 26214), FP_HALF), FP_ONE);
    let circle2_x: i64 = floor_mod_i64(fp_add(fp_mul(cos_fp(t), 26214), FP_HALF), FP_ONE);
    let d1x: i64 = fp_sub(x, circle1_x);
    let d1y: i64 = fp_sub(y, 19661);
    let d2x: i64 = fp_sub(x, circle2_x);
    let d2y: i64 = fp_sub(y, 45875);
    let dist1: i64 = fp_sqrt(fp_add(fp_mul(d1x, d1x), fp_mul(d1y, d1y)));
    let dist2: i64 = fp_sqrt(fp_add(fp_mul(d2x, d2x), fp_mul(d2y, d2y)));
    let circle1: i64 = if dist1 < 6554 {
        FP_ONE
    } else {
        0
    };
    let circle2: i64 = if dist2 < 6554 {
        FP_ONE
    } else {
        0
    };
    let total: i64 = circle1 + circle2;
    let circle_intensity: i64 = if total >= FP_ONE {
        FP_ONE
    } else {
        total
    };
    let v: u8 = unit_channel(circle_intensity);
    Color::new(v, v, v)
}

/// The fallback surface: the moving circles where they are lit, the
/// static pattern elsewhere, both scaled by the fragment intensity.
#[verifier::opaque]
pub open spec fn combined_spec(f: Fragment, u: Uniforms) -> Color {
    let base = static_pattern_spec(f);
    let circle = moving_circles_spec(f, u);
    if !(circle.r == 0 && circle.g == 0 && circle.b == 0) {
        scale_color_spec(circle, f.intensity as int)
    } else {
        scale_color_spec(base, f.intensity as int)
    }
}

pub fn combined_shader(fragment: &Fragment, uniforms: &Uniforms) -> (c: Color)
    requires
        fragment.wf(),
    ensures
        c == combined_spec(*fragment, *uniforms),
{
    proof {
        reveal(combined_spec);
    }
    let base_color = static_pattern_shader(fragment);
    let circle_color = moving_circles_shader(fragment, uniforms);
    if !circle_color.is_black() {
        circle_color.scale(fragment.intensity)
    } else {
        base_color.scale(fragment.intensity)
    }
}

/// What each shader produces: the single dispatch point of fragment
/// shading.
#[verifier::opaque]
pub open spec fn shade_spec(f: Fragment, u: Uniforms, kind: ShaderKind) -> Color {
    match kind {
        ShaderKind::Lava => lava_spec(f, u),
        ShaderKind::Ice => ice_spec(f, u),
        ShaderKind::Cloud => cloud_spec(f, u),
        ShaderKind::Jupiter => jupiter_spec(f, u),
        ShaderKind::Ring => ring_spec(f, u),
        ShaderKind::Metal => metal_spec(f, u),
        ShaderKind::Combined => combined_spec(f, u),
    }
}

/// Shade one fragment with the selected surface.
pub fn fragment_shader(fragment: &Fragment, uniforms: &Uniforms, kind: ShaderKind) -> (c: Color)
    requires
        fragment.wf(),
    ensures
        c == shade_spec(*fragment, *uniforms, kind),
{
    proof {
        reveal(shade_spec);
    }
    match kind {
        ShaderKind::Lava => lava_shader(fragment, uniforms),
        ShaderKind::Ice => ice_shader(fragment, uniforms),
        ShaderKind::Cloud => cloud_shader(fragment, uniforms),
        ShaderKind::Jupiter => jupiter_shader(fragment, uniforms),
        ShaderKind::Ring => ring_shader(fragment, uniforms),
        ShaderKind::Metal => metal_shader(fragment, uniforms),
        ShaderKind::Combined => combined_shader(fragment, uniforms),
    }
}

/// Shading is deterministic: the color is a function of the fragment,
/// the uniforms (seed and time included) and the shader kind alone,
/// so equal inputs give equal colors on repeated invocation.
pub proof fn lemma_shading_deterministic(
    f1: Fragment,
    f2: Fragment,
    u1: Uniforms,
    u2: Uniforms,
    k1: ShaderKind,
    k2: ShaderKind,
)
    requires
        f1 == f2,
        u1 == u2,
        k1 == k2,
    ensures
        shade_spec(f1, u1, k1) == shade_spec(f2, u2, k2),
{
}

} // verus!
