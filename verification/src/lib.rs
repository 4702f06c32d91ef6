//! A software 3D rendering pipeline over 16.16 fixed-point arithmetic:
//! vertex transformation, triangle rasterization with barycentric
//! interpolation, depth-tested framebuffer writes, and procedural
//! fragment shaders driven by a deterministic noise field.

pub mod fixed;
pub mod linear;
pub mod color;
pub mod framebuffer;
pub mod vertex;
pub mod fragment;
pub mod triangle;
pub mod noise;
pub mod shaders;

use vstd::prelude::*;
use crate::fixed::{
    fp_ok, fp_mul, fp_add, fp_sub, fp_div, sin_fp, cos_fp, sin_spec, cos_spec, fp_mul_spec,
    fp_div_spec, sat, FP_ONE, FP_HALF, PI_FP, HALF_PI_FP, TWO_PI_FP,
};
use crate::linear::{
    Vec3, Mat4, mat4_mul, mat4_mul_spec, cross3, cross3_spec, sub3, sub3_spec, normalize3,
    normalize3_spec, dot3, dot3_spec,
};
use crate::noise::NoiseField;
use crate::vertex::Vertex;
use crate::fragment::Fragment;
use crate::framebuffer::{Framebuffer, FbState, point_spec, lemma_point_monotone};
use crate::triangle::{triangle, tri_frags_spec};
use crate::shaders::{
    vertex_shader, vertex_shader_spec, fragment_shader, shade_spec, shader_kind_of,
    shader_kind_of_spec, ShaderKind,
};
use crate::color::{Color, hex_spec};

verus! {

/// The read-only per-pass context shared by all vertices and
/// fragments of one draw call.
pub struct Uniforms {
    pub model_matrix: Mat4,
    pub view_matrix: Mat4,
    pub projection_matrix: Mat4,
    pub viewport_matrix: Mat4,
    /// The frame tick counter that animates the shaders.
    pub time: u32,
    pub noise: NoiseField,
}

impl Uniforms {
    pub open spec fn wf(self) -> bool {
        &&& self.model_matrix.wf()
        &&& self.view_matrix.wf()
        &&& self.projection_matrix.wf()
        &&& self.viewport_matrix.wf()
    }
}

/// One animated body: its per-frame transform parameters, its source
/// mesh, and the shader it is drawn with.
pub struct Planet {
    pub translation: Vec3,
    pub rotation: Vec3,
    pub scale: i64,
    pub vertex_array: Vec<Vertex>,
    pub shader_selection: u32,
}

/// The one process-wide noise field.
pub fn create_noise() -> (n: NoiseField)
    ensures
        n.seed == 1337u64,
{
    create_cloud_noise()
}

/// The seeded field the cloud (and every other) shader samples.
pub fn create_cloud_noise() -> (n: NoiseField)
    ensures
        n.seed == 1337u64,
{
    NoiseField::with_seed(1337)
}

/// A rotation about the x axis by a fixed-point angle.
pub open spec fn rotation_x_spec(a: int) -> Mat4 {
    let s = sin_spec(a) as i64;
    let c = cos_spec(a) as i64;
    Mat4 {
        m00: FP_ONE, m01: 0, m02: 0, m03: 0,
        m10: 0, m11: c, m12: (-s) as i64, m13: 0,
        m20: 0, m21: s, m22: c, m23: 0,
        m30: 0, m31: 0, m32: 0, m33: FP_ONE,
    }
}

pub open spec fn rotation_y_spec(a: int) -> Mat4 {
    let s = sin_spec(a) as i64;
    let c = cos_spec(a) as i64;
    Mat4 {
        m00: c, m01: 0, m02: s, m03: 0,
        m10: 0, m11: FP_ONE, m12: 0, m13: 0,
        m20: (-s) as i64, m21: 0, m22: c, m23: 0,
        m30: 0, m31: 0, m32: 0, m33: FP_ONE,
    }
}

pub open spec fn rotation_z_spec(a: int) -> Mat4 {
    let s = sin_spec(a) as i64;
    let c = cos_spec(a) as i64;
    Mat4 {
        m00: c, m01: (-s) as i64, m02: 0, m03: 0,
        m10: s, m11: c, m12: 0, m13: 0,
        m20: 0, m21: 0, m22: FP_ONE, m23: 0,
        m30: 0, m31: 0, m32: 0, m33: FP_ONE,
    }
}

/// Uniform scale on the diagonal, translation in the last column.
pub open spec fn scale_translate_spec(translation: Vec3, scale: int) -> Mat4 {
    Mat4 {
        m00: scale as i64, m01: 0, m02: 0, m03: translation.x,
        m10: 0, m11: scale as i64, m12: 0, m13: translation.y,
        m20: 0, m21: 0, m22: scale as i64, m23: translation.z,
        m30: 0, m31: 0, m32: 0, m33: FP_ONE,
    }
}

/// The per-body model matrix: scale, then the rotations in z-y-x
/// order, then the translation.
pub open spec fn model_matrix_spec(translation: Vec3, scale: int, rotation: Vec3) -> Mat4 {
    let rot = mat4_mul_spec(
        mat4_mul_spec(rotation_z_spec(rotation.z as int), rotation_y_spec(rotation.y as int)),
        rotation_x_spec(rotation.x as int),
    );
    mat4_mul_spec(scale_translate_spec(translation, scale), rot)
}

/// Recombine a body's translation, uniform scale and Euler rotation
/// into its model matrix.
pub fn create_model_matrix(translation: Vec3, scale: i64, rotation: Vec3) -> (m: Mat4)
    requires
        translation.wf(),
        fp_ok(scale as int),
        rotation.wf(),
    ensures
        m == model_matrix_spec(translation, scale as int, rotation),
        m.wf(),
{
    let sin_x: i64 = sin_fp(rotation.x);
    let cos_x: i64 = cos_fp(rotation.x);
    let sin_y: i64 = sin_fp(rotation.y);
    let cos_y: i64 = cos_fp(rotation.y);
    let sin_z: i64 = sin_fp(rotation.z);
    let cos_z: i64 = cos_fp(rotation.z);

    let rotation_matrix_x = Mat4::new(
        FP_ONE, 0, 0, 0,
        0, cos_x, -sin_x, 0,
        0, sin_x, cos_x, 0,
        0, 0, 0, FP_ONE,
    );
    let rotation_matrix_y = Mat4::new(
        cos_y, 0, sin_y, 0,
        0, FP_ONE, 0, 0,
        -sin_y, 0, cos_y, 0,
        0, 0, 0, FP_ONE,
    );
    let rotation_matrix_z = Mat4::new(
        cos_z, -sin_z, 0, 0,
        sin_z, cos_z, 0, 0,
        0, 0, FP_ONE, 0,
        0, 0, 0, FP_ONE,
    );
    let rotation_matrix = mat4_mul(
        &mat4_mul(&rotation_matrix_z, &rotation_matrix_y),
        &rotation_matrix_x,
    );
    let transform_matrix = Mat4::new(
        scale, 0, 0, translation.x,
        0, scale, 0, translation.y,
        0, 0, scale, translation.z,
        0, 0, 0, FP_ONE,
    );
    mat4_mul(&transform_matrix, &rotation_matrix)
}

/// The look-at view matrix: the camera basis in the rows, the
/// negated basis-projected eye in the last column. A degenerate basis
/// vector normalizes to zero rather than faulting.
pub open spec fn view_matrix_spec(eye: Vec3, center: Vec3, up: Vec3) -> Mat4 {
    let f = normalize3_spec(sub3_spec(center, eye));
    let s = normalize3_spec(cross3_spec(f, up));
    let u = cross3_spec(s, f);
    Mat4 {
        m00: s.x, m01: s.y, m02: s.z, m03: sat(-dot3_spec(s, eye)) as i64,
        m10: u.x, m11: u.y, m12: u.z, m13: sat(-dot3_spec(u, eye)) as i64,
        m20: (-f.x) as i64, m21: (-f.y) as i64, m22: (-f.z) as i64, m23: dot3_spec(f, eye) as i64,
        m30: 0, m31: 0, m32: 0, m33: FP_ONE,
    }
}

/// Build the view matrix from the camera parameters by the standard
/// look-at construction.
pub fn create_view_matrix(eye: Vec3, center: Vec3, up: Vec3) -> (m: Mat4)
    requires
        eye.wf(),
        center.wf(),
        up.wf(),
    ensures
        m == view_matrix_spec(eye, center, up),
        m.wf(),
{
    let f = normalize3(&sub3(&center, &eye));
    let s = normalize3(&cross3(&f, &up));
    let u = cross3(&s, &f);
    Mat4 {
        m00: s.x, m01: s.y, m02: s.z, m03: -dot3(&s, &eye),
        m10: u.x, m11: u.y, m12: u.z, m13: -dot3(&u, &eye),
        m20: -f.x, m21: -f.y, m22: -f.z, m23: dot3(&f, &eye),
        m30: 0, m31: 0, m32: 0, m33: FP_ONE,
    }
}

/// At rest — zero translation, unit scale, zero rotation — the model
/// matrix is exactly the identity: the rounded half-sine quotient
/// makes the sine and cosine exact at the axis points, so the three
/// rotation factors and the scale-translate factor are all the
/// identity.
pub proof fn lemma_model_matrix_at_rest()
    ensures
        model_matrix_spec(
            Vec3 { x: 0i64, y: 0i64, z: 0i64 },
            FP_ONE as int,
            Vec3 { x: 0i64, y: 0i64, z: 0i64 },
        ) == Mat4::identity_spec(),
{
    let zero = Vec3 { x: 0i64, y: 0i64, z: 0i64 };
    assert(sin_spec(0) == 0) by {
        assert(0int % (TWO_PI_FP as int) == 0) by {
            vstd::arithmetic::div_mod::lemma_small_mod(0nat, TWO_PI_FP as nat);
        }
        assert(0int * (PI_FP - 0) == 0) by (nonlinear_arith);
        assert(PI_FP as int * PI_FP as int == 42389456769) by (nonlinear_arith);
        assert(211947283845int / 2 == 105973641922);
        assert(105973641922int / 211947283845int == 0);
        assert(crate::fixed::half_sine_spec(0) == 0);
    }
    assert(cos_spec(0) == FP_ONE) by {
        assert((HALF_PI_FP as int) % (TWO_PI_FP as int) == HALF_PI_FP as int) by {
            vstd::arithmetic::div_mod::lemma_small_mod(HALF_PI_FP as nat, TWO_PI_FP as nat);
        }
        assert(102944int * (PI_FP - 102944) == 10597364192) by (nonlinear_arith);
        assert(PI_FP as int * PI_FP as int == 42389456769) by (nonlinear_arith);
        assert(169557827077int / 2 == 84778913538);
        assert(11112226533904130int / 169557827077int == 65536);
        assert(crate::fixed::half_sine_spec(102944) == 65536);
    }
    let ident = Mat4::identity_spec();
    assert(rotation_x_spec(0) == ident);
    assert(rotation_y_spec(0) == ident);
    assert(rotation_z_spec(0) == ident);
    assert(scale_translate_spec(zero, FP_ONE as int) == ident);
    assert(mat4_mul_spec(ident, ident) == ident) by {
        reveal(crate::linear::dot4_spec);
        assert(fp_mul_spec(FP_ONE as int, FP_ONE as int) == FP_ONE) by {
            assert(FP_ONE as int * FP_ONE as int == 4294967296) by (nonlinear_arith);
            assert(4294967296int / (FP_ONE as int) == 65536) by (nonlinear_arith);
        }
        assert(forall|v: int| fp_mul_spec(0, v) == 0 && fp_mul_spec(v, 0) == 0) by {
            assert forall|v: int| fp_mul_spec(0, v) == 0 && fp_mul_spec(v, 0) == 0 by {
                assert(0 * v == 0) by (nonlinear_arith);
                assert(v * 0 == 0) by (nonlinear_arith);
            }
        }
    }
}

/// Cotangent of half the 45-degree field of view, in fixed point.
pub const PERSP_COT_HALF_FOV: i64 = 158218;

/// Near clipping reference of the projection (0.1 in fixed point).
pub const PERSP_NEAR: i64 = 6554;

/// Far clipping reference of the projection (1000 in fixed point).
pub const PERSP_FAR: i64 = 65536000;

/// The perspective projection for a 45-degree vertical field of view.
pub open spec fn perspective_matrix_spec(width: int, height: int) -> Mat4 {
    let aspect = fp_div_spec(width, height);
    let m00 = if aspect == 0 {
        0int
    } else {
        fp_div_spec(PERSP_COT_HALF_FOV as int, aspect)
    };
    let m22 = fp_div_spec(sat(PERSP_FAR + PERSP_NEAR), sat(PERSP_NEAR - PERSP_FAR));
    let m23 = fp_div_spec(
        fp_mul_spec(131072, fp_mul_spec(PERSP_FAR as int, PERSP_NEAR as int)),
        sat(PERSP_NEAR - PERSP_FAR),
    );
    Mat4 {
        m00: m00 as i64, m01: 0, m02: 0, m03: 0,
        m10: 0, m11: PERSP_COT_HALF_FOV, m12: 0, m13: 0,
        m20: 0, m21: 0, m22: m22 as i64, m23: m23 as i64,
        m30: 0, m31: 0, m32: (-FP_ONE) as i64, m33: 0,
    }
}

pub fn create_perspective_matrix(window_width: i64, window_height: i64) -> (m: Mat4)
    requires
        0 < window_width,
        0 < window_height,
        fp_ok(window_width as int),
        fp_ok(window_height as int),
    ensures
        m == perspective_matrix_spec(window_width as int, window_height as int),
        m.wf(),
{
    let aspect: i64 = fp_div(window_width, window_height);
    let m00: i64 = if aspect == 0 {
        0
    } else {
        fp_div(PERSP_COT_HALF_FOV, aspect)
    };
    let m22: i64 = fp_div(fp_add(PERSP_FAR, PERSP_NEAR), fp_sub(PERSP_NEAR, PERSP_FAR));
    let m23: i64 = fp_div(
        fp_mul(131072, fp_mul(PERSP_FAR, PERSP_NEAR)),
        fp_sub(PERSP_NEAR, PERSP_FAR),
    );
    Mat4::new(
        m00, 0, 0, 0,
        0, PERSP_COT_HALF_FOV, 0, 0,
        0, 0, m22, m23,
        0, 0, -FP_ONE, 0,
    )
}

/// The viewport transform: scale normalized device coordinates to the
/// pixel extent, flipping y, and keep depth.
pub open spec fn viewport_matrix_spec(width: int, height: int) -> Mat4 {
    let hw = fp_mul_spec(width, FP_HALF as int);
    let hh = fp_mul_spec(height, FP_HALF as int);
    Mat4 {
        m00: hw as i64, m01: 0, m02: 0, m03: hw as i64,
        m10: 0, m11: (-hh) as i64, m12: 0, m13: hh as i64,
        m20: 0, m21: 0, m22: FP_ONE, m23: 0,
        m30: 0, m31: 0, m32: 0, m33: FP_ONE,
    }
}

pub fn create_viewport_matrix(width: i64, height: i64) -> (m: Mat4)
    requires
        fp_ok(width as int),
        fp_ok(height as int),
    ensures
        m == viewport_matrix_spec(width as int, height as int),
        m.wf(),
{
    let hw: i64 = fp_mul(width, FP_HALF);
    let hh: i64 = fp_mul(height, FP_HALF);
    Mat4::new(
        hw, 0, 0, hw,
        0, -hh, 0, hh,
        0, 0, FP_ONE, 0,
        0, 0, 0, FP_ONE,
    )
}

/// One framebuffer state evolves into another when the extent and the
/// background are kept, every depth cell only moves nearer, and every
/// cell whose depth is untouched keeps its color.
pub open spec fn evolves(a: FbState, b: FbState) -> bool {
    &&& b.wf()
    &&& b.width == a.width
    &&& b.height == a.height
    &&& b.background == a.background
    &&& b.depths.len() == a.depths.len()
    &&& b.colors.len() == a.colors.len()
    &&& forall|i: int|
        0 <= i < a.depths.len() ==> #[trigger] b.depths[i] as int <= a.depths[i] as int
    &&& forall|i: int|
        0 <= i < a.depths.len() && #[trigger] b.depths[i] == a.depths[i] ==> b.colors[i]
            == a.colors[i]
}

/// Every vertex of a mesh through the transform stage.
pub open spec fn transformed_spec(va: Seq<Vertex>, u: Uniforms) -> Seq<Vertex> {
    va.map_values(|v: Vertex| vertex_shader_spec(v, u))
}

/// The fragments of the first `k` assembled triples, in order.
pub open spec fn mesh_frags_spec(tv: Seq<Vertex>, k: int) -> Seq<Fragment>
    decreases k,
{
    if k <= 0 {
        Seq::empty()
    } else {
        mesh_frags_spec(tv, k - 1) + tri_frags_spec(
            tv[3 * (k - 1)],
            tv[3 * (k - 1) + 1],
            tv[3 * (k - 1) + 2],
        )
    }
}

/// What one shaded fragment does to the framebuffer: outside the
/// extent, nothing; inside, the pen takes the shaded packed color and
/// the write passes the depth test.
pub open spec fn write_one_spec(s: FbState, u: Uniforms, kind: ShaderKind, f: Fragment) -> FbState {
    if 0 <= f.x && 0 <= f.y && (f.x as int) < s.width && (f.y as int) < s.height {
        let color = hex_spec(shade_spec(f, u, kind));
        point_spec(FbState { current: color, ..s }, f.x as int, f.y as int, color, f.depth as int)
    } else {
        s
    }
}

/// The framebuffer after the first `n` fragments are written.
pub open spec fn write_frags_spec(
    s: FbState,
    u: Uniforms,
    kind: ShaderKind,
    frs: Seq<Fragment>,
    n: int,
) -> FbState
    decreases n,
{
    if n <= 0 {
        s
    } else {
        write_one_spec(write_frags_spec(s, u, kind, frs, n - 1), u, kind, frs[n - 1])
    }
}

/// The whole pass as a function of its inputs: transform every
/// vertex, assemble consecutive triples (dropping a trailing one or
/// two vertices), rasterize each triple in order, and write every
/// shaded fragment through the bounds check and the depth test.
pub open spec fn render_spec(s: FbState, u: Uniforms, va: Seq<Vertex>, sel: u32) -> FbState {
    let tv = transformed_spec(va, u);
    let frs = mesh_frags_spec(tv, va.len() as int / 3);
    write_frags_spec(s, u, shader_kind_of_spec(sel), frs, frs.len() as int)
}

/// Writing any fragment sequence keeps the framebuffer well formed
/// and only ever evolves it.
pub proof fn lemma_write_frags_shape(
    s: FbState,
    u: Uniforms,
    kind: ShaderKind,
    frs: Seq<Fragment>,
    n: int,
)
    requires
        s.wf(),
        0 <= n,
    ensures
        write_frags_spec(s, u, kind, frs, n).wf(),
        evolves(s, write_frags_spec(s, u, kind, frs, n)),
    decreases n,
{
    if n > 0 {
        lemma_write_frags_shape(s, u, kind, frs, n - 1);
        let prev = write_frags_spec(s, u, kind, frs, n - 1);
        let f = frs[n - 1];
        let w = write_one_spec(prev, u, kind, f);
        if 0 <= f.x && 0 <= f.y && (f.x as int) < prev.width && (f.y as int) < prev.height {
            let color = hex_spec(shade_spec(f, u, kind));
            lemma_point_monotone(
                FbState { current: color, ..prev },
                f.x as int,
                f.y as int,
                color,
                f.depth as int,
            );
            assert forall|j: int| 0 <= j < s.depths.len() implies #[trigger] w.depths[j] as int
                <= s.depths[j] as int by {
                assert(w.depths[j] as int <= prev.depths[j] as int);
                assert(prev.depths[j] as int <= s.depths[j] as int);
            }
            assert forall|j: int|
                0 <= j < s.depths.len() && #[trigger] w.depths[j] == s.depths[j] implies w.colors[j]
                == s.colors[j] by {
                assert(w.depths[j] as int <= prev.depths[j] as int);
                assert(prev.depths[j] as int <= s.depths[j] as int);
                assert(w.depths[j] == prev.depths[j]);
                assert(prev.depths[j] == s.depths[j]);
                assert(w.colors[j] == prev.colors[j]);
                assert(prev.colors[j] == s.colors[j]);
            }
        }
    }
}

/// Render one mesh with one shader into the framebuffer. The final
/// state is pinned exactly: every vertex goes through the transform
/// stage, consecutive triples are assembled into triangles (any
/// trailing one or two vertices are dropped), each triple is
/// rasterized in order, and every fragment is shaded and written
/// through the bounds check and the depth test. The framebuffer only
/// ever evolves: depths move nearer or stay, and cells with untouched
/// depth keep their color.
#[verifier::loop_isolation(false)]
#[verifier::rlimit(80)]
pub fn render(
    framebuffer: &mut Framebuffer,
    uniforms: &Uniforms,
    vertex_array: &Vec<Vertex>,
    shader_selection: u32,
)
    requires
        old(framebuffer)@.wf(),
        uniforms.wf(),
        forall|i: int| 0 <= i < vertex_array@.len() ==> #[trigger] vertex_array@[i].wf(),
    ensures
        final(framebuffer)@ == render_spec(
            old(framebuffer)@,
            *uniforms,
            vertex_array@,
            shader_selection,
        ),
        final(framebuffer)@.wf(),
        evolves(old(framebuffer)@, final(framebuffer)@),
{
    // Vertex transformation.
    let mut transformed_vertices: Vec<Vertex> = Vec::new();
    let n: usize = vertex_array.len();
    let mut i: usize = 0;
    while i < n
        invariant
            i <= n,
            transformed_vertices@.len() == i,
            forall|j: int| 0 <= j < i ==> #[trigger] transformed_vertices@[j].wf(),
            forall|j: int|
                0 <= j < i ==> #[trigger] transformed_vertices@[j] == vertex_shader_spec(
                    vertex_array@[j],
                    *uniforms,
                ),
        decreases n - i,
    {
        let v = vertex_shader(&vertex_array[i], uniforms);
        transformed_vertices.push(v);
        i = i + 1;
    }
    proof {
        assert(transformed_vertices@ =~= transformed_spec(vertex_array@, *uniforms));
    }

    // Primitive assembly and rasterization: consecutive triples.
    let mut fragments: Vec<Fragment> = Vec::new();
    let triples: usize = n / 3;
    proof {
        vstd::arithmetic::div_mod::lemma_fundamental_div_mod(n as int, 3);
        vstd::arithmetic::div_mod::lemma_mod_bound(n as int, 3);
    }
    let mut k: usize = 0;
    while k < triples
        invariant
            k <= triples,
            fragments@ == mesh_frags_spec(transformed_vertices@, k as int),
            forall|j: int| 0 <= j < fragments@.len() ==> #[trigger] fragments@[j].wf(),
        decreases triples - k,
    {
        let base: usize = 3 * k;
        let frags = triangle(
            &transformed_vertices[base],
            &transformed_vertices[base + 1],
            &transformed_vertices[base + 2],
        );
        let m: usize = frags.len();
        let mut j: usize = 0;
        while j < m
            invariant
                j <= m,
                frags@.len() == m,
                fragments@ == mesh_frags_spec(transformed_vertices@, k as int) + frags@.subrange(
                    0,
                    j as int,
                ),
                forall|q: int| 0 <= q < m ==> #[trigger] frags@[q].wf(),
                forall|q: int| 0 <= q < fragments@.len() ==> #[trigger] fragments@[q].wf(),
            decreases m - j,
        {
            let ghost before = fragments@;
            fragments.push(frags[j]);
            proof {
                assert(frags@.subrange(0, j as int + 1) =~= frags@.subrange(0, j as int).push(
                    frags@[j as int],
                ));
                assert(fragments@ =~= mesh_frags_spec(transformed_vertices@, k as int)
                    + frags@.subrange(0, j as int + 1));
            }
            j = j + 1;
        }
        proof {
            assert(frags@.subrange(0, m as int) =~= frags@);
            assert(fragments@ =~= mesh_frags_spec(transformed_vertices@, k as int + 1));
        }
        k = k + 1;
    }

    // Fragment shading and depth-tested writes.
    let kind: ShaderKind = shader_kind_of(shader_selection);
    let nf: usize = fragments.len();
    let mut f: usize = 0;
    while f < nf
        invariant
            f <= nf,
            fragments@.len() == nf,
            forall|j: int| 0 <= j < nf ==> #[trigger] fragments@[j].wf(),
            framebuffer@ == write_frags_spec(
                old(framebuffer)@,
                *uniforms,
                kind,
                fragments@,
                f as int,
            ),
        decreases nf - f,
    {
        proof {
            lemma_write_frags_shape(old(framebuffer)@, *uniforms, kind, fragments@, f as int);
        }
        let ghost prev = framebuffer@;
        let fragment = &fragments[f];
        if fragment.x >= 0 && fragment.y >= 0 && (fragment.x as i128) < (framebuffer.width as i128)
            && (fragment.y as i128) < (framebuffer.height as i128) {
            let x: usize = fragment.x as usize;
            let y: usize = fragment.y as usize;
            let shaded_color: Color = fragment_shader(fragment, uniforms, kind);
            let color: u32 = shaded_color.to_hex();
            framebuffer.set_current_color(color);
            framebuffer.point(x, y, fragment.depth);
        }
        proof {
            assert(framebuffer@ == write_one_spec(prev, *uniforms, kind, fragments@[f as int]));
            assert(framebuffer@ == write_frags_spec(
                old(framebuffer)@,
                *uniforms,
                kind,
                fragments@,
                f as int + 1,
            ));
        }
        f = f + 1;
    }
    proof {
        lemma_write_frags_shape(old(framebuffer)@, *uniforms, kind, fragments@, nf as int);
    }
}

} // verus!
