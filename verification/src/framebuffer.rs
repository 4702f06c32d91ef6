//! The render target: a color buffer and a parallel depth buffer,
//! with depth-tested, bounds-rejecting point writes.

use vstd::prelude::*;

verus! {

/// The "maximum distance" sentinel every depth cell is reset to; any
/// real fragment depth is nearer.
pub const DEPTH_FAR: i64 = 0x7fff_ffff_ffff_ffff;

pub struct Framebuffer {
    pub width: usize,
    pub height: usize,
    pub buffer: Vec<u32>,
    pub zbuffer: Vec<i64>,
    pub background_color: u32,
    pub current_color: u32,
}

/// The mathematical state of a framebuffer.
#[verifier::ext_equal]
pub struct FbState {
    pub width: int,
    pub height: int,
    pub colors: Seq<u32>,
    pub depths: Seq<i64>,
    pub background: u32,
    pub current: u32,
}

impl FbState {
    /// Both planes hold exactly one cell per pixel.
    pub open spec fn wf(self) -> bool {
        &&& self.colors.len() == self.width * self.height
        &&& self.depths.len() == self.width * self.height
        &&& 0 <= self.width
        &&& 0 <= self.height
    }

    /// The cell index of a pixel, row-major.
    pub open spec fn idx(self, x: int, y: int) -> int {
        y * self.width + x
    }

    pub open spec fn in_bounds(self, x: int, y: int) -> bool {
        0 <= x < self.width && 0 <= y < self.height
    }
}

impl View for Framebuffer {
    type V = FbState;

    open spec fn view(&self) -> FbState {
        FbState {
            width: self.width as int,
            height: self.height as int,
            colors: self.buffer@,
            depths: self.zbuffer@,
            background: self.background_color,
            current: self.current_color,
        }
    }
}

/// What one depth-tested write does: outside the extent nothing
/// changes; inside, the cell is overwritten exactly when the new
/// depth is strictly nearer than the stored one, so ties keep the
/// earlier pixel.
pub open spec fn point_spec(s: FbState, x: int, y: int, color: u32, depth: int) -> FbState {
    if s.in_bounds(x, y) && depth < s.depths[s.idx(x, y)] {
        FbState {
            colors: s.colors.update(s.idx(x, y), color),
            depths: s.depths.update(s.idx(x, y), depth as i64),
            ..s
        }
    } else {
        s
    }
}

/// A pixel index is inside the cell range of its framebuffer.
pub proof fn lemma_idx_bound(s: FbState, x: int, y: int)
    requires
        s.wf(),
        s.in_bounds(x, y),
    ensures
        0 <= s.idx(x, y) < s.width * s.height,
{
    assert(0 <= y * s.width + x < s.width * s.height) by (nonlinear_arith)
        requires
            0 <= x < s.width,
            0 <= y < s.height,
    ;
}

impl Framebuffer {
    /// A fresh framebuffer: all cells black and at maximum distance.
    pub fn new(width: usize, height: usize) -> (fb: Framebuffer)
        requires
            width * height <= usize::MAX,
        ensures
            fb@.wf(),
            fb@.width == width,
            fb@.height == height,
            fb@.background == 0u32,
            fb@.current == 0u32,
            forall|i: int| 0 <= i < fb@.colors.len() ==> fb@.colors[i] == 0u32,
            forall|i: int| 0 <= i < fb@.depths.len() ==> fb@.depths[i] == DEPTH_FAR,
    {
        proof {
            assert(width * height <= usize::MAX) by (nonlinear_arith)
                requires
                    width * height <= usize::MAX,
            ;
        }
        let n: usize = width * height;
        let mut buffer: Vec<u32> = Vec::new();
        let mut zbuffer: Vec<i64> = Vec::new();
        let mut i: usize = 0;
        while i < n
            invariant
                i <= n,
                buffer@.len() == i,
                zbuffer@.len() == i,
                forall|j: int| 0 <= j < i ==> buffer@[j] == 0u32,
                forall|j: int| 0 <= j < i ==> zbuffer@[j] == DEPTH_FAR,
            decreases n - i,
        {
            buffer.push(0);
            zbuffer.push(DEPTH_FAR);
            i = i + 1;
        }
        Framebuffer { width, height, buffer, zbuffer, background_color: 0, current_color: 0 }
    }

    /// Reset every pixel to the background color and every depth cell
    /// to the far sentinel; the extent and the pen colors stay.
    pub fn clear(&mut self)
        requires
            old(self)@.wf(),
        ensures
            final(self)@.wf(),
            final(self)@.width == old(self)@.width,
            final(self)@.height == old(self)@.height,
            final(self)@.background == old(self)@.background,
            final(self)@.current == old(self)@.current,
            final(self)@.colors.len() == old(self)@.colors.len(),
            final(self)@.depths.len() == old(self)@.depths.len(),
            forall|i: int|
                0 <= i < final(self)@.colors.len() ==> final(self)@.colors[i] == old(
                    self
                )@.background,
            forall|i: int| 0 <= i < final(self)@.depths.len() ==> final(self)@.depths[i] == DEPTH_FAR,
    {
        let n: usize = self.buffer.len();
        let mut i: usize = 0;
        while i < n
            invariant
                i <= n,
                self.buffer@.len() == n,
                self.zbuffer@.len() == n,
                self.width == old(self).width,
                self.height == old(self).height,
                self.background_color == old(self).background_color,
                self.current_color == old(self).current_color,
                forall|j: int| 0 <= j < i ==> self.buffer@[j] == self.background_color,
                forall|j: int| 0 <= j < i ==> self.zbuffer@[j] == DEPTH_FAR,
            decreases n - i,
        {
            let c: u32 = self.background_color;
            self.buffer[i] = c;
            self.zbuffer[i] = DEPTH_FAR;
            i = i + 1;
        }
    }

    pub fn set_background_color(&mut self, color: u32)
        ensures
            final(self)@ == (FbState { background: color, ..old(self)@ }),
    {
        self.background_color = color;
    }

    pub fn set_current_color(&mut self, color: u32)
        ensures
            final(self)@ == (FbState { current: color, ..old(self)@ }),
    {
        self.current_color = color;
    }

    /// One depth-tested write of the current color at the given pixel
    /// and depth.
    pub fn point(&mut self, x: usize, y: usize, depth: i64)
        requires
            old(self)@.wf(),
        ensures
            final(self)@ == point_spec(
                old(self)@,
                x as int,
                y as int,
                old(self).current_color,
                depth as int,
            ),
            final(self)@.wf(),
    {
        if x < self.width && y < self.height {
            let cells: usize = self.buffer.len();
            proof {
                lemma_idx_bound(self@, x as int, y as int);
            }
            let idx: usize = y * self.width + x;
            if depth < self.zbuffer[idx] {
                let c: u32 = self.current_color;
                self.buffer[idx] = c;
                self.zbuffer[idx] = depth;
            }
            proof {
                assert(self@ =~= point_spec(
                    old(self)@,
                    x as int,
                    y as int,
                    old(self).current_color,
                    depth as int,
                ));
            }
        } else {
            proof {
                assert(self@ =~= point_spec(
                    old(self)@,
                    x as int,
                    y as int,
                    old(self).current_color,
                    depth as int,
                ));
            }
        }
    }

    /// The stored color of one pixel.
    pub fn get_color(&self, x: usize, y: usize) -> (c: u32)
        requires
            self@.wf(),
            self@.in_bounds(x as int, y as int),
        ensures
            c == self@.colors[self@.idx(x as int, y as int)],
    {
        let cells: usize = self.buffer.len();
        proof {
            lemma_idx_bound(self@, x as int, y as int);
        }
        self.buffer[y * self.width + x]
    }

    /// The stored depth of one pixel.
    pub fn get_depth(&self, x: usize, y: usize) -> (d: i64)
        requires
            self@.wf(),
            self@.in_bounds(x as int, y as int),
        ensures
            d == self@.depths[self@.idx(x as int, y as int)],
    {
        let cells: usize = self.zbuffer.len();
        proof {
            lemma_idx_bound(self@, x as int, y as int);
        }
        self.zbuffer[y * self.width + x]
    }
}

/// Writing the same pixel, color and depth twice leaves the state
/// where one write left it.
pub proof fn lemma_point_idempotent(s: FbState, x: int, y: int, color: u32, depth: int)
    requires
        s.wf(),
        i64::MIN <= depth <= i64::MAX,
    ensures
        point_spec(point_spec(s, x, y, color, depth), x, y, color, depth) == point_spec(
            s,
            x,
            y,
            color,
            depth,
        ),
{
    let s1 = point_spec(s, x, y, color, depth);
    if s.in_bounds(x, y) && depth < s.depths[s.idx(x, y)] {
        lemma_idx_bound(s, x, y);
        assert(s1.depths[s1.idx(x, y)] == depth as i64);
        assert(point_spec(s1, x, y, color, depth) == s1);
    } else {
        assert(s1 == s);
    }
}

/// Of two writes to one pixel with distinct depths, the nearer one
/// determines the final color and depth, in either order.
pub proof fn lemma_point_depth_order(s: FbState, x: int, y: int, c1: u32, d1: int, c2: u32, d2: int)
    requires
        s.wf(),
        s.in_bounds(x, y),
        d1 < d2,
        d2 < s.depths[s.idx(x, y)],
        i64::MIN <= d1,
        d2 <= i64::MAX,
    ensures
        point_spec(point_spec(s, x, y, c1, d1), x, y, c2, d2).colors[s.idx(x, y)] == c1,
        point_spec(point_spec(s, x, y, c1, d1), x, y, c2, d2).depths[s.idx(x, y)] == d1,
        point_spec(point_spec(s, x, y, c2, d2), x, y, c1, d1).colors[s.idx(x, y)] == c1,
        point_spec(point_spec(s, x, y, c2, d2), x, y, c1, d1).depths[s.idx(x, y)] == d1,
{
    lemma_idx_bound(s, x, y);
    let i = s.idx(x, y);
    let a1 = point_spec(s, x, y, c1, d1);
    assert(a1.depths[i] == d1 as i64);
    assert(point_spec(a1, x, y, c2, d2) == a1);
    let b1 = point_spec(s, x, y, c2, d2);
    assert(b1.depths[i] == d2 as i64);
    let b2 = point_spec(b1, x, y, c1, d1);
    assert(b2.colors[i] == c1);
    assert(b2.depths[i] == d1 as i64);
}

/// A write outside the extent changes nothing.
pub proof fn lemma_point_out_of_bounds(s: FbState, x: int, y: int, color: u32, depth: int)
    requires
        !s.in_bounds(x, y),
    ensures
        point_spec(s, x, y, color, depth) == s,
{
}

/// A write never raises the stored depth of any cell, and leaves the
/// color alone wherever it leaves the depth alone.
pub proof fn lemma_point_monotone(s: FbState, x: int, y: int, color: u32, depth: int)
    requires
        s.wf(),
        i64::MIN <= depth <= i64::MAX,
    ensures
        point_spec(s, x, y, color, depth).wf(),
        point_spec(s, x, y, color, depth).width == s.width,
        point_spec(s, x, y, color, depth).height == s.height,
        point_spec(s, x, y, color, depth).background == s.background,
        forall|i: int|
            0 <= i < s.depths.len() ==> point_spec(s, x, y, color, depth).depths[i] as int
                <= s.depths[i] as int,
        forall|i: int|
            0 <= i < s.depths.len() && point_spec(s, x, y, color, depth).depths[i]
                == s.depths[i] ==> point_spec(s, x, y, color, depth).colors[i] == s.colors[i],
{
    if s.in_bounds(x, y) && depth < s.depths[s.idx(x, y)] {
        lemma_idx_bound(s, x, y);
    }
}

} // verus!
