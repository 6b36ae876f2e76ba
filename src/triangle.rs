//! The textured-cube demo scene: its start-up value and the index tables of
//! its meshes.

use vstd::prelude::*;

verus! {

/// Start-up value of the cube scene; the application builds the scene's GPU
/// resources from it once a device is available.
#[derive(Debug, Clone, Copy, PartialEq, Eq, Structural)]
pub struct DrawTriangleInit {}

impl DrawTriangleInit {
    pub fn new() -> (r: Self)
        ensures
            r == (DrawTriangleInit {}),
    {
        Self {}
    }
}

impl Default for DrawTriangleInit {
    fn default() -> (r: Self)
        ensures
            r == (DrawTriangleInit {}),
    {
        Self::new()
    }
}

/// The four corner vertices of a quad, as indices into a vertex buffer.
#[derive(Debug, Clone, Copy, PartialEq, Eq, Structural)]
pub struct QuadVertexPos {
    pub top_right: u32,
    pub bottom_right: u32,
    pub top_left: u32,
    pub bottom_left: u32,
}

impl QuadVertexPos {
    /// The two triangles of the quad: top-right, bottom-right, top-left,
    /// then bottom-right, bottom-left, top-left.
    pub open spec fn spec_indices(self) -> Seq<u32> {
        seq![
            self.top_right,
            self.bottom_right,
            self.top_left,
            self.bottom_right,
            self.bottom_left,
            self.top_left,
        ]
    }

    pub fn indices(&self) -> (r: [u32; 6])
        ensures
            r@ == self.spec_indices(),
    {
        let r = [
            self.top_right,
            self.bottom_right,
            self.top_left,
            self.bottom_right,
            self.bottom_left,
            self.top_left,
        ];
        assert(r@ =~= self.spec_indices());
        r
    }
}

/// The six faces of a cube, each given as a quad.
#[derive(Debug, Clone, Copy, PartialEq, Eq, Structural)]
pub struct CubeVertexPos {
    pub top: QuadVertexPos,
    pub bottom: QuadVertexPos,
    pub left: QuadVertexPos,
    pub right: QuadVertexPos,
    pub front: QuadVertexPos,
    pub behind: QuadVertexPos,
}

impl CubeVertexPos {
    /// The faces' triangles in the order top, bottom, left, right, front, behind.
    pub open spec fn spec_indices(self) -> Seq<u32> {
        self.top.spec_indices() + self.bottom.spec_indices() + self.left.spec_indices()
            + self.right.spec_indices() + self.front.spec_indices() + self.behind.spec_indices()
    }

    pub fn indices(&self) -> (r: [u32; 36])
        ensures
            r@ == self.spec_indices(),
    {
        let t = self.top.indices();
        let b = self.bottom.indices();
        let l = self.left.indices();
        let g = self.right.indices();
        let f = self.front.indices();
        let h = self.behind.indices();
        let r = [
            t[0], t[1], t[2], t[3], t[4], t[5],
            b[0], b[1], b[2], b[3], b[4], b[5],
            l[0], l[1], l[2], l[3], l[4], l[5],
            g[0], g[1], g[2], g[3], g[4], g[5],
            f[0], f[1], f[2], f[3], f[4], f[5],
            h[0], h[1], h[2], h[3], h[4], h[5],
        ];
        assert(r@ =~= self.spec_indices());
        r
    }
}

/// Indices `0, 1, ..., count - 1`: each vertex of a mesh drawn once, in order.
pub fn sequential_indices(count: u32) -> (r: Vec<u32>)
    ensures
        r@.len() == count,
        forall|i: int| 0 <= i < count ==> r@[i] == i,
{
    let mut r: Vec<u32> = Vec::new();
    let mut i: u32 = 0;
    while i < count
        invariant
            i <= count,
            r@.len() == i,
            forall|j: int| 0 <= j < i ==> r@[j] == j,
        decreases count - i,
    {
        r.push(i);
        i = i + 1;
    }
    r
}

} // verus!
