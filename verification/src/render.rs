//! The draw-call batching engine.
//!
//! Shapes are tessellated into vertices and locally-indexed triangles, then
//! appended into per-frame arenas. Adjacent submissions that share a texture
//! and still fit under the per-call capacity limits extend the current draw
//! call; anything else opens a new one. Incoming local indices are rebased by
//! the vertex count the current call had already accumulated, so every stored
//! index stays valid relative to its own call's vertex range.

use vstd::prelude::*;

use crate::color::Color;
use crate::error::RenderError;
use crate::Point;

verus! {

/// Opaque identifier of a registered texture.
///
/// Id 0 is the reserved sentinel of the built-in 1x1 opaque-white texture
/// that flat-color shapes are drawn with; the texture registry issues ids
/// from 1 upward.
#[derive(Clone, Copy, PartialEq, Eq, Structural, Debug)]
pub struct TextureHandle {
    pub id: u64,
}

impl TextureHandle {
    /// The reserved handle of the built-in 1x1 opaque-white texture.
    pub fn white() -> (t: TextureHandle)
        ensures
            t == (TextureHandle { id: 0 }),
    {
        TextureHandle { id: 0 }
    }
}

/// One vertex of the per-frame geometry: a position in integer pixel
/// coordinates, a color, and texture coordinates in texels of the bound
/// texture. The rendering layer divides texel coordinates by the texture
/// size when it uploads a batch; flat-color shapes leave them at zero and
/// bind the 1x1 white texture, where texel and normalized coordinates agree.
#[derive(Clone, Copy, PartialEq, Eq, Structural, Debug)]
pub struct Vertex {
    pub pos: Point,
    pub color: Color,
    pub tex_coord: Point,
}

impl Vertex {
    /// Builds one vertex from its position, texel coordinates and color.
    pub fn new(x: i32, y: i32, u: i32, v: i32, color: Color) -> (vertex: Vertex)
        ensures
            vertex == (Vertex { pos: Point { x, y }, color, tex_coord: Point { x: u, y: v } }),
    {
        Vertex { pos: Point { x, y }, color, tex_coord: Point { x: u, y: v } }
    }
}

/// A sub-rectangle of a registered texture, for partial (atlas) sampling.
/// Location and size are in texels of that texture.
#[derive(Clone, Copy, PartialEq, Eq, Structural, Debug)]
pub struct TextureArea {
    pub texture: TextureHandle,
    pub location: Point,
    pub size: Point,
}

/// A contiguous (offset, length) range into one of the per-frame arenas.
#[derive(Clone, Copy, PartialEq, Eq, Structural, Debug)]
pub struct VecSlice {
    pub offset: usize,
    pub length: usize,
}

/// One GPU draw call: a single texture together with the contiguous ranges
/// of the vertex and index arenas that belong to it. Index values inside the
/// index range are local: they count from the start of this call's vertex
/// range, never from the start of the arena.
#[derive(Clone, Copy, PartialEq, Eq, Structural, Debug)]
pub struct DrawCall {
    pub vertex_indices_slice: VecSlice,
    pub index_indices_slice: VecSlice,
    pub texture: TextureHandle,
}

/// The mathematical shape of a draw call: its texture and its arena ranges
/// as plain integers.
#[verifier::ext_equal]
pub ghost struct DrawCallModel {
    pub texture: TextureHandle,
    pub vertex_offset: int,
    pub vertex_count: int,
    pub index_offset: int,
    pub index_count: int,
}

impl View for DrawCall {
    type V = DrawCallModel;

    open spec fn view(&self) -> DrawCallModel {
        DrawCallModel {
            texture: self.texture,
            vertex_offset: self.vertex_indices_slice.offset as int,
            vertex_count: self.vertex_indices_slice.length as int,
            index_offset: self.index_indices_slice.offset as int,
            index_count: self.index_indices_slice.length as int,
        }
    }
}

impl DrawCall {
    /// A fresh, still empty draw call starting at the given arena offsets.
    fn new(texture: TextureHandle, vertex_offset: usize, index_offset: usize) -> (call: Self)
        ensures
            call@ == (DrawCallModel {
                texture,
                vertex_offset: vertex_offset as int,
                vertex_count: 0,
                index_offset: index_offset as int,
                index_count: 0,
            }),
    {
        DrawCall {
            texture,
            vertex_indices_slice: VecSlice { offset: vertex_offset, length: 0 },
            index_indices_slice: VecSlice { offset: index_offset, length: 0 },
        }
    }
}

/// Total vertex count of the first `i` draw calls of `calls`.
pub open spec fn vertex_prefix(calls: Seq<DrawCallModel>, i: int) -> int
    decreases i,
{
    if i <= 0 {
        0
    } else {
        vertex_prefix(calls, i - 1) + calls[i - 1].vertex_count
    }
}

/// Total index count of the first `i` draw calls of `calls`.
pub open spec fn index_prefix(calls: Seq<DrawCallModel>, i: int) -> int
    decreases i,
{
    if i <= 0 {
        0
    } else {
        index_prefix(calls, i - 1) + calls[i - 1].index_count
    }
}

/// Each incoming local index shifted up by `base`, the vertex count the
/// current draw call had accumulated before the submission.
pub open spec fn rebase_indices(idxs: Seq<u16>, base: int) -> Seq<u16> {
    idxs.map_values(|idx: u16| (idx + base) as u16)
}

/// The mathematical model of a `DrawContext`: the two arenas, the draw-call
/// list, the sentinel texture of flat-color shapes, and the capacity limits.
#[verifier::ext_equal]
pub ghost struct DrawContextView {
    pub vertices: Seq<Vertex>,
    pub indices: Seq<u16>,
    pub calls: Seq<DrawCallModel>,
    pub default_texture: TextureHandle,
    pub max_vertex_per_call: int,
    pub max_index_per_call: int,
}

impl DrawContextView {
    /// Well-formedness of the frame state:
    /// - the capacity limits are nonzero and the vertex limit is addressable
    ///   by the 16-bit indices of the index arena;
    /// - the draw calls tile both arenas completely: every call's offset is
    ///   the sum of the counts before it, and the sums over all calls equal
    ///   the arena lengths (so calls are contiguous, non-overlapping and in
    ///   submission order);
    /// - no call's range is longer than its capacity limit;
    /// - every stored index addresses a vertex of its own call's range.
    pub open spec fn wf(self) -> bool {
        &&& 1 <= self.max_vertex_per_call <= 0x10000
        &&& 1 <= self.max_index_per_call
        &&& self.vertices.len() == vertex_prefix(self.calls, self.calls.len() as int)
        &&& self.indices.len() == index_prefix(self.calls, self.calls.len() as int)
        &&& forall|i: int|
            0 <= i < self.calls.len() ==> {
                let call = #[trigger] self.calls[i];
                &&& call.vertex_offset == vertex_prefix(self.calls, i)
                &&& call.index_offset == index_prefix(self.calls, i)
                &&& 0 <= call.vertex_count <= self.max_vertex_per_call
                &&& 0 <= call.index_count <= self.max_index_per_call
            }
        &&& forall|i: int, j: int|
            0 <= i < self.calls.len() && (#[trigger] self.calls[i]).index_offset <= j
                && j < self.calls[i].index_offset + self.calls[i].index_count ==> (
            #[trigger] self.indices[j]) < self.calls[i].vertex_count
    }

    /// Whether a submission of these counts can ever sit in one draw call.
    pub open spec fn fits_one_call(self, vertex_count: int, index_count: int) -> bool {
        &&& vertex_count <= self.max_vertex_per_call
        &&& index_count <= self.max_index_per_call
    }

    /// Whether a submission opens a new draw call: the list is still empty,
    /// the texture changes, or appending would push the current call past a
    /// capacity limit.
    pub open spec fn opens_new_call(
        self,
        vertex_count: int,
        index_count: int,
        texture: TextureHandle,
    ) -> bool {
        ||| self.calls.len() == 0
        ||| self.calls.last().texture != texture
        ||| self.calls.last().vertex_count + vertex_count > self.max_vertex_per_call
        ||| self.calls.last().index_count + index_count > self.max_index_per_call
    }

    /// The batching step. A new call is opened when `opens_new_call` says
    /// so, at offsets equal to the current arena lengths; then the incoming
    /// indices, rebased by the current call's accumulated vertex count, and
    /// the incoming vertices are appended, and the current call's ranges
    /// grow by the incoming counts.
    pub open spec fn submit_tr(
        self,
        verts: Seq<Vertex>,
        idxs: Seq<u16>,
        texture: TextureHandle,
    ) -> DrawContextView {
        let opened = if self.opens_new_call(verts.len() as int, idxs.len() as int, texture) {
            DrawContextView {
                calls: self.calls.push(DrawCallModel {
                    texture,
                    vertex_offset: self.vertices.len() as int,
                    vertex_count: 0,
                    index_offset: self.indices.len() as int,
                    index_count: 0,
                }),
                ..self
            }
        } else {
            self
        };
        let j = opened.calls.len() - 1;
        let call = opened.calls[j];
        DrawContextView {
            vertices: opened.vertices + verts,
            indices: opened.indices + rebase_indices(idxs, call.vertex_count),
            calls: opened.calls.update(j, DrawCallModel {
                vertex_count: call.vertex_count + verts.len(),
                index_count: call.index_count + idxs.len(),
                ..call
            }),
            ..opened
        }
    }
}

proof fn lemma_prefix_push(calls: Seq<DrawCallModel>, call: DrawCallModel, i: int)
    requires
        0 <= i <= calls.len(),
    ensures
        vertex_prefix(calls.push(call), i) == vertex_prefix(calls, i),
        index_prefix(calls.push(call), i) == index_prefix(calls, i),
    decreases i,
{
    if i > 0 {
        lemma_prefix_push(calls, call, i - 1);
        assert(calls.push(call)[i - 1] == calls[i - 1]);
    }
}

proof fn lemma_prefix_update(calls: Seq<DrawCallModel>, j: int, call: DrawCallModel, i: int)
    requires
        0 <= i <= j < calls.len(),
    ensures
        vertex_prefix(calls.update(j, call), i) == vertex_prefix(calls, i),
        index_prefix(calls.update(j, call), i) == index_prefix(calls, i),
    decreases i,
{
    if i > 0 {
        lemma_prefix_update(calls, j, call, i - 1);
        assert(calls.update(j, call)[i - 1] == calls[i - 1]);
    }
}

/// The batching step preserves well-formedness whenever the submission
/// alone fits in one draw call and its local indices address its own
/// vertices.
pub proof fn lemma_submit_tr_wf(
    v: DrawContextView,
    verts: Seq<Vertex>,
    idxs: Seq<u16>,
    texture: TextureHandle,
)
    requires
        v.wf(),
        v.fits_one_call(verts.len() as int, idxs.len() as int),
        forall|k: int| 0 <= k < idxs.len() ==> (#[trigger] idxs[k]) < verts.len(),
    ensures
        v.submit_tr(verts, idxs, texture).wf(),
{
    let nv = verts.len() as int;
    let ni = idxs.len() as int;
    let r = v.submit_tr(verts, idxs, texture);
    let n = v.calls.len() as int;
    if v.opens_new_call(nv, ni, texture) {
        let fresh = DrawCallModel {
            texture,
            vertex_offset: v.vertices.len() as int,
            vertex_count: 0,
            index_offset: v.indices.len() as int,
            index_count: 0,
        };
        let pushed = v.calls.push(fresh);
        let grown = DrawCallModel { vertex_count: nv, index_count: ni, ..fresh };
        assert(r.calls == pushed.update(n, grown));
        assert(r.indices == v.indices + rebase_indices(idxs, 0));
        assert forall|i: int| 0 <= i <= n implies vertex_prefix(r.calls, i) == vertex_prefix(
            v.calls,
            i,
        ) && index_prefix(r.calls, i) == index_prefix(v.calls, i) by {
            lemma_prefix_push(v.calls, fresh, i);
            lemma_prefix_update(pushed, n, grown, i);
        }
        assert(vertex_prefix(r.calls, n + 1) == vertex_prefix(v.calls, n) + nv);
        assert(index_prefix(r.calls, n + 1) == index_prefix(v.calls, n) + ni);
        assert(r.vertices.len() == vertex_prefix(r.calls, r.calls.len() as int));
        assert(r.indices.len() == index_prefix(r.calls, r.calls.len() as int));
        assert forall|i: int, j: int|
            0 <= i < r.calls.len() && (#[trigger] r.calls[i]).index_offset <= j && j
                < r.calls[i].index_offset + r.calls[i].index_count implies (
        #[trigger] r.indices[j]) < r.calls[i].vertex_count by {
            if i < n {
                lemma_prefix_mono(v.calls, 0, i);
                lemma_prefix_mono(v.calls, i + 1, n);
                assert(r.calls[i] == v.calls[i]);
                assert(v.calls[i].index_offset + v.calls[i].index_count == index_prefix(
                    v.calls,
                    i + 1,
                )) by {
                    assert(v.calls[i].index_offset == index_prefix(v.calls, i));
                }
                assert(j < v.indices.len());
                assert(r.indices[j] == v.indices[j]);
            } else {
                let k = j - v.indices.len();
                assert(r.indices[j] == rebase_indices(idxs, 0)[k]);
                assert(rebase_indices(idxs, 0)[k] == (idxs[k] + 0) as u16);
                assert(idxs[k] < nv);
            }
        }
    } else {
        let last = v.calls[n - 1];
        let grown = DrawCallModel {
            vertex_count: last.vertex_count + nv,
            index_count: last.index_count + ni,
            ..last
        };
        let base = last.vertex_count;
        assert(r.calls == v.calls.update(n - 1, grown));
        assert(r.indices == v.indices + rebase_indices(idxs, base));
        assert forall|i: int| 0 <= i <= n - 1 implies vertex_prefix(r.calls, i) == vertex_prefix(
            v.calls,
            i,
        ) && index_prefix(r.calls, i) == index_prefix(v.calls, i) by {
            lemma_prefix_update(v.calls, n - 1, grown, i);
        }
        assert(vertex_prefix(r.calls, n) == vertex_prefix(v.calls, n - 1) + grown.vertex_count);
        assert(index_prefix(r.calls, n) == index_prefix(v.calls, n - 1) + grown.index_count);
        assert(vertex_prefix(v.calls, n) == vertex_prefix(v.calls, n - 1) + last.vertex_count);
        assert(index_prefix(v.calls, n) == index_prefix(v.calls, n - 1) + last.index_count);
        assert(r.vertices.len() == vertex_prefix(r.calls, r.calls.len() as int));
        assert(r.indices.len() == index_prefix(r.calls, r.calls.len() as int));
        assert forall|i: int, j: int|
            0 <= i < r.calls.len() && (#[trigger] r.calls[i]).index_offset <= j && j
                < r.calls[i].index_offset + r.calls[i].index_count implies (
        #[trigger] r.indices[j]) < r.calls[i].vertex_count by {
            assert(v.calls[i].index_offset == index_prefix(v.calls, i));
            lemma_prefix_mono(v.calls, 0, i);
            if i < n - 1 {
                lemma_prefix_mono(v.calls, i + 1, n);
                assert(r.calls[i] == v.calls[i]);
                assert(v.calls[i].index_offset + v.calls[i].index_count == index_prefix(
                    v.calls,
                    i + 1,
                ));
                assert(j < v.indices.len());
                assert(r.indices[j] == v.indices[j]);
            } else {
                assert(last.index_offset + last.index_count == v.indices.len());
                if j < v.indices.len() {
                    assert(r.indices[j] == v.indices[j]);
                    assert(v.indices[j] < last.vertex_count);
                } else {
                    let k = j - v.indices.len();
                    assert(r.indices[j] == rebase_indices(idxs, base)[k]);
                    assert(rebase_indices(idxs, base)[k] == (idxs[k] + base) as u16);
                    assert(idxs[k] < nv);
                    assert(0 <= idxs[k] + base < 0x10000);
                    assert((idxs[k] + base) as u16 == idxs[k] + base);
                }
            }
        }
    }
}

proof fn lemma_prefix_mono(calls: Seq<DrawCallModel>, i: int, j: int)
    requires
        0 <= i <= j <= calls.len(),
        forall|k: int|
            0 <= k < calls.len() ==> (#[trigger] calls[k]).vertex_count >= 0
                && calls[k].index_count >= 0,
    ensures
        vertex_prefix(calls, i) <= vertex_prefix(calls, j),
        index_prefix(calls, i) <= index_prefix(calls, j),
    decreases j - i,
{
    if i < j {
        lemma_prefix_mono(calls, i, j - 1);
    }
}

/// The triangle indices of a quad, local to its four vertices: the fixed
/// winding of every rectangle-like shape.
pub open spec fn quad_indices() -> Seq<u16> {
    seq![0u16, 1u16, 3u16, 0u16, 3u16, 2u16]
}

/// The four corner vertices of an axis-aligned rectangle, in the fixed
/// order (x, y), (x, y+h), (x+w, y), (x+w, y+h), with a flat color and
/// zero texture coordinates.
pub open spec fn rect_vertices(x: i32, y: i32, w: i32, h: i32, color: Color) -> Seq<Vertex> {
    seq![
        Vertex { pos: Point { x: x, y: y }, color, tex_coord: Point { x: 0, y: 0 } },
        Vertex { pos: Point { x: x, y: (y + h) as i32 }, color, tex_coord: Point { x: 0, y: 0 } },
        Vertex { pos: Point { x: (x + w) as i32, y: y }, color, tex_coord: Point { x: 0, y: 0 } },
        Vertex {
            pos: Point { x: (x + w) as i32, y: (y + h) as i32 },
            color,
            tex_coord: Point { x: 0, y: 0 },
        },
    ]
}

/// The same quad as `rect_vertices`, with the four corners of the texture
/// area mapped onto it, so the quad samples the full sub-region.
pub open spec fn textured_vertices(
    x: i32,
    y: i32,
    w: i32,
    h: i32,
    area: TextureArea,
    tint: Color,
) -> Seq<Vertex> {
    seq![
        Vertex {
            pos: Point { x: x, y: y },
            color: tint,
            tex_coord: Point { x: area.location.x, y: area.location.y },
        },
        Vertex {
            pos: Point { x: x, y: (y + h) as i32 },
            color: tint,
            tex_coord: Point {
                x: area.location.x,
                y: (area.location.y + area.size.y) as i32,
            },
        },
        Vertex {
            pos: Point { x: (x + w) as i32, y: y },
            color: tint,
            tex_coord: Point {
                x: (area.location.x + area.size.x) as i32,
                y: area.location.y,
            },
        },
        Vertex {
            pos: Point { x: (x + w) as i32, y: (y + h) as i32 },
            color: tint,
            tex_coord: Point {
                x: (area.location.x + area.size.x) as i32,
                y: (area.location.y + area.size.y) as i32,
            },
        },
    ]
}

/// Four given corner positions as flat-color vertices with zero texture
/// coordinates.
pub open spec fn corner_vertices(corners: Seq<Point>, color: Color) -> Seq<Vertex> {
    corners.map_values(|p: Point| Vertex { pos: p, color, tex_coord: Point { x: 0, y: 0 } })
}

/// The vertices of a triangle fan: the center first, then the perimeter
/// points in order, all with a flat color and zero texture coordinates.
pub open spec fn fan_vertices(center: Point, perimeter: Seq<Point>, color: Color) -> Seq<Vertex> {
    seq![Vertex { pos: center, color, tex_coord: Point { x: 0, y: 0 } }] + corner_vertices(
        perimeter,
        color,
    )
}

/// The indices of fan triangle `i` over `n` perimeter points: the center
/// (local index 0), perimeter point `i`, and the next perimeter point,
/// wrapping back to the first on the last triangle of a closed fan.
pub open spec fn fan_triangle(n: int, i: int) -> Seq<u16> {
    if i + 1 == n {
        seq![0u16, n as u16, 1u16]
    } else {
        seq![0u16, (i + 1) as u16, (i + 2) as u16]
    }
}

/// The indices of the first `i` fan triangles over `n` perimeter points.
pub open spec fn fan_prefix(n: int, i: int) -> Seq<u16>
    decreases i,
{
    if i <= 0 {
        Seq::<u16>::empty()
    } else {
        fan_prefix(n, i - 1) + fan_triangle(n, i - 1)
    }
}

/// All `3 * n` indices of a closed fan (a polygon or full circle) over `n`
/// perimeter points.
pub open spec fn closed_fan_indices(n: int) -> Seq<u16> {
    fan_prefix(n, n)
}

/// All `3 * (n - 1)` indices of an open fan (a circular arc) over `n`
/// perimeter points: no triangle wraps back to the first point.
pub open spec fn open_fan_indices(n: int) -> Seq<u16> {
    fan_prefix(n, n - 1)
}

proof fn lemma_fan_prefix_bounds(n: int, i: int)
    requires
        1 <= n <= 0xffff,
        0 <= i <= n,
    ensures
        fan_prefix(n, i).len() == 3 * i,
        forall|k: int|
            0 <= k < 3 * i ==> (#[trigger] fan_prefix(n, i)[k] as int) <= n,
    decreases i,
{
    if i > 0 {
        lemma_fan_prefix_bounds(n, i - 1);
        assert forall|k: int| 0 <= k < 3 * i implies (#[trigger] fan_prefix(n, i)[k] as int)
            <= n by {
            if k >= 3 * (i - 1) {
                assert(fan_prefix(n, i)[k] == fan_triangle(n, i - 1)[k - 3 * (i - 1)]);
            }
        }
    }
}

/// The per-frame batching state: the vertex and index arenas, the draw-call
/// list, the sentinel texture for flat-color shapes, and the capacity
/// limits fixed at startup.
pub struct DrawContext {
    vertex_buffer: Vec<Vertex>,
    index_buffer: Vec<u16>,
    draw_call_vec: Vec<DrawCall>,
    default_texture: TextureHandle,

    max_vertex_per_call: usize,
    max_index_per_call: usize,
}

impl View for DrawContext {
    type V = DrawContextView;

    closed spec fn view(&self) -> DrawContextView {
        DrawContextView {
            vertices: self.vertex_buffer@,
            indices: self.index_buffer@,
            calls: self.draw_call_vec@.map_values(|call: DrawCall| call@),
            default_texture: self.default_texture,
            max_vertex_per_call: self.max_vertex_per_call as int,
            max_index_per_call: self.max_index_per_call as int,
        }
    }
}

impl DrawContext {
    /// Creates the frame state with empty arenas. The capacity limits are
    /// validated here, once, before any frame runs: both must be nonzero,
    /// and the vertex limit must stay addressable by the 16-bit indices of
    /// the index arena.
    pub fn new(
        default_texture: TextureHandle,
        max_vertex_per_call: usize,
        max_index_per_call: usize,
    ) -> (result: Result<DrawContext, RenderError>)
        ensures
            match result {
                Ok(ctx) => {
                    &&& 1 <= max_vertex_per_call <= 0x10000
                    &&& 1 <= max_index_per_call
                    &&& ctx@ == (DrawContextView {
                        vertices: Seq::<Vertex>::empty(),
                        indices: Seq::<u16>::empty(),
                        calls: Seq::<DrawCallModel>::empty(),
                        default_texture,
                        max_vertex_per_call: max_vertex_per_call as int,
                        max_index_per_call: max_index_per_call as int,
                    })
                    &&& ctx@.wf()
                },
                Err(e) => {
                    &&& e == RenderError::InvalidConfiguration
                    &&& (max_vertex_per_call == 0 || max_vertex_per_call > 0x10000
                        || max_index_per_call == 0)
                },
            },
    {
        if max_vertex_per_call == 0 || max_vertex_per_call > 0x10000 || max_index_per_call == 0 {
            return Err(RenderError::InvalidConfiguration);
        }
        let ctx = DrawContext {
            // Pre-reserve room; growth past this hint is fine, the hard
            // limits are per draw call, not per arena.
            vertex_buffer: Vec::with_capacity(5000),
            index_buffer: Vec::with_capacity(5000),
            draw_call_vec: Vec::new(),
            default_texture,
            max_vertex_per_call,
            max_index_per_call,
        };
        proof {
            assert(ctx@.calls =~= Seq::<DrawCallModel>::empty());
            assert(ctx@ =~= (DrawContextView {
                vertices: Seq::<Vertex>::empty(),
                indices: Seq::<u16>::empty(),
                calls: Seq::<DrawCallModel>::empty(),
                default_texture,
                max_vertex_per_call: max_vertex_per_call as int,
                max_index_per_call: max_index_per_call as int,
            }));
        }
        Ok(ctx)
    }

    /// The shared batching primitive behind every shape submission.
    ///
    /// A submission whose counts alone exceed a capacity limit can never
    /// fit in one draw call; that is a fatal usage error, reported as
    /// `CapacityExceeded` with the frame state untouched. Otherwise the
    /// submission extends the current draw call, or opens a new one when
    /// the list is empty, the texture changes, or a limit would be passed —
    /// exactly the `submit_tr` step of the model.
    ///
    /// `indices` are local: each must address one of the submitted
    /// `vertices`.
    #[verifier::loop_isolation(false)]
    pub fn create_draw_call(
        &mut self,
        vertices: &[Vertex],
        indices: &[u16],
        texture: TextureHandle,
    ) -> (result: Result<(), RenderError>)
        requires
            old(self)@.wf(),
            forall|k: int|
                0 <= k < indices@.len() ==> (#[trigger] indices@[k]) < vertices@.len(),
        ensures
            final(self)@.wf(),
            old(self)@.fits_one_call(vertices@.len() as int, indices@.len() as int) ==> {
                &&& result == Ok::<(), RenderError>(())
                &&& final(self)@ == old(self)@.submit_tr(vertices@, indices@, texture)
            },
            !old(self)@.fits_one_call(vertices@.len() as int, indices@.len() as int) ==> {
                &&& result == Err::<(), RenderError>(RenderError::CapacityExceeded)
                &&& final(self)@ == old(self)@
            },
    {
        let nv = vertices.len();
        let ni = indices.len();
        if nv > self.max_vertex_per_call || ni > self.max_index_per_call {
            return Err(RenderError::CapacityExceeded);
        }

        let open_new: bool = if self.draw_call_vec.len() == 0 {
            true
        } else {
            let last_pos = self.draw_call_vec.len() - 1;
            proof {
                assert(self@.calls[last_pos as int] == self.draw_call_vec@[last_pos as int]@);
            }
            let last = self.draw_call_vec[last_pos];
            if last.texture != texture {
                true
            } else if last.vertex_indices_slice.length + nv > self.max_vertex_per_call {
                true
            } else {
                match last.index_indices_slice.length.checked_add(ni) {
                    None => true,
                    Some(total) => total > self.max_index_per_call,
                }
            }
        };
        proof {
            assert(open_new == old(self)@.opens_new_call(nv as int, ni as int, texture));
        }

        if open_new {
            let call = DrawCall::new(texture, self.vertex_buffer.len(), self.index_buffer.len());
            self.draw_call_vec.push(call);
            proof {
                assert(self.draw_call_vec@.map_values(|c: DrawCall| c@) =~= old(
                    self,
                )@.calls.push(call@));
            }
        }
        let ghost opened_calls = self@.calls;
        let ghost mid = *self;

        let last_pos = self.draw_call_vec.len() - 1;
        proof {
            assert(mid@.calls[last_pos as int] == mid.draw_call_vec@[last_pos as int]@);
            assert(mid@.calls.last().vertex_count <= mid@.max_vertex_per_call);
            assert(mid@.calls.last().vertex_count + nv <= mid@.max_vertex_per_call);
            assert(mid@.calls.last().index_count + ni <= mid@.max_index_per_call);
        }
        let base = self.draw_call_vec[last_pos].vertex_indices_slice.length;

        let mut k: usize = 0;
        while k < ni
            invariant
                k <= ni,
                self.vertex_buffer == mid.vertex_buffer,
                self.draw_call_vec == mid.draw_call_vec,
                self.default_texture == mid.default_texture,
                self.max_vertex_per_call == mid.max_vertex_per_call,
                self.max_index_per_call == mid.max_index_per_call,
                self.index_buffer@ == mid.index_buffer@ + rebase_indices(
                    indices@.take(k as int),
                    base as int,
                ),
            decreases ni - k,
        {
            proof {
                assert(indices@[k as int] < vertices@.len());
            }
            let rebased = indices[k] + (base as u16);
            self.index_buffer.push(rebased);
            proof {
                assert(indices@.take(k + 1 as int) =~= indices@.take(k as int).push(
                    indices@[k as int],
                ));
                assert(rebase_indices(indices@.take(k + 1 as int), base as int)
                    =~= rebase_indices(indices@.take(k as int), base as int).push(rebased));
                assert(self.index_buffer@ =~= mid.index_buffer@ + rebase_indices(
                    indices@.take(k + 1 as int),
                    base as int,
                ));
            }
            k = k + 1;
        }
        proof {
            assert(indices@.take(ni as int) =~= indices@);
        }

        let mut k2: usize = 0;
        while k2 < nv
            invariant
                k2 <= nv,
                self.vertex_buffer@ == mid.vertex_buffer@ + vertices@.take(k2 as int),
                self.index_buffer@ == mid.index_buffer@ + rebase_indices(indices@, base as int),
                self.draw_call_vec == mid.draw_call_vec,
                self.default_texture == mid.default_texture,
                self.max_vertex_per_call == mid.max_vertex_per_call,
                self.max_index_per_call == mid.max_index_per_call,
            decreases nv - k2,
        {
            self.vertex_buffer.push(vertices[k2]);
            proof {
                assert(vertices@.take(k2 + 1 as int) =~= vertices@.take(k2 as int).push(
                    vertices@[k2 as int],
                ));
            }
            k2 = k2 + 1;
        }
        proof {
            assert(vertices@.take(nv as int) =~= vertices@);
        }

        let mut call = self.draw_call_vec.pop().unwrap();
        call.index_indices_slice.length = call.index_indices_slice.length + ni;
        call.vertex_indices_slice.length = base + nv;
        self.draw_call_vec.push(call);

        proof {
            let target = old(self)@.submit_tr(vertices@, indices@, texture);
            assert(self.draw_call_vec@ =~= mid.draw_call_vec@.update(last_pos as int, call));
            assert(self.draw_call_vec@.map_values(|c: DrawCall| c@) =~= opened_calls.update(
                last_pos as int,
                call@,
            ));
            assert(self@.calls =~= target.calls);
            assert(self@ =~= target);
            lemma_submit_tr_wf(old(self)@, vertices@, indices@, texture);
        }
        Ok(())
    }

    /// Submits an axis-aligned rectangle with corner (x, y), extent
    /// (w, h) and a flat color, drawn with the built-in white texture.
    pub fn draw_rect(&mut self, x: i32, y: i32, w: i32, h: i32, color: Color) -> (result: Result<
        (),
        RenderError,
    >)
        requires
            old(self)@.wf(),
            i32::MIN <= x + w <= i32::MAX,
            i32::MIN <= y + h <= i32::MAX,
        ensures
            final(self)@.wf(),
            old(self)@.fits_one_call(4, 6) ==> {
                &&& result == Ok::<(), RenderError>(())
                &&& final(self)@ == old(self)@.submit_tr(
                    rect_vertices(x, y, w, h, color),
                    quad_indices(),
                    old(self)@.default_texture,
                )
            },
            !old(self)@.fits_one_call(4, 6) ==> {
                &&& result == Err::<(), RenderError>(RenderError::CapacityExceeded)
                &&& final(self)@ == old(self)@
            },
    {
        let x2 = x + w;
        let y2 = y + h;
        let quad: [Vertex; 4] = [
            Vertex::new(x, y, 0, 0, color),
            Vertex::new(x, y2, 0, 0, color),
            Vertex::new(x2, y, 0, 0, color),
            Vertex::new(x2, y2, 0, 0, color),
        ];
        let idx: [u16; 6] = [0, 1, 3, 0, 3, 2];
        proof {
            assert(quad@ =~= rect_vertices(x, y, w, h, color));
            assert(idx@ =~= quad_indices());
        }
        let texture = self.default_texture;
        self.create_draw_call(quad.as_slice(), idx.as_slice(), texture)
    }

    /// Submits a rotated rectangle. The four corner positions — the corner
    /// offsets (±w/2, ±h/2) rotated by the angle and translated to the
    /// pivot — are floating-point work done by the rendering layer; this
    /// core takes the finished corners, in the same order `draw_rect` lists
    /// them, and batches the quad with a flat color and the built-in white
    /// texture.
    pub fn draw_rect_ext(&mut self, corners: [Point; 4], color: Color) -> (result: Result<
        (),
        RenderError,
    >)
        requires
            old(self)@.wf(),
        ensures
            final(self)@.wf(),
            old(self)@.fits_one_call(4, 6) ==> {
                &&& result == Ok::<(), RenderError>(())
                &&& final(self)@ == old(self)@.submit_tr(
                    corner_vertices(corners@, color),
                    quad_indices(),
                    old(self)@.default_texture,
                )
            },
            !old(self)@.fits_one_call(4, 6) ==> {
                &&& result == Err::<(), RenderError>(RenderError::CapacityExceeded)
                &&& final(self)@ == old(self)@
            },
    {
        let quad: [Vertex; 4] = [
            Vertex::new(corners[0].x, corners[0].y, 0, 0, color),
            Vertex::new(corners[1].x, corners[1].y, 0, 0, color),
            Vertex::new(corners[2].x, corners[2].y, 0, 0, color),
            Vertex::new(corners[3].x, corners[3].y, 0, 0, color),
        ];
        let idx: [u16; 6] = [0, 1, 3, 0, 3, 2];
        proof {
            assert(quad@ =~= corner_vertices(corners@, color));
            assert(idx@ =~= quad_indices());
        }
        let texture = self.default_texture;
        self.create_draw_call(quad.as_slice(), idx.as_slice(), texture)
    }

    /// Submits a textured quad: corner (x, y), extent (w, h), tinted by
    /// `tint`, sampling the full sub-region that `texture` names.
    pub fn draw_texture(
        &mut self,
        x: i32,
        y: i32,
        w: i32,
        h: i32,
        texture: TextureArea,
        tint: Color,
    ) -> (result: Result<(), RenderError>)
        requires
            old(self)@.wf(),
            i32::MIN <= x + w <= i32::MAX,
            i32::MIN <= y + h <= i32::MAX,
            i32::MIN <= texture.location.x + texture.size.x <= i32::MAX,
            i32::MIN <= texture.location.y + texture.size.y <= i32::MAX,
        ensures
            final(self)@.wf(),
            old(self)@.fits_one_call(4, 6) ==> {
                &&& result == Ok::<(), RenderError>(())
                &&& final(self)@ == old(self)@.submit_tr(
                    textured_vertices(x, y, w, h, texture, tint),
                    quad_indices(),
                    texture.texture,
                )
            },
            !old(self)@.fits_one_call(4, 6) ==> {
                &&& result == Err::<(), RenderError>(RenderError::CapacityExceeded)
                &&& final(self)@ == old(self)@
            },
    {
        let x2 = x + w;
        let y2 = y + h;
        let u2 = texture.location.x + texture.size.x;
        let v2 = texture.location.y + texture.size.y;
        let quad: [Vertex; 4] = [
            Vertex::new(x, y, texture.location.x, texture.location.y, tint),
            Vertex::new(x, y2, texture.location.x, v2, tint),
            Vertex::new(x2, y, u2, texture.location.y, tint),
            Vertex::new(x2, y2, u2, v2, tint),
        ];
        let idx: [u16; 6] = [0, 1, 3, 0, 3, 2];
        proof {
            assert(quad@ =~= textured_vertices(x, y, w, h, texture, tint));
            assert(idx@ =~= quad_indices());
        }
        self.create_draw_call(quad.as_slice(), idx.as_slice(), texture.texture)
    }

    /// Builds the geometry of a triangle fan: the center vertex, the
    /// perimeter vertices, and the indices of the first `triangles` fan
    /// triangles (all of them for a closed fan, one fewer for an arc).
    #[verifier::loop_isolation(false)]
    fn build_fan_geometry(
        center: Point,
        perimeter: &[Point],
        color: Color,
        triangles: usize,
    ) -> (out: (Vec<Vertex>, Vec<u16>))
        requires
            1 <= perimeter@.len() <= 0xffff,
            triangles <= perimeter@.len(),
        ensures
            out.0@ == fan_vertices(center, perimeter@, color),
            out.1@ == fan_prefix(perimeter@.len() as int, triangles as int),
    {
        let n = perimeter.len();
        let mut verts: Vec<Vertex> = Vec::with_capacity(n + 1);
        verts.push(Vertex { pos: center, color, tex_coord: Point { x: 0, y: 0 } });
        proof {
            assert(verts@ =~= fan_vertices(center, perimeter@.take(0), color));
        }
        let mut j: usize = 0;
        while j < n
            invariant
                j <= n,
                verts@ == fan_vertices(center, perimeter@.take(j as int), color),
            decreases n - j,
        {
            verts.push(Vertex { pos: perimeter[j], color, tex_coord: Point { x: 0, y: 0 } });
            proof {
                assert(perimeter@.take(j + 1 as int) =~= perimeter@.take(j as int).push(
                    perimeter@[j as int],
                ));
                assert(corner_vertices(perimeter@.take(j + 1 as int), color) =~= corner_vertices(
                    perimeter@.take(j as int),
                    color,
                ).push(Vertex { pos: perimeter@[j as int], color, tex_coord: Point { x: 0, y: 0 } }));
                assert(verts@ =~= fan_vertices(center, perimeter@.take(j + 1 as int), color));
            }
            j = j + 1;
        }
        proof {
            assert(perimeter@.take(n as int) =~= perimeter@);
        }

        let mut idx: Vec<u16> = Vec::with_capacity(3 * triangles);
        let mut i: usize = 0;
        while i < triangles
            invariant
                i <= triangles,
                idx@ == fan_prefix(n as int, i as int),
            decreases triangles - i,
        {
            idx.push(0u16);
            idx.push((i + 1) as u16);
            if i + 1 == n {
                idx.push(1u16);
            } else {
                idx.push((i + 2) as u16);
            }
            proof {
                assert(fan_prefix(n as int, i + 1 as int) =~= fan_prefix(n as int, i as int)
                    + fan_triangle(n as int, i as int));
                assert(idx@ =~= fan_prefix(n as int, i as int) + fan_triangle(n as int, i as int));
            }
            i = i + 1;
        }
        (verts, idx)
    }

    /// Submits a polygon as a closed triangle fan: the center vertex first,
    /// then the perimeter points in order, one triangle per side, the last
    /// one wrapping back to the first point. For a regular polygon or a
    /// circle the perimeter positions — points evenly spaced on a circle
    /// around the center — are floating-point work done by the rendering
    /// layer; this core fixes the fan topology and batches the shape with
    /// a flat color and the built-in white texture.
    ///
    /// Fewer than three perimeter points is an invalid argument: no
    /// polygon has fewer than three sides.
    pub fn draw_polygon_fan(&mut self, center: Point, perimeter: &[Point], color: Color) -> (result:
        Result<(), RenderError>)
        requires
            old(self)@.wf(),
        ensures
            final(self)@.wf(),
            perimeter@.len() < 3 ==> {
                &&& result == Err::<(), RenderError>(RenderError::InvalidArgument)
                &&& final(self)@ == old(self)@
            },
            perimeter@.len() >= 3 && !old(self)@.fits_one_call(
                perimeter@.len() + 1 as int,
                3 * perimeter@.len() as int,
            ) ==> {
                &&& result == Err::<(), RenderError>(RenderError::CapacityExceeded)
                &&& final(self)@ == old(self)@
            },
            perimeter@.len() >= 3 && old(self)@.fits_one_call(
                perimeter@.len() + 1 as int,
                3 * perimeter@.len() as int,
            ) ==> {
                &&& result == Ok::<(), RenderError>(())
                &&& final(self)@ == old(self)@.submit_tr(
                    fan_vertices(center, perimeter@, color),
                    closed_fan_indices(perimeter@.len() as int),
                    old(self)@.default_texture,
                )
            },
    {
        let n = perimeter.len();
        if n < 3 {
            return Err(RenderError::InvalidArgument);
        }
        if n >= self.max_vertex_per_call {
            return Err(RenderError::CapacityExceeded);
        }
        if 3 * n > self.max_index_per_call {
            return Err(RenderError::CapacityExceeded);
        }
        proof {
            lemma_fan_prefix_bounds(n as int, n as int);
        }
        let (verts, idx) = Self::build_fan_geometry(center, perimeter, color, n);
        let texture = self.default_texture;
        self.create_draw_call(verts.as_slice(), idx.as_slice(), texture)
    }

    /// Submits a circular arc as an open triangle fan: the center vertex,
    /// then the points of the angular span in order, one triangle per
    /// segment, never wrapping around. The arc positions — points on the
    /// circle between the start and end angles — are floating-point work
    /// done by the rendering layer; this core fixes the fan topology and
    /// batches the shape with a flat color and the built-in white texture.
    ///
    /// Fewer than two arc points is an invalid argument: no triangle can
    /// be formed.
    pub fn draw_arc_fan(&mut self, center: Point, arc_points: &[Point], color: Color) -> (result:
        Result<(), RenderError>)
        requires
            old(self)@.wf(),
        ensures
            final(self)@.wf(),
            arc_points@.len() < 2 ==> {
                &&& result == Err::<(), RenderError>(RenderError::InvalidArgument)
                &&& final(self)@ == old(self)@
            },
            arc_points@.len() >= 2 && !old(self)@.fits_one_call(
                arc_points@.len() + 1 as int,
                3 * (arc_points@.len() - 1 as int),
            ) ==> {
                &&& result == Err::<(), RenderError>(RenderError::CapacityExceeded)
                &&& final(self)@ == old(self)@
            },
            arc_points@.len() >= 2 && old(self)@.fits_one_call(
                arc_points@.len() + 1 as int,
                3 * (arc_points@.len() - 1 as int),
            ) ==> {
                &&& result == Ok::<(), RenderError>(())
                &&& final(self)@ == old(self)@.submit_tr(
                    fan_vertices(center, arc_points@, color),
                    open_fan_indices(arc_points@.len() as int),
                    old(self)@.default_texture,
                )
            },
    {
        let n = arc_points.len();
        if n < 2 {
            return Err(RenderError::InvalidArgument);
        }
        if n >= self.max_vertex_per_call {
            return Err(RenderError::CapacityExceeded);
        }
        if 3 * (n - 1) > self.max_index_per_call {
            return Err(RenderError::CapacityExceeded);
        }
        proof {
            lemma_fan_prefix_bounds(n as int, n - 1 as int);
        }
        let (verts, idx) = Self::build_fan_geometry(center, arc_points, color, n - 1);
        let texture = self.default_texture;
        self.create_draw_call(verts.as_slice(), idx.as_slice(), texture)
    }

    /// Empties both arenas and the draw-call list, keeping the capacity
    /// limits and the sentinel texture. The orchestrator calls this exactly
    /// once after each frame's draw calls have been issued.
    pub fn clear(&mut self)
        ensures
            final(self)@ == (DrawContextView {
                vertices: Seq::<Vertex>::empty(),
                indices: Seq::<u16>::empty(),
                calls: Seq::<DrawCallModel>::empty(),
                ..old(self)@
            }),
            old(self)@.wf() ==> final(self)@.wf(),
    {
        self.vertex_buffer.clear();
        self.index_buffer.clear();
        self.draw_call_vec.clear();
        proof {
            assert(self@.calls =~= Seq::<DrawCallModel>::empty());
            assert(self@ =~= (DrawContextView {
                vertices: Seq::<Vertex>::empty(),
                indices: Seq::<u16>::empty(),
                calls: Seq::<DrawCallModel>::empty(),
                ..old(self)@
            }));
        }
    }

    /// Number of finalized draw calls in the current frame.
    pub fn draw_call_count(&self) -> (n: usize)
        ensures
            n == self@.calls.len(),
    {
        self.draw_call_vec.len()
    }

    /// The draw call at position `i`, in submission order.
    pub fn draw_call_at(&self, i: usize) -> (call: DrawCall)
        requires
            i < self@.calls.len(),
        ensures
            call@ == self@.calls[i as int],
    {
        proof {
            assert(self@.calls[i as int] == self.draw_call_vec@[i as int]@);
        }
        self.draw_call_vec[i]
    }

    /// Current length of the vertex arena.
    pub fn vertex_count(&self) -> (n: usize)
        ensures
            n == self@.vertices.len(),
    {
        self.vertex_buffer.len()
    }

    /// Current length of the index arena.
    pub fn index_count(&self) -> (n: usize)
        ensures
            n == self@.indices.len(),
    {
        self.index_buffer.len()
    }

    /// The vertex at arena position `i`.
    pub fn vertex_at(&self, i: usize) -> (vertex: Vertex)
        requires
            i < self@.vertices.len(),
        ensures
            vertex == self@.vertices[i as int],
    {
        self.vertex_buffer[i]
    }

    /// The (already rebased) index at arena position `i`.
    pub fn index_at(&self, i: usize) -> (idx: u16)
        requires
            i < self@.indices.len(),
        ensures
            idx == self@.indices[i as int],
    {
        self.index_buffer[i]
    }

    /// The sentinel texture that flat-color shapes are drawn with.
    pub fn default_texture(&self) -> (t: TextureHandle)
        ensures
            t == self@.default_texture,
    {
        self.default_texture
    }

    /// The configured vertex capacity limit per draw call.
    pub fn max_vertex_per_call(&self) -> (n: usize)
        ensures
            n == self@.max_vertex_per_call,
    {
        self.max_vertex_per_call
    }

    /// The configured index capacity limit per draw call.
    pub fn max_index_per_call(&self) -> (n: usize)
        ensures
            n == self@.max_index_per_call,
    {
        self.max_index_per_call
    }

    /// A copy of draw call `i`'s slice of the vertex arena, ready for the
    /// rendering layer to upload. Well-formedness keeps the range in
    /// bounds.
    #[verifier::loop_isolation(false)]
    pub fn call_vertices(&self, i: usize) -> (out: Vec<Vertex>)
        requires
            self@.wf(),
            i < self@.calls.len(),
        ensures
            out@ == self@.vertices.subrange(
                self@.calls[i as int].vertex_offset,
                self@.calls[i as int].vertex_offset + self@.calls[i as int].vertex_count,
            ),
    {
        proof {
            assert(self@.calls[i as int] == self.draw_call_vec@[i as int]@);
            lemma_call_ranges_in_bounds(self@, i as int);
        }
        let call = self.draw_call_vec[i];
        let off = call.vertex_indices_slice.offset;
        let len = call.vertex_indices_slice.length;
        let total = self.vertex_buffer.len();
        proof {
            assert(off + len <= total);
        }
        let mut out: Vec<Vertex> = Vec::with_capacity(len);
        let mut k: usize = 0;
        while k < len
            invariant
                k <= len,
                out@ =~= self@.vertices.subrange(off as int, off + k),
            decreases len - k,
        {
            out.push(self.vertex_buffer[off + k]);
            k = k + 1;
        }
        out
    }

    /// A copy of draw call `i`'s slice of the index arena, ready for the
    /// rendering layer to upload.
    #[verifier::loop_isolation(false)]
    pub fn call_indices(&self, i: usize) -> (out: Vec<u16>)
        requires
            self@.wf(),
            i < self@.calls.len(),
        ensures
            out@ == self@.indices.subrange(
                self@.calls[i as int].index_offset,
                self@.calls[i as int].index_offset + self@.calls[i as int].index_count,
            ),
    {
        proof {
            assert(self@.calls[i as int] == self.draw_call_vec@[i as int]@);
            lemma_call_ranges_in_bounds(self@, i as int);
        }
        let call = self.draw_call_vec[i];
        let off = call.index_indices_slice.offset;
        let len = call.index_indices_slice.length;
        let total = self.index_buffer.len();
        proof {
            assert(off + len <= total);
        }
        let mut out: Vec<u16> = Vec::with_capacity(len);
        let mut k: usize = 0;
        while k < len
            invariant
                k <= len,
                out@ =~= self@.indices.subrange(off as int, off + k),
            decreases len - k,
        {
            out.push(self.index_buffer[off + k]);
            k = k + 1;
        }
        out
    }
}

/// Law: in a well-formed frame, every index value stored for a draw call is
/// strictly below that call's vertex-range length, so no index ever reaches
/// outside its own call's vertices.
pub proof fn lemma_indices_local_to_call(v: DrawContextView, i: int, j: int)
    requires
        v.wf(),
        0 <= i < v.calls.len(),
        v.calls[i].index_offset <= j < v.calls[i].index_offset + v.calls[i].index_count,
    ensures
        (v.indices[j] as int) < v.calls[i].vertex_count,
{
}

/// Every draw call's vertex and index ranges lie inside the arenas: the
/// calls are contiguous, non-overlapping and in submission order, so each
/// slice handed to the GPU is in bounds.
pub proof fn lemma_call_ranges_in_bounds(v: DrawContextView, i: int)
    requires
        v.wf(),
        0 <= i < v.calls.len(),
    ensures
        0 <= v.calls[i].vertex_offset,
        v.calls[i].vertex_offset + v.calls[i].vertex_count <= v.vertices.len(),
        0 <= v.calls[i].index_offset,
        v.calls[i].index_offset + v.calls[i].index_count <= v.indices.len(),
{
    lemma_prefix_mono(v.calls, 0, i);
    lemma_prefix_mono(v.calls, i + 1, v.calls.len() as int);
    assert(vertex_prefix(v.calls, i + 1) == vertex_prefix(v.calls, i) + v.calls[i].vertex_count);
    assert(index_prefix(v.calls, i + 1) == index_prefix(v.calls, i) + v.calls[i].index_count);
}

} // verus!
