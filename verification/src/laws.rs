//! Laws of the batching engine, proved once for every input: how runs of
//! submissions map to draw calls.

use vstd::prelude::*;

use crate::render::{lemma_submit_tr_wf, DrawContextView, TextureHandle, Vertex};

verus! {

/// One shape submission: its tessellated vertices and its local indices.
pub ghost struct Submission {
    pub verts: Seq<Vertex>,
    pub idxs: Seq<u16>,
}

impl Submission {
    /// Local indexing: every index addresses one of the submission's own
    /// vertices.
    pub open spec fn wf(self) -> bool {
        forall|k: int| 0 <= k < self.idxs.len() ==> (#[trigger] self.idxs[k]) < self.verts.len()
    }
}

/// The frame state after submitting each of `subs` in order, all with the
/// same texture.
pub open spec fn submit_all(
    v: DrawContextView,
    subs: Seq<Submission>,
    texture: TextureHandle,
) -> DrawContextView
    decreases subs.len(),
{
    if subs.len() == 0 {
        v
    } else {
        submit_all(v.submit_tr(subs[0].verts, subs[0].idxs, texture), subs.drop_first(), texture)
    }
}

/// Cumulative vertex count of a run of submissions.
pub open spec fn total_vertices(subs: Seq<Submission>) -> int
    decreases subs.len(),
{
    if subs.len() == 0 {
        0
    } else {
        subs[0].verts.len() + total_vertices(subs.drop_first())
    }
}

/// Cumulative index count of a run of submissions.
pub open spec fn total_indices(subs: Seq<Submission>) -> int
    decreases subs.len(),
{
    if subs.len() == 0 {
        0
    } else {
        subs[0].idxs.len() + total_indices(subs.drop_first())
    }
}

/// All vertices of a run of submissions, in submission order.
pub open spec fn concat_vertices(subs: Seq<Submission>) -> Seq<Vertex>
    decreases subs.len(),
{
    if subs.len() == 0 {
        Seq::<Vertex>::empty()
    } else {
        subs[0].verts + concat_vertices(subs.drop_first())
    }
}

proof fn lemma_totals_nonneg(subs: Seq<Submission>)
    ensures
        total_vertices(subs) >= 0,
        total_indices(subs) >= 0,
    decreases subs.len(),
{
    if subs.len() > 0 {
        lemma_totals_nonneg(subs.drop_first());
    }
}

proof fn lemma_same_texture_extends(
    v: DrawContextView,
    subs: Seq<Submission>,
    texture: TextureHandle,
)
    requires
        v.wf(),
        v.calls.len() == 1,
        v.calls[0].texture == texture,
        forall|i: int| 0 <= i < subs.len() ==> (#[trigger] subs[i]).wf(),
        v.calls[0].vertex_count + total_vertices(subs) <= v.max_vertex_per_call,
        v.calls[0].index_count + total_indices(subs) <= v.max_index_per_call,
    ensures
        ({
            let r = submit_all(v, subs, texture);
            &&& r.wf()
            &&& r.calls.len() == 1
            &&& r.calls[0].texture == texture
            &&& r.calls[0].vertex_offset == v.calls[0].vertex_offset
            &&& r.calls[0].index_offset == v.calls[0].index_offset
            &&& r.calls[0].vertex_count == v.calls[0].vertex_count + total_vertices(subs)
            &&& r.calls[0].index_count == v.calls[0].index_count + total_indices(subs)
            &&& r.vertices == v.vertices + concat_vertices(subs)
            &&& r.max_vertex_per_call == v.max_vertex_per_call
            &&& r.max_index_per_call == v.max_index_per_call
            &&& r.default_texture == v.default_texture
        }),
    decreases subs.len(),
{
    if subs.len() == 0 {
        assert(v.vertices + concat_vertices(subs) =~= v.vertices);
    } else {
        let s0 = subs[0];
        assert(subs[0].wf());
        lemma_totals_nonneg(subs.drop_first());
        let nv = s0.verts.len() as int;
        let ni = s0.idxs.len() as int;
        assert(!v.opens_new_call(nv, ni, texture));
        let v1 = v.submit_tr(s0.verts, s0.idxs, texture);
        lemma_submit_tr_wf(v, s0.verts, s0.idxs, texture);
        assert forall|i: int| 0 <= i < subs.drop_first().len() implies (#[trigger] subs.drop_first(
        )[i]).wf() by {
            assert(subs[i + 1].wf());
        }
        lemma_same_texture_extends(v1, subs.drop_first(), texture);
        assert(v.vertices + concat_vertices(subs) =~= (v.vertices + s0.verts) + concat_vertices(
            subs.drop_first(),
        ));
    }
}

/// Law: a run of submissions sharing one texture, whose cumulative vertex
/// and index counts stay within the capacity limits, lands in exactly one
/// draw call that starts at the front of the arenas and holds all the
/// submissions' vertices in submission order.
pub proof fn lemma_single_texture_one_call(
    v: DrawContextView,
    subs: Seq<Submission>,
    texture: TextureHandle,
)
    requires
        v.wf(),
        v.calls.len() == 0,
        1 <= subs.len(),
        forall|i: int| 0 <= i < subs.len() ==> (#[trigger] subs[i]).wf(),
        total_vertices(subs) <= v.max_vertex_per_call,
        total_indices(subs) <= v.max_index_per_call,
    ensures
        ({
            let r = submit_all(v, subs, texture);
            &&& r.wf()
            &&& r.calls.len() == 1
            &&& r.calls[0].texture == texture
            &&& r.calls[0].vertex_offset == 0
            &&& r.calls[0].index_offset == 0
            &&& r.calls[0].vertex_count == total_vertices(subs)
            &&& r.calls[0].index_count == total_indices(subs)
            &&& r.vertices == concat_vertices(subs)
        }),
{
    let s0 = subs[0];
    assert(subs[0].wf());
    lemma_totals_nonneg(subs.drop_first());
    assert(v.vertices.len() == 0);
    assert(v.indices.len() == 0);
    assert(v.opens_new_call(s0.verts.len() as int, s0.idxs.len() as int, texture));
    let v1 = v.submit_tr(s0.verts, s0.idxs, texture);
    lemma_submit_tr_wf(v, s0.verts, s0.idxs, texture);
    assert forall|i: int| 0 <= i < subs.drop_first().len() implies (#[trigger] subs.drop_first(
    )[i]).wf() by {
        assert(subs[i + 1].wf());
    }
    lemma_same_texture_extends(v1, subs.drop_first(), texture);
    assert(v.vertices + s0.verts =~= s0.verts);
    assert((s0.verts + concat_vertices(subs.drop_first())) =~= concat_vertices(subs));
}

/// Law: non-adjacent same-texture submissions never merge. Submitting with
/// textures A, B, A — B different from A — into a cleared frame yields
/// exactly three draw calls with textures A, B, A in submission order.
pub proof fn lemma_texture_alternation_three_calls(
    v: DrawContextView,
    a: Submission,
    texture_a: TextureHandle,
    b: Submission,
    texture_b: TextureHandle,
    c: Submission,
)
    requires
        v.calls.len() == 0,
        texture_a != texture_b,
    ensures
        ({
            let r = v.submit_tr(a.verts, a.idxs, texture_a).submit_tr(
                b.verts,
                b.idxs,
                texture_b,
            ).submit_tr(c.verts, c.idxs, texture_a);
            &&& r.calls.len() == 3
            &&& r.calls[0].texture == texture_a
            &&& r.calls[1].texture == texture_b
            &&& r.calls[2].texture == texture_a
        }),
{
    let v1 = v.submit_tr(a.verts, a.idxs, texture_a);
    assert(v1.calls.len() == 1 && v1.calls[0].texture == texture_a);
    let v2 = v1.submit_tr(b.verts, b.idxs, texture_b);
    assert(v2.calls.len() == 2 && v2.calls[1].texture == texture_b);
    assert(v2.calls[0].texture == texture_a);
    let v3 = v2.submit_tr(c.verts, c.idxs, texture_a);
    assert(v3.calls.len() == 3 && v3.calls[2].texture == texture_a);
}

/// Law: the batching step never touches the configuration: the capacity
/// limits, fixed once at startup, and the sentinel texture of flat-color
/// shapes are the same after every submission.
pub proof fn lemma_submit_keeps_configuration(
    v: DrawContextView,
    verts: Seq<Vertex>,
    idxs: Seq<u16>,
    texture: TextureHandle,
)
    ensures
        v.submit_tr(verts, idxs, texture).max_vertex_per_call == v.max_vertex_per_call,
        v.submit_tr(verts, idxs, texture).max_index_per_call == v.max_index_per_call,
        v.submit_tr(verts, idxs, texture).default_texture == v.default_texture,
{
}

/// Law: a submission that exactly fills the current draw call's remaining
/// vertex capacity still fits it; no new call is opened, and the call ends
/// exactly at the limit.
pub proof fn lemma_exact_fit_extends(
    v: DrawContextView,
    verts: Seq<Vertex>,
    idxs: Seq<u16>,
    texture: TextureHandle,
)
    requires
        v.calls.len() > 0,
        v.calls.last().texture == texture,
        v.calls.last().vertex_count + verts.len() == v.max_vertex_per_call,
        v.calls.last().index_count + idxs.len() <= v.max_index_per_call,
    ensures
        !v.opens_new_call(verts.len() as int, idxs.len() as int, texture),
        v.submit_tr(verts, idxs, texture).calls.len() == v.calls.len(),
        v.submit_tr(verts, idxs, texture).calls.last().vertex_count == v.max_vertex_per_call,
{
}

/// Law: one vertex more than the current draw call's remaining capacity
/// forces a new call, which then holds exactly the new submission.
pub proof fn lemma_overflow_opens_call(
    v: DrawContextView,
    verts: Seq<Vertex>,
    idxs: Seq<u16>,
    texture: TextureHandle,
)
    requires
        v.calls.len() > 0,
        v.calls.last().vertex_count + verts.len() > v.max_vertex_per_call,
    ensures
        v.opens_new_call(verts.len() as int, idxs.len() as int, texture),
        v.submit_tr(verts, idxs, texture).calls.len() == v.calls.len() + 1,
        v.submit_tr(verts, idxs, texture).calls.last().texture == texture,
        v.submit_tr(verts, idxs, texture).calls.last().vertex_count == verts.len(),
        v.submit_tr(verts, idxs, texture).calls.last().index_count == idxs.len(),
{
}

} // verus!
