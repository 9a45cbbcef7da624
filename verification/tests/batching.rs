use porcelain::color::Color;
use porcelain::error::RenderError;
use porcelain::render::{DrawContext, TextureHandle, Vertex};

fn flat(x: i32, y: i32, color: Color) -> Vertex {
    Vertex::new(x, y, 0, 0, color)
}

fn quad(x0: i32, color: Color) -> Vec<Vertex> {
    vec![
        flat(x0, 0, color),
        flat(x0, 10, color),
        flat(x0 + 10, 0, color),
        flat(x0 + 10, 10, color),
    ]
}

const QUAD_INDICES: [u16; 6] = [0, 1, 3, 0, 3, 2];

#[test]
fn single_texture_submissions_merge() {
    let white = TextureHandle::white();
    let mut dc = DrawContext::new(white, 100, 300).unwrap();
    let gray = Color::from_rgba8(128, 128, 128, 255);

    for n in 0..3 {
        let verts = quad(n * 20, gray);
        dc.create_draw_call(&verts, &QUAD_INDICES, white).unwrap();
    }

    assert_eq!(dc.draw_call_count(), 1);
    let call = dc.draw_call_at(0);
    assert_eq!(call.vertex_indices_slice.offset, 0);
    assert_eq!(call.vertex_indices_slice.length, 12);
    assert_eq!(call.index_indices_slice.offset, 0);
    assert_eq!(call.index_indices_slice.length, 18);
    assert_eq!(call.texture, white);

    // geometry kept in submission order
    assert_eq!(dc.vertex_at(0).pos.x, 0);
    assert_eq!(dc.vertex_at(4).pos.x, 20);
    assert_eq!(dc.vertex_at(8).pos.x, 40);
}

#[test]
fn texture_alternation_never_merges() {
    let white = TextureHandle::white();
    let texture_a = TextureHandle { id: 1 };
    let texture_b = TextureHandle { id: 2 };
    let mut dc = DrawContext::new(white, 100, 300).unwrap();
    let gray = Color::from_rgba8(128, 128, 128, 255);

    dc.create_draw_call(&quad(0, gray), &QUAD_INDICES, texture_a).unwrap();
    dc.create_draw_call(&quad(20, gray), &QUAD_INDICES, texture_b).unwrap();
    dc.create_draw_call(&quad(40, gray), &QUAD_INDICES, texture_a).unwrap();

    assert_eq!(dc.draw_call_count(), 3);
    assert_eq!(dc.draw_call_at(0).texture, texture_a);
    assert_eq!(dc.draw_call_at(1).texture, texture_b);
    assert_eq!(dc.draw_call_at(2).texture, texture_a);
}

#[test]
fn indices_stay_local_to_their_call() {
    let white = TextureHandle::white();
    let mut dc = DrawContext::new(white, 100, 300).unwrap();
    let gray = Color::from_rgba8(128, 128, 128, 255);

    dc.create_draw_call(&quad(0, gray), &QUAD_INDICES, white).unwrap();
    dc.create_draw_call(&quad(20, gray), &QUAD_INDICES, white).unwrap();

    // the second submission's indices were rebased by the four vertices
    // already in the call
    let call = dc.draw_call_at(0);
    let indices = dc.call_indices(0);
    assert_eq!(indices, vec![0, 1, 3, 0, 3, 2, 4, 5, 7, 4, 7, 6]);
    for idx in indices {
        assert!((idx as usize) < call.vertex_indices_slice.length);
    }
}

#[test]
fn clear_resets_frame_state() {
    let white = TextureHandle::white();
    let mut dc = DrawContext::new(white, 100, 300).unwrap();
    let gray = Color::from_rgba8(128, 128, 128, 255);

    dc.create_draw_call(&quad(0, gray), &QUAD_INDICES, white).unwrap();
    dc.clear();

    assert_eq!(dc.draw_call_count(), 0);
    assert_eq!(dc.vertex_count(), 0);
    assert_eq!(dc.index_count(), 0);
    // the limits and the sentinel survive the clear
    assert_eq!(dc.max_vertex_per_call(), 100);
    assert_eq!(dc.max_index_per_call(), 300);
    assert_eq!(dc.default_texture(), white);
}

#[test]
fn exact_fit_extends_current_call() {
    let white = TextureHandle::white();
    let mut dc = DrawContext::new(white, 8, 12).unwrap();
    let gray = Color::from_rgba8(128, 128, 128, 255);

    dc.create_draw_call(&quad(0, gray), &QUAD_INDICES, white).unwrap();
    // this submission fills the call to exactly 8 vertices and 12 indices
    dc.create_draw_call(&quad(20, gray), &QUAD_INDICES, white).unwrap();

    assert_eq!(dc.draw_call_count(), 1);
    assert_eq!(dc.draw_call_at(0).vertex_indices_slice.length, 8);
    assert_eq!(dc.draw_call_at(0).index_indices_slice.length, 12);
}

#[test]
fn one_past_limit_opens_new_call() {
    let white = TextureHandle::white();
    let mut dc = DrawContext::new(white, 7, 300).unwrap();
    let gray = Color::from_rgba8(128, 128, 128, 255);

    dc.create_draw_call(&quad(0, gray), &QUAD_INDICES, white).unwrap();
    // 4 + 4 = 8 vertices would pass the limit of 7: a new call opens
    dc.create_draw_call(&quad(20, gray), &QUAD_INDICES, white).unwrap();

    assert_eq!(dc.draw_call_count(), 2);
    assert_eq!(dc.draw_call_at(0).vertex_indices_slice.length, 4);
    assert_eq!(dc.draw_call_at(1).vertex_indices_slice.length, 4);
    assert_eq!(dc.draw_call_at(1).vertex_indices_slice.offset, 4);
    assert_eq!(dc.draw_call_at(1).index_indices_slice.offset, 6);
}

#[test]
fn oversized_submission_is_rejected() {
    let white = TextureHandle::white();
    let mut dc = DrawContext::new(white, 4, 6).unwrap();
    let gray = Color::from_rgba8(128, 128, 128, 255);

    let five = vec![
        flat(0, 0, gray),
        flat(0, 1, gray),
        flat(1, 0, gray),
        flat(1, 1, gray),
        flat(2, 2, gray),
    ];
    let result = dc.create_draw_call(&five, &[0, 1, 2], white);
    assert_eq!(result, Err(RenderError::CapacityExceeded));
    // nothing was touched
    assert_eq!(dc.draw_call_count(), 0);
    assert_eq!(dc.vertex_count(), 0);
    assert_eq!(dc.index_count(), 0);

    let too_many_indices = dc.create_draw_call(
        &quad(0, gray),
        &[0, 1, 3, 0, 3, 2, 1, 2, 3],
        white,
    );
    assert_eq!(too_many_indices, Err(RenderError::CapacityExceeded));
    assert_eq!(dc.draw_call_count(), 0);
}

#[test]
fn call_slices_cover_the_arenas() {
    let white = TextureHandle::white();
    let texture_b = TextureHandle { id: 3 };
    let mut dc = DrawContext::new(white, 100, 300).unwrap();
    let gray = Color::from_rgba8(128, 128, 128, 255);

    dc.create_draw_call(&quad(0, gray), &QUAD_INDICES, white).unwrap();
    dc.create_draw_call(&quad(20, gray), &QUAD_INDICES, texture_b).unwrap();

    let mut verts = 0;
    let mut idxs = 0;
    for i in 0..dc.draw_call_count() {
        verts += dc.call_vertices(i).len();
        idxs += dc.call_indices(i).len();
    }
    assert_eq!(verts, dc.vertex_count());
    assert_eq!(idxs, dc.index_count());
    assert_eq!(dc.call_vertices(1)[0].pos.x, 20);
}
