use porcelain::color::Color;
use porcelain::error::RenderError;
use porcelain::render::{DrawContext, TextureArea, TextureHandle, Vertex};
use porcelain::Point;

#[test]
fn rect_alone_makes_one_call() {
    let white = TextureHandle::white();
    let mut dc = DrawContext::new(white, 10000, 30000).unwrap();
    let red = Color::from_rgba8(255, 0, 0, 255);

    dc.draw_rect(0, 0, 100, 50, red).unwrap();

    assert_eq!(dc.draw_call_count(), 1);
    assert_eq!(dc.vertex_count(), 4);
    assert_eq!(dc.call_indices(0), vec![0, 1, 3, 0, 3, 2]);
    assert_eq!(dc.draw_call_at(0).texture, white);

    let corners: Vec<(i32, i32)> =
        dc.call_vertices(0).iter().map(|v| (v.pos.x, v.pos.y)).collect();
    assert_eq!(corners, vec![(0, 0), (0, 50), (100, 0), (100, 50)]);
    for v in dc.call_vertices(0) {
        assert_eq!(v.color, red);
        assert_eq!((v.tex_coord.x, v.tex_coord.y), (0, 0));
    }
}

#[test]
fn rect_then_textured_rebases_from_zero() {
    let white = TextureHandle::white();
    let mut dc = DrawContext::new(white, 10000, 30000).unwrap();
    let red = Color::from_rgba8(255, 0, 0, 255);
    let tint = Color::from_rgba8(255, 255, 255, 255);
    let area = TextureArea {
        texture: TextureHandle { id: 5 },
        location: Point { x: 0, y: 0 },
        size: Point { x: 16, y: 16 },
    };

    dc.draw_rect(0, 0, 100, 50, red).unwrap();
    dc.draw_texture(10, 20, 30, 40, area, tint).unwrap();

    assert_eq!(dc.draw_call_count(), 2);
    let second = dc.draw_call_at(1);
    assert_eq!(second.texture, TextureHandle { id: 5 });
    assert_eq!(second.vertex_indices_slice.offset, 4);
    assert_eq!(second.index_indices_slice.offset, 6);
    // the second call's indices start from 0 relative to its own range
    assert_eq!(dc.call_indices(1), vec![0, 1, 3, 0, 3, 2]);
}

#[test]
fn textured_quad_maps_the_full_area() {
    let white = TextureHandle::white();
    let mut dc = DrawContext::new(white, 10000, 30000).unwrap();
    let tint = Color::from_rgba8(200, 200, 200, 255);
    let area = TextureArea {
        texture: TextureHandle { id: 2 },
        location: Point { x: 8, y: 16 },
        size: Point { x: 32, y: 64 },
    };

    dc.draw_texture(1, 2, 3, 4, area, tint).unwrap();

    let uv: Vec<(i32, i32)> =
        dc.call_vertices(0).iter().map(|v| (v.tex_coord.x, v.tex_coord.y)).collect();
    assert_eq!(uv, vec![(8, 16), (8, 80), (40, 16), (40, 80)]);
    let pos: Vec<(i32, i32)> =
        dc.call_vertices(0).iter().map(|v| (v.pos.x, v.pos.y)).collect();
    assert_eq!(pos, vec![(1, 2), (1, 6), (4, 2), (4, 6)]);
}

#[test]
fn rotated_rect_uses_the_given_corners() {
    let white = TextureHandle::white();
    let mut dc = DrawContext::new(white, 10000, 30000).unwrap();
    let blue = Color::from_rgba8(0, 0, 255, 255);
    let corners = [
        Point { x: -3, y: -4 },
        Point { x: 4, y: -3 },
        Point { x: -4, y: 3 },
        Point { x: 3, y: 4 },
    ];

    dc.draw_rect_ext(corners, blue).unwrap();

    assert_eq!(dc.draw_call_count(), 1);
    assert_eq!(dc.draw_call_at(0).texture, white);
    assert_eq!(dc.call_indices(0), vec![0, 1, 3, 0, 3, 2]);
    let pos: Vec<(i32, i32)> =
        dc.call_vertices(0).iter().map(|v| (v.pos.x, v.pos.y)).collect();
    assert_eq!(pos, vec![(-3, -4), (4, -3), (-4, 3), (3, 4)]);
}

#[test]
fn polygon_fan_topology() {
    let white = TextureHandle::white();
    let mut dc = DrawContext::new(white, 10000, 30000).unwrap();
    let green = Color::from_rgba8(0, 255, 0, 255);
    let perimeter = [
        Point { x: 20, y: 10 },
        Point { x: 10, y: 20 },
        Point { x: 0, y: 10 },
        Point { x: 10, y: 0 },
    ];

    dc.draw_polygon_fan(Point { x: 10, y: 10 }, &perimeter, green).unwrap();

    assert_eq!(dc.draw_call_count(), 1);
    assert_eq!(dc.vertex_count(), 5);
    assert_eq!(dc.vertex_at(0).pos.x, 10);
    assert_eq!(dc.vertex_at(1).pos.x, 20);
    // one triangle per side, the last wrapping back to the first point
    assert_eq!(
        dc.call_indices(0),
        vec![0, 1, 2, 0, 2, 3, 0, 3, 4, 0, 4, 1]
    );
}

#[test]
fn polygon_needs_three_sides() {
    let white = TextureHandle::white();
    let mut dc = DrawContext::new(white, 10000, 30000).unwrap();
    let green = Color::from_rgba8(0, 255, 0, 255);
    let two = [Point { x: 0, y: 0 }, Point { x: 1, y: 1 }];

    let result = dc.draw_polygon_fan(Point { x: 0, y: 0 }, &two, green);
    assert_eq!(result, Err(RenderError::InvalidArgument));
    assert_eq!(dc.draw_call_count(), 0);
    assert_eq!(dc.vertex_count(), 0);
}

#[test]
fn arc_fan_topology() {
    let white = TextureHandle::white();
    let mut dc = DrawContext::new(white, 10000, 30000).unwrap();
    let amber = Color::from_rgba8(255, 191, 0, 255);
    let arc = [
        Point { x: 20, y: 10 },
        Point { x: 17, y: 17 },
        Point { x: 10, y: 20 },
    ];

    dc.draw_arc_fan(Point { x: 10, y: 10 }, &arc, amber).unwrap();

    assert_eq!(dc.vertex_count(), 4);
    // no triangle wraps around on an arc
    assert_eq!(dc.call_indices(0), vec![0, 1, 2, 0, 2, 3]);
}

#[test]
fn arc_needs_two_points() {
    let white = TextureHandle::white();
    let mut dc = DrawContext::new(white, 10000, 30000).unwrap();
    let amber = Color::from_rgba8(255, 191, 0, 255);

    let result = dc.draw_arc_fan(Point { x: 0, y: 0 }, &[Point { x: 5, y: 5 }], amber);
    assert_eq!(result, Err(RenderError::InvalidArgument));
    assert_eq!(dc.draw_call_count(), 0);
}

#[test]
fn rect_too_large_for_vertex_limit() {
    let white = TextureHandle::white();
    // three vertices per call can never hold a quad
    let mut dc = DrawContext::new(white, 3, 300).unwrap();
    let red = Color::from_rgba8(255, 0, 0, 255);

    let result = dc.draw_rect(0, 0, 10, 10, red);
    assert_eq!(result, Err(RenderError::CapacityExceeded));
    assert_eq!(dc.draw_call_count(), 0);
    assert_eq!(dc.vertex_count(), 0);
}

#[test]
fn polygon_too_large_for_index_limit() {
    let white = TextureHandle::white();
    // a pentagon needs 15 fan indices; only 6 fit in one call
    let mut dc = DrawContext::new(white, 100, 6).unwrap();
    let green = Color::from_rgba8(0, 255, 0, 255);
    let perimeter = [
        Point { x: 2, y: 0 },
        Point { x: 1, y: 2 },
        Point { x: -1, y: 2 },
        Point { x: -2, y: 0 },
        Point { x: 0, y: -2 },
    ];

    let result = dc.draw_polygon_fan(Point { x: 0, y: 0 }, &perimeter, green);
    assert_eq!(result, Err(RenderError::CapacityExceeded));
    assert_eq!(dc.draw_call_count(), 0);
}

#[test]
fn vertex_and_color_keep_their_parts() {
    let c = Color::from_rgba8(1, 2, 3, 4);
    assert_eq!((c.r, c.g, c.b, c.a), (1, 2, 3, 4));

    let v = Vertex::new(10, -20, 7, 9, c);
    assert_eq!((v.pos.x, v.pos.y), (10, -20));
    assert_eq!((v.tex_coord.x, v.tex_coord.y), (7, 9));
    assert_eq!(v.color, c);

    let p = Point::new(-1, 2);
    assert_eq!((p.x, p.y), (-1, 2));
}
