use pong::geometry::{
    game_x_of_ndc, game_y_of_ndc, get_square_buffers, ndc_x_of_game, ndc_y_of_game, Rect, Vertex,
    GAME_HALF_SPAN,
};

fn rect(x: i32, y: i32, width: i32, height: i32) -> Rect {
    Rect { x, y, width, height }
}

#[test]
fn empty_list_yields_no_geometry() {
    let (vertices, indices) = get_square_buffers(&Vec::new());
    assert_eq!(vertices.len(), 0);
    assert_eq!(indices.len(), 0);
}

#[test]
fn one_rectangle_yields_four_vertices_and_six_indices() {
    let (vertices, indices) = get_square_buffers(&vec![rect(0, 0, 10, 10)]);
    assert_eq!(vertices.len(), 4);
    assert_eq!(indices.len(), 6);
}

#[test]
fn unit_square_corners_in_ndc() {
    // A 10x10 rectangle at the game origin: NDC numerators over the
    // half-span 50, Y inverted.
    let (vertices, indices) = get_square_buffers(&vec![rect(0, 0, 10, 10)]);
    assert_eq!(vertices[0], Vertex { x: -50, y: 50 });
    assert_eq!(vertices[1], Vertex { x: -40, y: 50 });
    assert_eq!(vertices[2], Vertex { x: -50, y: 40 });
    assert_eq!(vertices[3], Vertex { x: -40, y: 40 });
    assert_eq!(indices, vec![0, 2, 3, 0, 3, 1]);
}

#[test]
fn centered_rectangle_maps_to_ndc_origin() {
    // A rectangle whose origin sits at the center of the game space
    // (one half-span on both axes) starts at the NDC origin.
    let (vertices, _) = get_square_buffers(&vec![rect(50, 50, 2, 2)]);
    assert_eq!(vertices[0], Vertex { x: 0, y: 0 });
    assert_eq!(vertices[3], Vertex { x: 2, y: -2 });
}

#[test]
fn four_vertices_and_six_indices_per_rectangle() {
    let rects = vec![
        rect(0, 50, 2, 10),
        rect(50, 50, 2, 2),
        rect(98, 50, 2, 10),
    ];
    let (vertices, indices) = get_square_buffers(&rects);
    assert_eq!(vertices.len(), 4 * rects.len());
    assert_eq!(indices.len(), 6 * rects.len());
}

#[test]
fn index_blocks_use_base_offset_four_per_rectangle() {
    let rects = vec![rect(0, 0, 1, 1), rect(10, 10, 1, 1), rect(20, 20, 1, 1)];
    let (_, indices) = get_square_buffers(&rects);
    for i in 0..rects.len() {
        let base = (4 * i) as u32;
        let block = &indices[6 * i..6 * i + 6];
        assert_eq!(block, [base, base + 2, base + 3, base, base + 3, base + 1]);
    }
}

#[test]
fn vertex_blocks_follow_input_order() {
    let rects = vec![rect(0, 50, 2, 10), rect(98, 50, 2, 10)];
    let (vertices, _) = get_square_buffers(&rects);
    // Second rectangle's top-left corner.
    assert_eq!(vertices[4], Vertex { x: 98 - 50, y: 50 - 50 });
    // Second rectangle's bottom-right corner.
    assert_eq!(vertices[7], Vertex { x: 100 - 50, y: 50 - 60 });
}

#[test]
fn both_triangles_share_the_quad_diagonal() {
    // Consistent winding: both triangles run through the corners at vertex
    // offsets 0 and 3 — the shared diagonal — in the same direction.
    let (_, indices) = get_square_buffers(&vec![rect(3, 4, 5, 6)]);
    let t1 = &indices[0..3];
    let t2 = &indices[3..6];
    assert!(t1.contains(&0) && t1.contains(&3));
    assert!(t2.contains(&0) && t2.contains(&3));
    // Cross product of each triangle's edges has the same sign.
    let (vertices, _) = get_square_buffers(&vec![rect(3, 4, 5, 6)]);
    let orient = |t: &[u32]| -> i64 {
        let a = vertices[t[0] as usize];
        let b = vertices[t[1] as usize];
        let c = vertices[t[2] as usize];
        (b.x - a.x) * (c.y - a.y) - (b.y - a.y) * (c.x - a.x)
    };
    assert_eq!(orient(t1), 5 * 6);
    assert_eq!(orient(t2), 5 * 6);
}

#[test]
fn transform_matches_half_span_formula() {
    // ndc = game / half_span - 1, as a numerator over the half-span.
    assert_eq!(GAME_HALF_SPAN, 50);
    assert_eq!(ndc_x_of_game(0), -50);
    assert_eq!(ndc_x_of_game(50), 0);
    assert_eq!(ndc_x_of_game(100), 50);
    // Y is inverted.
    assert_eq!(ndc_y_of_game(0), 50);
    assert_eq!(ndc_y_of_game(100), -50);
}

#[test]
fn transform_round_trips_exactly() {
    for g in [-3_i32, 0, 1, 49, 50, 51, 100, 2_000_000_000] {
        assert_eq!(game_x_of_ndc(ndc_x_of_game(g)), g as i64);
        assert_eq!(game_y_of_ndc(ndc_y_of_game(g)), g as i64);
    }
    for n in [-77_i64, -1, 0, 1, 50, 1_000_000] {
        assert_eq!(game_x_of_ndc(n) - n, GAME_HALF_SPAN);
        assert_eq!(game_y_of_ndc(n) + n, GAME_HALF_SPAN);
    }
}

#[test]
fn negative_game_coordinates_transform_linearly() {
    let (vertices, _) = get_square_buffers(&vec![rect(-10, -20, 5, 5)]);
    assert_eq!(vertices[0], Vertex { x: -60, y: 70 });
    assert_eq!(vertices[3], Vertex { x: -55, y: 65 });
}
