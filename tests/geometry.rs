use hello_gl::geometry::{
    cube_strip, cube_vertices, index_data, quad_strip, quad_vertices, vertex_data,
    CUBE_STRIP_LEN, CUBE_VERTEX_COUNT, CUBE_VERTEX_WIDTH,
};
use hello_gl::scene::Scene;

const CUBE: [i8; 216] = [
    // front
    -1, -1, 1, 0, 0, 1, 0, 0, 1, //
    1, -1, 1, 1, 0, 1, 0, 0, 1, //
    -1, 1, 1, 0, 1, 1, 0, 0, 1, //
    1, 1, 1, 1, 1, 1, 0, 0, 1, //
    // back
    1, -1, -1, 1, 0, 0, 0, 0, -1, //
    -1, -1, -1, 0, 0, 0, 0, 0, -1, //
    1, 1, -1, 1, 1, 0, 0, 0, -1, //
    -1, 1, -1, 0, 1, 0, 0, 0, -1, //
    // right
    1, -1, 1, 1, 0, 1, 1, 0, 0, //
    1, -1, -1, 1, 0, 0, 1, 0, 0, //
    1, 1, 1, 1, 1, 1, 1, 0, 0, //
    1, 1, -1, 1, 1, 0, 1, 0, 0, //
    // left
    -1, -1, -1, 0, 0, 0, -1, 0, 0, //
    -1, -1, 1, 0, 0, 1, -1, 0, 0, //
    -1, 1, -1, 0, 1, 0, -1, 0, 0, //
    -1, 1, 1, 0, 1, 1, -1, 0, 0, //
    // top
    -1, 1, 1, 0, 1, 1, 0, 1, 0, //
    1, 1, 1, 1, 1, 1, 0, 1, 0, //
    -1, 1, -1, 0, 1, 0, 0, 1, 0, //
    1, 1, -1, 1, 1, 0, 0, 1, 0, //
    // bottom
    -1, -1, -1, 0, 0, 0, 0, -1, 0, //
    1, -1, -1, 1, 0, 0, 0, -1, 0, //
    -1, -1, 1, 0, 0, 1, 0, -1, 0, //
    1, -1, 1, 1, 0, 1, 0, -1, 0, //
];

#[test]
fn cube_vertices_match_the_six_faces() {
    let v = cube_vertices();
    assert_eq!(v.len(), CUBE_VERTEX_COUNT * CUBE_VERTEX_WIDTH);
    assert_eq!(v, CUBE.to_vec());
}

#[test]
fn cube_strip_stitches_faces_with_degenerate_triangles() {
    let s = cube_strip();
    assert_eq!(s.len(), CUBE_STRIP_LEN);
    assert_eq!(
        s,
        vec![
            0, 1, 2, 3, 3, 4, 4, 5, 6, 7, 7, 8, 8, 9, 10, 11, 11, 12, 12, 13, 14, 15, 15, 16, 16,
            17, 18, 19, 19, 20, 20, 21, 22, 23
        ]
    );
    assert!(s.iter().all(|&i| (i as usize) < CUBE_VERTEX_COUNT));
}

#[test]
fn quad_vertex_data_is_eight_floats_of_bytes() {
    let v = quad_vertices();
    assert_eq!(v, vec![-1, -1, 1, -1, -1, 1, 1, 1]);
    let as_floats: Vec<f32> = v.iter().map(|&x| x as f32).collect();
    assert_eq!(std::mem::size_of_val(as_floats.as_slice()), 8 * std::mem::size_of::<f32>());
    assert_eq!(std::mem::size_of_val(as_floats.as_slice()), 32);
}

#[test]
fn quad_strip_is_its_four_corners() {
    assert_eq!(quad_strip(), vec![0, 1, 2, 3]);
}

#[test]
fn each_scene_uploads_its_own_geometry() {
    assert_eq!(vertex_data(Scene::Cube), CUBE.to_vec());
    assert_eq!(vertex_data(Scene::Quad), quad_vertices());
    assert_eq!(index_data(Scene::Cube), cube_strip());
    assert_eq!(index_data(Scene::Quad), vec![0, 1, 2, 3]);
}
