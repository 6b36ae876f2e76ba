use test_gpu::triangle::{sequential_indices, CubeVertexPos, DrawTriangleInit, QuadVertexPos};

fn quad(base: u32) -> QuadVertexPos {
    QuadVertexPos { top_right: base, bottom_right: base + 1, top_left: base + 2, bottom_left: base + 3 }
}

#[test]
fn quad_indices_make_two_triangles() {
    assert_eq!(quad(0).indices(), [0, 1, 2, 1, 3, 2]);
}

#[test]
fn cube_indices_follow_face_order() {
    let cube = CubeVertexPos {
        top: quad(0),
        bottom: quad(4),
        left: quad(8),
        right: quad(12),
        front: quad(16),
        behind: quad(20),
    };
    let r = cube.indices();
    assert_eq!(&r[0..6], &[0, 1, 2, 1, 3, 2]);
    assert_eq!(&r[6..12], &[4, 5, 6, 5, 7, 6]);
    assert_eq!(&r[30..36], &[20, 21, 22, 21, 23, 22]);
}

#[test]
fn sequential_indices_count_up() {
    assert_eq!(sequential_indices(0), Vec::<u32>::new());
    assert_eq!(sequential_indices(4), vec![0, 1, 2, 3]);
    assert_eq!(sequential_indices(36).len(), 36);
}

#[test]
fn scene_init_builds() {
    assert_eq!(DrawTriangleInit::new(), DrawTriangleInit::default());
}
