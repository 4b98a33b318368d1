use windmill::{assemble, border_indices, face_vertices, Face, TexturePoint, Vane, Vertex, MAX_VANES};

/// A vane whose positions and normals tell which vane and which field they
/// came from: vane `n` has tip `[n, 0]`, corners `[n, 1]` and `[n, 2]`, and
/// normals `[n, 10]` and `[n, -10]`.
fn marked(n: i32) -> Vane<[i32; 2]> {
    Vane { tip: [n, 0], corner1: [n, 1], corner2: [n, 2], normal: [n, 10], reverse_normal: [n, -10] }
}

fn scene(count: i32) -> Vec<Vane<[i32; 2]>> {
    (0..count).map(marked).collect()
}

fn vertex(position: [i32; 2], normal: [i32; 2], u: u8, v: u8) -> Vertex<[i32; 2]> {
    Vertex { position, normal, texture: TexturePoint { u, v } }
}

#[test]
fn face_vertices_of_the_front_face() {
    let v = face_vertices(&marked(7), Face::Front);
    assert_eq!(
        v,
        [
            vertex([7, 0], [7, 10], 50, 5),
            vertex([7, 1], [7, 10], 95, 95),
            vertex([7, 2], [7, 10], 5, 95),
        ]
    );
}

#[test]
fn face_vertices_of_the_back_face() {
    let v = face_vertices(&marked(7), Face::Back);
    assert_eq!(
        v,
        [
            vertex([7, 0], [7, -10], 50, 5),
            vertex([7, 2], [7, -10], 5, 95),
            vertex([7, 1], [7, -10], 95, 95),
        ]
    );
}

#[test]
fn face_vertices_carry_real_coordinates() {
    let vane: Vane<[f32; 3]> = Vane {
        tip: [0.25, 0.0, 0.0],
        corner1: [-0.4330127, -0.25, 0.0],
        corner2: [-0.4330127, 0.25, 0.0],
        normal: [0.0, 0.0, 1.0],
        reverse_normal: [0.0, 0.0, -1.0],
    };
    let v = face_vertices(&vane, Face::Back);
    assert_eq!(v[1].position, [-0.4330127, 0.25, 0.0]);
    assert_eq!(v[1].normal, [0.0, 0.0, -1.0]);
    assert_eq!(v[1].texture, TexturePoint { u: 5, v: 95 });
}

#[test]
fn border_indices_of_three_vanes() {
    let indices = border_indices(3);
    assert_eq!(indices.len(), 18);
    assert_eq!(indices, vec![0, 1, 1, 2, 2, 0, 3, 4, 4, 5, 5, 3, 6, 7, 7, 8, 8, 6]);
}

#[test]
fn border_indices_of_six_vanes() {
    let indices = border_indices(6);
    assert_eq!(indices.len(), 36);
    let expected: Vec<u16> = (0..6u16)
        .flat_map(|n| {
            let i = n * 3;
            vec![i, i + 1, i + 1, i + 2, i + 2, i]
        })
        .collect();
    assert_eq!(indices, expected);
}

#[test]
fn border_indices_of_one_vane() {
    assert_eq!(border_indices(1), vec![0, 1, 1, 2, 2, 0]);
}

#[test]
fn border_indices_of_no_vanes() {
    assert!(border_indices(0).is_empty());
}

#[test]
fn border_indices_stay_within_the_front_block() {
    for count in [0usize, 1, 2, 3, 6, 10, 100] {
        let indices = border_indices(count);
        assert_eq!(indices.len(), 6 * count);
        assert!(indices.iter().all(|&i| (i as usize) < 3 * count));
    }
}

#[test]
fn border_indices_pair_up_into_triangle_edges() {
    let indices = border_indices(4);
    for (vane, six) in indices.chunks(6).enumerate() {
        let b = 3 * vane as u16;
        assert_eq!((six[0], six[1]), (b, b + 1));
        assert_eq!((six[2], six[3]), (b + 1, b + 2));
        assert_eq!((six[4], six[5]), (b + 2, b));
    }
}

#[test]
fn border_indices_at_the_largest_scene() {
    let indices = border_indices(MAX_VANES);
    assert_eq!(MAX_VANES, 21845);
    assert_eq!(indices.len(), 131070);
    assert_eq!(&indices[131064..], &[65532, 65533, 65533, 65534, 65534, 65532]);
    assert!(indices.iter().all(|&i| (i as usize) < 3 * MAX_VANES));
}

#[test]
fn assemble_lists_all_fronts_then_all_backs() {
    let frame = assemble(&scene(2));
    let expected = vec![
        vertex([0, 0], [0, 10], 50, 5),
        vertex([0, 1], [0, 10], 95, 95),
        vertex([0, 2], [0, 10], 5, 95),
        vertex([1, 0], [1, 10], 50, 5),
        vertex([1, 1], [1, 10], 95, 95),
        vertex([1, 2], [1, 10], 5, 95),
        vertex([0, 0], [0, -10], 50, 5),
        vertex([0, 2], [0, -10], 5, 95),
        vertex([0, 1], [0, -10], 95, 95),
        vertex([1, 0], [1, -10], 50, 5),
        vertex([1, 2], [1, -10], 5, 95),
        vertex([1, 1], [1, -10], 95, 95),
    ];
    assert_eq!(frame.vertices(), &expected[..]);
    assert_eq!(frame.front_block(), &expected[..6]);
    assert_eq!(frame.border_indices(), &[0, 1, 1, 2, 2, 0, 3, 4, 4, 5, 5, 3][..]);
    assert_eq!(frame.vane_count(), 2);
}

#[test]
fn assemble_three_vane_scene() {
    let frame = assemble(&scene(3));
    assert_eq!(frame.vane_count(), 3);
    assert_eq!(frame.vertices().len(), 18);
    assert_eq!(frame.front_block().len(), 9);
    assert_eq!(frame.border_indices().len(), 18);
    assert_eq!(frame.border_indices(), &border_indices(3)[..]);
}

#[test]
fn assemble_six_vane_scene() {
    let frame = assemble(&scene(6));
    assert_eq!(frame.vane_count(), 6);
    assert_eq!(frame.vertices().len(), 36);
    assert_eq!(frame.front_block().len(), 18);
    assert_eq!(frame.border_indices().len(), 36);
    assert!(frame.border_indices().iter().all(|&i| (i as usize) < frame.front_block().len()));
}

#[test]
fn assemble_triangles_are_faces_of_vanes() {
    let vanes = scene(5);
    let frame = assemble(&vanes);
    let triangles: Vec<_> = frame.vertices().chunks(3).collect();
    assert_eq!(triangles.len(), 10);
    for (i, vane) in vanes.iter().enumerate() {
        assert_eq!(triangles[i], &face_vertices(vane, Face::Front)[..]);
        assert_eq!(triangles[5 + i], &face_vertices(vane, Face::Back)[..]);
    }
}

#[test]
fn front_block_is_the_first_half_of_the_stream() {
    let frame = assemble(&scene(4));
    assert_eq!(frame.front_block(), &frame.vertices()[..12]);
    assert!(frame.front_block().iter().all(|v| v.normal[1] == 10));
    assert!(frame.vertices()[12..].iter().all(|v| v.normal[1] == -10));
}

#[test]
fn border_edges_join_vertices_of_one_front_triangle() {
    let frame = assemble(&scene(6));
    let front = frame.front_block();
    for edge in frame.border_indices().chunks(2) {
        let a = front[edge[0] as usize];
        let b = front[edge[1] as usize];
        assert_eq!(a.position[0], b.position[0]);
        assert_ne!(a.position[1], b.position[1]);
    }
}

#[test]
fn assemble_no_vanes() {
    let frame = assemble(&scene(0));
    assert_eq!(frame.vane_count(), 0);
    assert!(frame.vertices().is_empty());
    assert!(frame.front_block().is_empty());
    assert!(frame.border_indices().is_empty());
}

#[test]
fn assemble_is_repeatable() {
    let vanes = scene(3);
    let first = assemble(&vanes);
    let second = assemble(&vanes);
    assert_eq!(first.vertices(), second.vertices());
    assert_eq!(first.border_indices(), second.border_indices());
}

#[test]
fn assemble_the_largest_scene() {
    let frame = assemble(&scene(MAX_VANES as i32));
    assert_eq!(frame.vane_count(), MAX_VANES);
    assert_eq!(frame.vertices().len(), 6 * MAX_VANES);
    assert_eq!(frame.front_block().len(), 65535);
    assert_eq!(frame.border_indices().iter().copied().max(), Some(65534));
    assert_eq!(frame.vertices()[65534].position, [21844, 2]);
    assert_eq!(frame.vertices()[65535].position, [0, 0]);
}
