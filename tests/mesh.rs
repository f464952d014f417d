use std::sync::Arc;

use glam::Vec3;
use pathtrace::mesh::{
    indices_in_range, mesh_faces, mesh_triangles, record_node_indices, Indexed, RefTri,
};

fn square() -> (Vec<Vec3>, Vec<Vec3>) {
    let verts = vec![
        Vec3::new(0., 0., 0.),
        Vec3::new(1., 0., 0.),
        Vec3::new(1., 1., 0.),
        Vec3::new(0., 1., 0.),
    ];
    let norms = vec![Vec3::Z, Vec3::new(0., 0.6, 0.8), Vec3::X, Vec3::Y];
    (verts, norms)
}

#[test]
fn faces_group_indices_by_three() {
    let faces = mesh_faces(&vec![0, 1, 2, 0, 2, 3], 4);
    assert_eq!(faces.faces, vec![(0, 1, 2), (0, 2, 3)]);
}

#[test]
fn faces_drop_trailing_indices() {
    let faces = mesh_faces(&vec![2, 1, 0, 3, 1], 4);
    assert_eq!(faces.faces, vec![(2, 1, 0)]);
    assert_eq!(faces.counts, vec![1, 1, 1, 0]);
}

#[test]
fn faces_of_empty_buffer() {
    let faces = mesh_faces(&vec![], 3);
    assert!(faces.faces.is_empty());
    assert_eq!(faces.counts, vec![0, 0, 0]);
}

#[test]
fn counts_are_corners_per_vertex() {
    let faces = mesh_faces(&vec![0, 1, 2, 0, 2, 3], 5);
    assert_eq!(faces.counts, vec![2, 1, 2, 1, 0]);
}

#[test]
fn counts_repeated_corner() {
    let faces = mesh_faces(&vec![1, 1, 1], 2);
    assert_eq!(faces.counts, vec![0, 3]);
}

#[test]
fn indices_checked_against_vertex_count() {
    assert!(indices_in_range(&vec![0, 1, 2, 3], 4));
    assert!(!indices_in_range(&vec![0, 1, 4], 4));
    assert!(indices_in_range(&vec![], 0));
    assert!(!indices_in_range(&vec![0], 0));
}

#[test]
fn triangles_share_buffers() {
    let (verts, norms) = square();
    let verts = Arc::new(verts);
    let norms = Arc::new(norms);
    let faces = mesh_faces(&vec![0, 1, 2, 0, 2, 3], 4);
    let tris = mesh_triangles(&faces.faces, &verts, &norms, true);
    assert_eq!(tris.len(), 2);
    assert_eq!((tris[1].obj.a, tris[1].obj.b, tris[1].obj.c), (0, 2, 3));
    assert!(tris[1].obj.smooth);
    assert_eq!(tris[0].shape_idx, 0);
    assert!(Arc::ptr_eq(&tris[0].obj.verts, &verts));
    assert!(Arc::ptr_eq(&tris[1].obj.norms, &norms));
    assert_eq!(Arc::strong_count(&verts), 3);
}

#[test]
fn triangle_corners_read_the_buffers() {
    let (verts, norms) = square();
    let tri = RefTri {
        verts: Arc::new(verts),
        norms: Arc::new(norms),
        a: 3,
        b: 1,
        c: 2,
        smooth: false,
    };
    assert_eq!(tri.a_pos(), Vec3::new(0., 1., 0.));
    assert_eq!(tri.b_pos(), Vec3::new(1., 0., 0.));
    assert_eq!(tri.c_pos(), Vec3::new(1., 1., 0.));
    assert_eq!(tri.a_norm(), Vec3::Y);
    assert_eq!(tri.b_norm(), Vec3::new(0., 0.6, 0.8));
    assert_eq!(tri.c_norm(), Vec3::X);
}

#[test]
fn node_index_slot() {
    let mut item = Indexed::new(7u8);
    assert_eq!(item.bh_node_index(), 0);
    item.set_bh_node_index(12);
    assert_eq!(item.bh_node_index(), 12);
    assert_eq!(item.obj, 7);
}

#[test]
fn node_indices_recorded_per_item() {
    let mut items = vec![Indexed::new('a'), Indexed::new('b'), Indexed::new('c')];
    record_node_indices(&mut items, &vec![4, 1, 2]);
    let got: Vec<(char, usize)> = items.iter().map(|i| (i.obj, i.shape_idx)).collect();
    assert_eq!(got, vec![('a', 4), ('b', 1), ('c', 2)]);
}
