use fontmesh::extrude::extrude;
use fontmesh::linearize::qbezier;
use fontmesh::triangulate::triangulate;
use fontmesh::{Contour, Mesh2D, Outline2D};
use glam::{Vec2, Vec3};

#[test]
fn test_api_compiles() {
    // The public items above resolve: that is the whole test.
}

#[test]
fn test_extrude_square() {
    let mesh_2d = Mesh2D {
        vertices: vec![
            Vec2::new(0.0, 0.0),
            Vec2::new(1.0, 0.0),
            Vec2::new(1.0, 1.0),
            Vec2::new(0.0, 1.0),
        ],
        indices: vec![0, 1, 2, 0, 2, 3],
    };

    let mut outline = Outline2D::new();
    let mut contour = Contour::new(true);
    contour.push_on_curve(Vec2::new(0.0, 0.0));
    contour.push_on_curve(Vec2::new(1.0, 0.0));
    contour.push_on_curve(Vec2::new(1.0, 1.0));
    contour.push_on_curve(Vec2::new(0.0, 1.0));
    outline.add_contour(contour);

    let mesh_3d =
        extrude(&mesh_2d, &outline, Vec3::new(0.0, 0.0, 1.0)).expect("Extrusion should succeed");

    assert!(mesh_3d.vertices.len() > 0);
    assert!(mesh_3d.triangle_count() > 0);
    assert_eq!(mesh_3d.vertices.len(), mesh_3d.normals.len());
}

#[test]
fn test_qbezier() {
    let p0 = Vec2::new(0.0, 0.0);
    let p1 = Vec2::new(0.5, 1.0);
    let p2 = Vec2::new(1.0, 0.0);

    let result = qbezier(p0, p1, p2, Vec2::splat(0.0));
    assert!((result - p0).length() < 0.001);

    let result = qbezier(p0, p1, p2, Vec2::splat(1.0));
    assert!((result - p2).length() < 0.001);

    let result = qbezier(p0, p1, p2, Vec2::splat(0.5));
    assert!(result.y > 0.0);
}

#[test]
fn test_triangulate_square() {
    let mut outline = Outline2D::new();
    let mut contour = Contour::new(true);

    contour.push_on_curve(Vec2::new(0.0, 0.0));
    contour.push_on_curve(Vec2::new(1.0, 0.0));
    contour.push_on_curve(Vec2::new(1.0, 1.0));
    contour.push_on_curve(Vec2::new(0.0, 1.0));

    outline.add_contour(contour);

    let mesh = triangulate(&outline).expect("Triangulation should succeed");

    assert!(mesh.vertices.len() >= 4);
    assert!(mesh.triangle_count() >= 2);
}
