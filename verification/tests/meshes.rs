use fontmesh::extrude::{create_side_faces, edge_tolerance_value, wall_normal, wall_panel};
use fontmesh::triangulate::mesh_from_buffers;
use fontmesh::{
    compute_smooth_normals, extrude, triangulate, Contour, FontMeshError, Mesh2D, Mesh3D,
    Outline2D,
};
use glam::{Vec2, Vec3};

fn polyline(points: &[(f32, f32)], closed: bool) -> Contour {
    let mut contour = Contour::new(closed);
    for &(x, y) in points {
        contour.push_on_curve(Vec2::new(x, y));
    }
    contour
}

fn square_outline() -> Outline2D {
    let mut outline = Outline2D::new();
    outline.add_contour(polyline(&[(0.0, 0.0), (1.0, 0.0), (1.0, 1.0), (0.0, 1.0)], true));
    outline
}

fn square_mesh() -> Mesh2D {
    Mesh2D {
        vertices: vec![
            Vec2::new(0.0, 0.0),
            Vec2::new(1.0, 0.0),
            Vec2::new(1.0, 1.0),
            Vec2::new(0.0, 1.0),
        ],
        indices: vec![0, 1, 2, 0, 2, 3],
    }
}

fn depth(d: f32) -> Vec3 {
    Vec3::new(0.0, 0.0, d)
}

fn area(mesh: &Mesh2D) -> f32 {
    mesh.indices
        .chunks(3)
        .map(|t| {
            let a = mesh.vertices[t[0] as usize];
            let b = mesh.vertices[t[1] as usize];
            let c = mesh.vertices[t[2] as usize];
            ((b - a).perp_dot(c - a) * 0.5).abs()
        })
        .sum()
}

fn assert_close(a: Vec3, b: Vec3) {
    assert!((a - b).length() < 1e-6, "{a:?} is not {b:?}");
}

#[test]
fn triangulated_indices_name_vertices_in_threes() {
    let mesh = triangulate(&square_outline()).unwrap();
    assert_eq!(mesh.indices.len() % 3, 0);
    assert!(mesh.indices.iter().all(|&i| (i as usize) < mesh.vertices.len()));
    assert_eq!(mesh.vertices.len(), 4);
    assert_eq!(mesh.triangle_count(), 2);
    assert!((area(&mesh) - 1.0).abs() < 1e-6);
    for corner in [(0.0, 0.0), (1.0, 0.0), (1.0, 1.0), (0.0, 1.0)] {
        assert!(mesh.vertices.contains(&Vec2::new(corner.0, corner.1)));
    }
}

#[test]
fn a_contour_inside_another_cuts_a_hole() {
    let mut outline = Outline2D::new();
    outline.add_contour(polyline(&[(0.0, 0.0), (4.0, 0.0), (4.0, 4.0), (0.0, 4.0)], true));
    outline.add_contour(polyline(&[(1.0, 1.0), (3.0, 1.0), (3.0, 3.0), (1.0, 3.0)], true));
    let mesh = triangulate(&outline).unwrap();
    assert!((area(&mesh) - 12.0).abs() < 1e-4);
    assert_eq!(mesh.indices.len() % 3, 0);
    assert!(mesh.indices.iter().all(|&i| (i as usize) < mesh.vertices.len()));

    // The hole is a hole whichever way it winds.
    let mut other = Outline2D::new();
    other.add_contour(polyline(&[(0.0, 0.0), (4.0, 0.0), (4.0, 4.0), (0.0, 4.0)], true));
    other.add_contour(polyline(&[(1.0, 1.0), (1.0, 3.0), (3.0, 3.0), (3.0, 1.0)], true));
    let mesh = triangulate(&other).unwrap();
    assert!((area(&mesh) - 12.0).abs() < 1e-4);
}

#[test]
fn contours_without_points_are_passed_over() {
    let mut outline = Outline2D::new();
    outline.add_contour(Contour::new(true));
    outline.add_contour(polyline(&[(0.0, 0.0), (2.0, 0.0), (0.0, 2.0)], false));
    let mesh = triangulate(&outline).unwrap();
    assert_eq!(mesh.triangle_count(), 1);
    assert!((area(&mesh) - 2.0).abs() < 1e-6);
}

#[test]
fn an_outline_without_contours_does_not_triangulate() {
    let outline = Outline2D::new();
    match triangulate(&outline) {
        Err(FontMeshError::TriangulationFailed(message)) => assert_eq!(message, "Empty outline"),
        other => panic!("unexpected: {other:?}"),
    }
    assert!(matches!(outline.triangulate(), Err(FontMeshError::TriangulationFailed(_))));
}

#[test]
fn a_point_that_is_not_finite_does_not_triangulate() {
    for bad in [f32::NAN, f32::INFINITY, f32::NEG_INFINITY] {
        let mut outline = square_outline();
        outline.add_contour(polyline(&[(0.0, 0.0), (1.0, bad), (1.0, 1.0)], true));
        assert_eq!(
            triangulate(&outline).unwrap_err(),
            FontMeshError::TriangulationFailed("point is not finite".into())
        );
    }
}

#[test]
fn buffers_make_a_mesh_only_as_whole_triangles_over_their_vertices() {
    let vertices = || vec![Vec2::new(0.0, 0.0), Vec2::new(1.0, 0.0), Vec2::new(0.0, 1.0)];
    let mesh = mesh_from_buffers(vertices(), vec![0, 1, 2]).unwrap();
    assert_eq!(mesh.vertices, vertices());
    assert_eq!(mesh.indices, vec![0, 1, 2]);
    assert_eq!(
        mesh_from_buffers(vertices(), vec![0, 1]).unwrap_err(),
        FontMeshError::TriangulationFailed("indices do not come in threes".into())
    );
    assert_eq!(
        mesh_from_buffers(vertices(), vec![0, 3]).unwrap_err(),
        FontMeshError::TriangulationFailed("indices do not come in threes".into())
    );
    assert_eq!(
        mesh_from_buffers(vertices(), vec![0, 1, 3]).unwrap_err(),
        FontMeshError::TriangulationFailed("index beyond the vertices".into())
    );
    assert!(mesh_from_buffers(Vec::new(), Vec::new()).is_ok());
}

#[test]
fn the_edge_tolerance_is_one_over_ten_to_the_tenth() {
    let tolerance = edge_tolerance_value();
    assert_eq!(tolerance.x.to_bits(), 1e-10f32.to_bits());
    assert_eq!(tolerance.y.to_bits(), 1e-10f32.to_bits());
}

#[test]
fn a_wall_normal_is_the_edge_direction_turned_a_quarter() {
    assert_eq!(wall_normal(Vec2::new(0.0, 0.0), Vec2::new(2.0, 0.0)), Vec3::new(0.0, 1.0, 0.0));
    assert_eq!(wall_normal(Vec2::new(1.0, 1.0), Vec2::new(1.0, 4.0)), Vec3::new(-1.0, 0.0, 0.0));
    let n = wall_normal(Vec2::new(0.0, 0.0), Vec2::new(3.0, 4.0));
    assert_close(n, Vec3::new(-0.8, 0.6, 0.0));
}

#[test]
fn extruded_square_has_caps_and_four_walls() {
    let mesh = extrude(&square_mesh(), &square_outline(), depth(1.0)).unwrap();
    assert_eq!(mesh.vertices.len(), 24);
    assert_eq!(mesh.normals.len(), 24);
    assert_eq!(mesh.indices.len(), 36);
    assert_eq!(mesh.triangle_count(), 12);
    assert!(!mesh.is_empty());

    let flat = square_mesh().vertices;
    for i in 0..4 {
        assert_eq!(mesh.vertices[i], flat[i].extend(0.5));
        assert_eq!(mesh.normals[i], Vec3::new(0.0, 0.0, 1.0));
        assert_eq!(mesh.vertices[4 + i], flat[i].extend(-0.5));
        assert_eq!(mesh.normals[4 + i], Vec3::new(0.0, 0.0, -1.0));
    }
    assert_eq!(mesh.indices[..6], [0, 1, 2, 0, 2, 3]);
    assert_eq!(mesh.indices[6..12], [4, 6, 5, 4, 7, 6]);
    for k in 0..4u32 {
        let base = 8 + 4 * k;
        let at = 12 + 6 * k as usize;
        assert_eq!(
            mesh.indices[at..at + 6],
            [base, base + 1, base + 2, base, base + 2, base + 3]
        );
        let p0 = flat[k as usize];
        let p1 = flat[(k as usize + 1) % 4];
        let quad = &mesh.vertices[base as usize..base as usize + 4];
        assert_eq!(quad, [p0.extend(0.5), p1.extend(0.5), p1.extend(-0.5), p0.extend(-0.5)]);
        let normals = &mesh.normals[base as usize..base as usize + 4];
        assert_eq!(normals[0], normals[3]);
        assert_eq!(normals[1], normals[2]);
    }
    let s = std::f32::consts::FRAC_1_SQRT_2;
    assert_close(mesh.normals[8], Vec3::new(s, s, 0.0));
    assert_close(mesh.normals[9], Vec3::new(-s, s, 0.0));
}

#[test]
fn extruded_normals_have_unit_length_and_heights_stay_within_the_depth() {
    for d in [0.5f32, 1.0, 2.0, 5.0, 10.0] {
        let mesh = extrude(&square_mesh(), &square_outline(), depth(d)).unwrap();
        assert_eq!(mesh.vertices.len(), mesh.normals.len());
        assert_eq!(mesh.indices.len() % 3, 0);
        assert!(mesh.indices.iter().all(|&i| (i as usize) < mesh.vertices.len()));
        for normal in &mesh.normals {
            assert!((normal.length() - 1.0).abs() < 0.01);
        }
        for vertex in &mesh.vertices {
            assert!(vertex.z == d / 2.0 || vertex.z == -d / 2.0);
            assert!(vertex.z >= -d / 2.0 - 0.01 && vertex.z <= d / 2.0 + 0.01);
        }
    }
}

#[test]
fn extrusion_reads_only_the_third_lane_of_the_depth() {
    let a = extrude(&square_mesh(), &square_outline(), Vec3::new(0.0, 0.0, 3.0)).unwrap();
    let b = extrude(&square_mesh(), &square_outline(), Vec3::new(7.0, -2.0, 3.0)).unwrap();
    assert_eq!(a.vertices, b.vertices);
    assert_eq!(a.normals, b.normals);
    assert_eq!(a.indices, b.indices);
}

#[test]
fn zero_depth_gives_coinciding_caps() {
    let mesh = extrude(&square_mesh(), &square_outline(), depth(0.0)).unwrap();
    assert_eq!(mesh.vertices.len(), 24);
    assert!(mesh.vertices.iter().all(|v| v.z == 0.0));
    assert_eq!(mesh.triangle_count(), 12);
}

#[test]
fn open_contours_have_one_wall_less_and_unblended_ends() {
    let mut outline = Outline2D::new();
    outline.add_contour(polyline(&[(0.0, 0.0), (1.0, 0.0), (1.0, 1.0)], false));
    let mesh = extrude(&Mesh2D::new(), &outline, depth(2.0)).unwrap();
    assert_eq!(mesh.vertices.len(), 8);
    assert_eq!(mesh.indices, vec![0, 1, 2, 0, 2, 3, 4, 5, 6, 4, 6, 7]);
    let s = std::f32::consts::FRAC_1_SQRT_2;
    assert_eq!(mesh.normals[0], Vec3::new(0.0, 1.0, 0.0));
    assert_close(mesh.normals[1], Vec3::new(-s, s, 0.0));
    assert_close(mesh.normals[4], Vec3::new(-s, s, 0.0));
    assert_eq!(mesh.normals[5], Vec3::new(-1.0, 0.0, 0.0));
}

#[test]
fn edges_without_length_get_no_wall() {
    let contour = polyline(&[(0.0, 0.0), (1.0, 0.0), (1.0, 0.0), (0.0, 1.0)], true);
    assert!(wall_panel(&contour, 0).is_some());
    assert!(wall_panel(&contour, 1).is_none());
    assert!(wall_panel(&contour, 2).is_some());
    assert!(wall_panel(&contour, 3).is_some());

    // Next to an edge without length the normal is not blended.
    let first = wall_panel(&contour, 0).unwrap();
    assert_eq!(first.normal_p1, Vec3::new(0.0, 1.0, 0.0));
    let third = wall_panel(&contour, 2).unwrap();
    assert_eq!(third.normal_p0, wall_normal(Vec2::new(1.0, 0.0), Vec2::new(0.0, 1.0)));

    let mut outline = Outline2D::new();
    outline.add_contour(contour);
    outline.add_contour(polyline(&[(3.0, 3.0)], true));
    outline.add_contour(Contour::new(true));
    let mut mesh = Mesh3D::new();
    create_side_faces(&mut mesh, &outline, Vec3::new(0.0, 0.0, 1.0));
    assert_eq!(mesh.vertices.len(), 12);
    assert_eq!(mesh.normals.len(), 12);
    assert_eq!(mesh.indices.len(), 18);
    assert_eq!(mesh.vertices[0], Vec3::new(0.0, 0.0, 1.0));
    assert_eq!(mesh.vertices[3], Vec3::new(0.0, 0.0, -1.0));
}

#[test]
fn side_faces_are_numbered_after_what_the_mesh_holds() {
    let mut mesh = Mesh3D {
        vertices: vec![Vec3::ZERO; 5],
        normals: vec![Vec3::Z; 5],
        indices: vec![0, 1, 2],
    };
    create_side_faces(&mut mesh, &square_outline(), Vec3::new(0.0, 0.0, 0.25));
    assert_eq!(mesh.vertices.len(), 21);
    assert_eq!(mesh.indices[..3], [0, 1, 2]);
    assert_eq!(mesh.indices[3..9], [5, 6, 7, 5, 7, 8]);
    assert_eq!(mesh.indices[21..27], [17, 18, 19, 17, 19, 20]);
}

#[test]
fn an_index_that_cannot_be_moved_to_the_back_fails_extrusion() {
    let mesh = Mesh2D { vertices: vec![Vec2::ZERO], indices: vec![u32::MAX, 0, 0] };
    assert_eq!(
        extrude(&mesh, &Outline2D::new(), depth(1.0)).unwrap_err(),
        FontMeshError::ExtrusionFailed("vertex index too large".into())
    );
    // A trailing index that completes no triangle is copied to the front
    // and has no part in the back.
    let partial = Mesh2D { vertices: vec![Vec2::ZERO], indices: vec![0, 0, 0, u32::MAX] };
    let solid = extrude(&partial, &Outline2D::new(), depth(1.0)).unwrap();
    assert_eq!(solid.indices, vec![0, 0, 0, u32::MAX, 1, 1, 1]);
}

#[test]
fn the_fluent_forms_give_what_the_functions_give() {
    let outline = square_outline();
    let flat = outline.triangulate().unwrap();
    let direct = triangulate(&outline).unwrap();
    assert_eq!(flat.vertices, direct.vertices);
    assert_eq!(flat.indices, direct.indices);

    let solid = flat.extrude(&outline, depth(2.0)).unwrap();
    let whole = outline.to_mesh_3d(depth(2.0)).unwrap();
    assert_eq!(solid.vertices, whole.vertices);
    assert_eq!(solid.normals, whole.normals);
    assert_eq!(solid.indices, whole.indices);
    assert_eq!(whole.vertices.len(), 24);

    assert!(matches!(
        Outline2D::new().to_mesh_3d(depth(2.0)),
        Err(FontMeshError::TriangulationFailed(_))
    ));
}

#[test]
fn smooth_normals_are_shared_by_vertices_at_one_place() {
    let mut mesh = Mesh3D {
        vertices: vec![
            Vec3::new(0.0, 0.0, 0.0),
            Vec3::new(1.0, 0.0, 0.0),
            Vec3::new(0.0, 1.0, 0.0),
            Vec3::new(0.0, 0.0, 0.0),
            Vec3::new(0.0, 1.0, 0.0),
            Vec3::new(0.0, 0.0, 1.0),
            Vec3::new(9.0, 9.0, 9.0),
        ],
        normals: vec![Vec3::X; 7],
        indices: vec![0, 1, 2, 3, 4, 5],
    };
    let vertices = mesh.vertices.clone();
    compute_smooth_normals(&mut mesh);
    assert_eq!(mesh.vertices, vertices);
    assert_eq!(mesh.indices, vec![0, 1, 2, 3, 4, 5]);
    assert_eq!(mesh.normals.len(), 7);
    let s = std::f32::consts::FRAC_1_SQRT_2;
    let shared = Vec3::new(s, 0.0, s);
    assert_close(mesh.normals[0], shared);
    assert_close(mesh.normals[3], shared);
    assert_close(mesh.normals[2], shared);
    assert_close(mesh.normals[4], shared);
    assert_eq!(mesh.normals[0], mesh.normals[3]);
    assert_eq!(mesh.normals[2], mesh.normals[4]);
    assert_eq!(mesh.normals[1], Vec3::new(0.0, 0.0, 1.0));
    assert_eq!(mesh.normals[5], Vec3::new(1.0, 0.0, 0.0));
    // A vertex that no triangle touches keeps its normal.
    assert_eq!(mesh.normals[6], Vec3::X);
}

#[test]
fn smooth_normals_weigh_faces_by_their_size() {
    // Two faces meet at the origin: a large one facing up and a small one
    // facing along x. The larger face pulls the shared normal toward it.
    let mut mesh = Mesh3D {
        vertices: vec![
            Vec3::new(0.0, 0.0, 0.0),
            Vec3::new(3.0, 0.0, 0.0),
            Vec3::new(0.0, 1.0, 0.0),
            Vec3::new(0.0, 0.0, 0.0),
            Vec3::new(0.0, 1.0, 0.0),
            Vec3::new(0.0, 0.0, 1.0),
        ],
        normals: vec![Vec3::Y; 6],
        indices: vec![0, 1, 2, 3, 4, 5],
    };
    compute_smooth_normals(&mut mesh);
    assert_close(mesh.normals[0], Vec3::new(1.0, 0.0, 3.0).normalize());
    assert_eq!(mesh.normals[0], mesh.normals[3]);
    assert_eq!(mesh.normals[1], Vec3::new(0.0, 0.0, 1.0));
}

#[test]
fn smooth_normals_group_by_ten_thousandths_cut_toward_zero() {
    let mut mesh = Mesh3D {
        vertices: vec![
            Vec3::new(0.00009, 0.0, 0.0),
            Vec3::new(1.0, 0.0, 0.0),
            Vec3::new(0.0, 1.0, 0.0),
            Vec3::new(-0.00009, 0.0, 0.0),
            Vec3::new(0.0, 0.0, 1.0),
            Vec3::new(0.0, 1.0, 0.0),
            Vec3::new(0.00011, 0.0, 0.0),
            Vec3::new(0.0, -1.0, 0.0),
            Vec3::new(1.0, 0.0, 0.0),
        ],
        normals: vec![Vec3::Y; 9],
        indices: vec![0, 1, 2, 3, 4, 5, 6, 7, 8],
    };
    compute_smooth_normals(&mut mesh);
    // The first two corners fall on one grid position, the third on the next.
    assert_eq!(mesh.normals[0], mesh.normals[3]);
    assert!(mesh.normals[0].z > 0.0 && mesh.normals[0].x < 0.0);
    assert_eq!(mesh.normals[6], Vec3::new(0.0, 0.0, 1.0));
    assert_ne!(mesh.normals[6], mesh.normals[0]);
    for normal in &mesh.normals {
        assert!((normal.length() - 1.0).abs() < 1e-5);
    }
}

#[test]
fn smooth_normals_leave_a_group_alone_whose_sum_is_zero() {
    // Two copies of one triangle, wound opposite ways at the same place.
    let mut mesh = Mesh3D {
        vertices: vec![
            Vec3::new(0.0, 0.0, 0.0),
            Vec3::new(1.0, 0.0, 0.0),
            Vec3::new(0.0, 1.0, 0.0),
            Vec3::new(0.0, 0.0, 0.0),
            Vec3::new(0.0, 1.0, 0.0),
            Vec3::new(1.0, 0.0, 0.0),
        ],
        normals: vec![
            Vec3::X,
            Vec3::Y,
            Vec3::Z,
            Vec3::NEG_X,
            Vec3::NEG_Y,
            Vec3::NEG_Z,
        ],
        indices: vec![0, 1, 2, 3, 4, 5],
    };
    let before = mesh.normals.clone();
    compute_smooth_normals(&mut mesh);
    assert_eq!(mesh.normals, before);
}

#[test]
fn smooth_normals_of_an_extruded_square_join_caps_and_walls() {
    let mut mesh = extrude(&square_mesh(), &square_outline(), depth(1.0)).unwrap();
    compute_smooth_normals(&mut mesh);
    assert_eq!(mesh.vertices.len(), 24);
    assert_eq!(mesh.normals.len(), 24);
    for normal in &mesh.normals {
        assert!((normal.length() - 1.0).abs() < 1e-5);
    }
    // The front corner at the origin is one place for the cap vertex and
    // two wall vertices.
    assert_eq!(mesh.vertices[0], mesh.vertices[8]);
    assert_eq!(mesh.vertices[0], mesh.vertices[20 + 1]);
    assert_eq!(mesh.normals[0], mesh.normals[8]);
    assert_eq!(mesh.normals[0], mesh.normals[21]);
}

#[test]
fn empty_meshes_are_empty() {
    let mut solid = Mesh3D::new();
    compute_smooth_normals(&mut solid);
    assert!(solid.is_empty());
    assert_eq!(solid.triangle_count(), 0);
    let flat = Mesh2D::default();
    assert!(flat.is_empty());
    assert_eq!(flat.triangle_count(), 0);
    assert!(Mesh3D::default().is_empty());
    assert!(Outline2D::default().is_empty());
    assert!(Contour::new(false).is_empty());
}
