use fontmesh::{Font, FontMeshError, GlyphId, Mesh2D, Mesh3D, PathCommand};
use glam::{Vec2, Vec3};

/// A font of four glyphs, 1000 units to the em: an empty glyph 0; glyph 1,
/// a square whose upper right corner is a control point; glyph 2 for the
/// space, without a shape; and glyph 3, a square with a square hole. The
/// round letters and digits have glyph 3, all other visible ASCII
/// characters glyph 1.
fn tiny_font() -> Vec<u8> {
    fn be16(out: &mut Vec<u8>, v: u16) {
        out.extend_from_slice(&v.to_be_bytes());
    }
    fn be16i(out: &mut Vec<u8>, v: i16) {
        out.extend_from_slice(&v.to_be_bytes());
    }
    fn be32(out: &mut Vec<u8>, v: u32) {
        out.extend_from_slice(&v.to_be_bytes());
    }

    let mut cmap = Vec::new();
    be16(&mut cmap, 0);
    be16(&mut cmap, 1);
    be16(&mut cmap, 0);
    be16(&mut cmap, 3);
    be32(&mut cmap, 12);
    be16(&mut cmap, 0);
    be16(&mut cmap, 262);
    be16(&mut cmap, 0);
    let mut ids = [0u8; 256];
    for c in b'!'..=b'~' {
        ids[c as usize] = 1;
    }
    for c in b"BDOPQRabdegopq04689@#%&" {
        ids[*c as usize] = 3;
    }
    ids[b' ' as usize] = 2;
    cmap.extend_from_slice(&ids);

    let mut glyf = Vec::new();
    be16i(&mut glyf, 1);
    be16i(&mut glyf, 0);
    be16i(&mut glyf, 0);
    be16i(&mut glyf, 1000);
    be16i(&mut glyf, 1000);
    be16(&mut glyf, 3);
    be16(&mut glyf, 0);
    glyf.extend_from_slice(&[0x01, 0x01, 0x00, 0x01]);
    for dx in [0i16, 1000, 0, -1000] {
        be16i(&mut glyf, dx);
    }
    for dy in [0i16, 0, 1000, 0] {
        be16i(&mut glyf, dy);
    }
    let glyph_len = glyf.len() as u16;
    assert_eq!(glyph_len % 2, 0);
    be16i(&mut glyf, 2);
    be16i(&mut glyf, 0);
    be16i(&mut glyf, 0);
    be16i(&mut glyf, 1000);
    be16i(&mut glyf, 1000);
    be16(&mut glyf, 3);
    be16(&mut glyf, 7);
    be16(&mut glyf, 0);
    glyf.extend_from_slice(&[0x01; 8]);
    for dx in [0i16, 1000, 0, -1000, 250, 0, 500, 0] {
        be16i(&mut glyf, dx);
    }
    for dy in [0i16, 0, 1000, 0, -750, 500, 0, -500] {
        be16i(&mut glyf, dy);
    }
    let ring_end = glyf.len() as u16;
    assert_eq!(ring_end % 2, 0);

    let mut head = Vec::new();
    be32(&mut head, 0x0001_0000);
    be32(&mut head, 0x0001_0000);
    be32(&mut head, 0);
    be32(&mut head, 0x5F0F_3CF5);
    be16(&mut head, 0);
    be16(&mut head, 1000);
    head.extend_from_slice(&[0u8; 16]);
    be16i(&mut head, 0);
    be16i(&mut head, 0);
    be16i(&mut head, 1000);
    be16i(&mut head, 1000);
    be16(&mut head, 0);
    be16(&mut head, 8);
    be16i(&mut head, 2);
    be16i(&mut head, 0);
    be16i(&mut head, 0);
    assert_eq!(head.len(), 54);

    let mut hhea = Vec::new();
    be32(&mut hhea, 0x0001_0000);
    be16i(&mut hhea, 800);
    be16i(&mut hhea, -200);
    be16i(&mut hhea, 90);
    be16(&mut hhea, 1100);
    hhea.extend_from_slice(&[0u8; 22]);
    be16(&mut hhea, 4);
    assert_eq!(hhea.len(), 36);

    let mut hmtx = Vec::new();
    for advance in [500u16, 1100, 250, 1200] {
        be16(&mut hmtx, advance);
        be16i(&mut hmtx, 0);
    }

    let mut loca = Vec::new();
    for offset in [0u16, 0, glyph_len / 2, glyph_len / 2, ring_end / 2] {
        be16(&mut loca, offset);
    }

    let mut maxp = Vec::new();
    be32(&mut maxp, 0x0000_5000);
    be16(&mut maxp, 4);

    let tables: [(&[u8; 4], Vec<u8>); 7] = [
        (b"cmap", cmap),
        (b"glyf", glyf),
        (b"head", head),
        (b"hhea", hhea),
        (b"hmtx", hmtx),
        (b"loca", loca),
        (b"maxp", maxp),
    ];
    let mut font = Vec::new();
    be32(&mut font, 0x0001_0000);
    be16(&mut font, 7);
    be16(&mut font, 64);
    be16(&mut font, 2);
    be16(&mut font, 48);
    let mut offset = 12 + 16 * tables.len() as u32;
    for (tag, data) in &tables {
        font.extend_from_slice(&tag[..]);
        be32(&mut font, 0);
        be32(&mut font, offset);
        be32(&mut font, data.len() as u32);
        offset += (data.len() as u32 + 3) / 4 * 4;
    }
    for (_, data) in &tables {
        font.extend_from_slice(data);
        while font.len() % 4 != 0 {
            font.push(0);
        }
    }
    font
}

/// Writes down what a face draws.
struct Recorder(Vec<PathCommand>);

impl ttf_parser::OutlineBuilder for Recorder {
    fn move_to(&mut self, x: f32, y: f32) {
        self.0.push(PathCommand::MoveTo(Vec2::new(x, y)));
    }

    fn line_to(&mut self, x: f32, y: f32) {
        self.0.push(PathCommand::LineTo(Vec2::new(x, y)));
    }

    fn quad_to(&mut self, x1: f32, y1: f32, x: f32, y: f32) {
        self.0.push(PathCommand::QuadTo(Vec2::new(x1, y1), Vec2::new(x, y)));
    }

    fn curve_to(&mut self, x1: f32, y1: f32, x2: f32, y2: f32, x: f32, y: f32) {
        self.0.push(PathCommand::CurveTo(Vec2::new(x1, y1), Vec2::new(x2, y2), Vec2::new(x, y)));
    }

    fn close(&mut self) {
        self.0.push(PathCommand::Close);
    }
}

fn drawn(font: &Font, glyph_id: GlyphId) -> Option<Vec<PathCommand>> {
    let mut recorder = Recorder(Vec::new());
    font.face().outline_glyph(glyph_id, &mut recorder)?;
    Some(recorder.0)
}

fn mesh_2d(font: &Font, c: char, subdivisions: u8) -> Result<Mesh2D, FontMeshError> {
    let glyph = font.glyph_by_char(c)?;
    let commands = drawn(font, glyph.glyph_id());
    glyph.with_subdivisions(subdivisions).to_mesh_2d(&commands)
}

fn glyph_to_mesh_2d(font: &Font, c: char) -> Result<Mesh2D, FontMeshError> {
    let commands = font.glyph_by_char(c).ok().and_then(|g| drawn(font, g.glyph_id()));
    font.glyph_to_mesh_2d(c, &commands)
}

fn glyph_to_mesh_3d(font: &Font, c: char, depth: f32) -> Result<Mesh3D, FontMeshError> {
    let commands = font.glyph_by_char(c).ok().and_then(|g| drawn(font, g.glyph_id()));
    font.glyph_to_mesh_3d(c, &commands, Vec3::new(0.0, 0.0, depth))
}

#[test]
fn test_font_loading() {
    let data = tiny_font();
    let font = Font::from_bytes(&data).expect("Failed to load font");
    assert_eq!(font.units_per_em(), 1000);
}

#[test]
fn test_outline_extraction() {
    let data = tiny_font();
    let font = Font::from_bytes(&data).expect("Failed to load font");
    let glyph = font.glyph_by_char('A').unwrap();
    let outline = glyph.outline(&drawn(&font, glyph.glyph_id())).unwrap();
    assert_eq!(outline.contours.len(), 1);
    assert_eq!(outline.contours[0].points.len(), 5);
    assert!(outline.contours[0].closed);
}

#[test]
fn test_2d_mesh_structure() {
    let data = tiny_font();
    let font = Font::from_bytes(&data).expect("Failed to load font");

    for c in "ABCDEFGHIJKLMNOPQRSTUVWXYZabcdefghijklmnopqrstuvwxyz0123456789".chars() {
        let mesh = glyph_to_mesh_2d(&font, c)
            .unwrap_or_else(|_| panic!("Failed to generate mesh for '{}'", c));

        assert!(mesh.vertices.len() > 0, "Mesh for '{}' should have vertices", c);
        assert!(mesh.indices.len() % 3 == 0, "Indices for '{}' should be multiple of 3", c);

        for &idx in &mesh.indices {
            assert!(
                (idx as usize) < mesh.vertices.len(),
                "Index {} out of bounds for character '{}' with {} vertices",
                idx,
                c,
                mesh.vertices.len()
            );
        }

        for vertex in &mesh.vertices {
            assert!(vertex[0].is_finite(), "Vertex x should be finite for '{}'", c);
            assert!(vertex[1].is_finite(), "Vertex y should be finite for '{}'", c);
        }
    }
}

#[test]
fn test_3d_mesh_structure() {
    let data = tiny_font();
    let font = Font::from_bytes(&data).expect("Failed to load font");

    for c in "ABCXYZ123".chars() {
        for depth in [1.0, 5.0, 10.0] {
            let mesh = glyph_to_mesh_3d(&font, c, depth)
                .unwrap_or_else(|_| panic!("Failed to generate 3D mesh for '{}'", c));

            assert!(mesh.vertices.len() > 0, "3D Mesh for '{}' should have vertices", c);
            assert_eq!(
                mesh.vertices.len(),
                mesh.normals.len(),
                "Vertices and normals count should match for '{}'",
                c
            );
            assert!(mesh.indices.len() % 3 == 0, "Indices for '{}' should be multiple of 3", c);

            for &idx in &mesh.indices {
                assert!(
                    (idx as usize) < mesh.vertices.len(),
                    "Index {} out of bounds for character '{}' with {} vertices",
                    idx,
                    c,
                    mesh.vertices.len()
                );
            }

            for normal in &mesh.normals {
                let length_sq =
                    normal[0] * normal[0] + normal[1] * normal[1] + normal[2] * normal[2];
                let length = length_sq.sqrt();
                assert!(
                    (length - 1.0).abs() < 0.01,
                    "Normal should be normalized for '{}', got length {}",
                    c,
                    length
                );
            }

            for vertex in &mesh.vertices {
                assert!(vertex[0].is_finite(), "Vertex x should be finite for '{}'", c);
                assert!(vertex[1].is_finite(), "Vertex y should be finite for '{}'", c);
                assert!(vertex[2].is_finite(), "Vertex z should be finite for '{}'", c);

                let half_depth = depth / 2.0;
                assert!(
                    vertex[2] >= -half_depth - 0.01 && vertex[2] <= half_depth + 0.01,
                    "Vertex z {} should be within depth range [-{}, {}] for '{}'",
                    vertex[2],
                    half_depth,
                    half_depth,
                    c
                );
            }
        }
    }
}

#[test]
fn test_quality_levels() {
    let data = tiny_font();
    let font = Font::from_bytes(&data).expect("Failed to load font");

    let low = mesh_2d(&font, 'S', 10).unwrap();
    let normal = mesh_2d(&font, 'S', 20).unwrap();
    let high = mesh_2d(&font, 'S', 50).unwrap();

    assert!(
        low.vertices.len() <= normal.vertices.len(),
        "Lower subdivisions should have <= vertices than normal"
    );
    assert!(
        normal.vertices.len() <= high.vertices.len(),
        "Default subdivisions should have <= vertices than high"
    );

    println!("Quality comparison for 'S':");
    println!(
        "  subdivisions=10: {} vertices, {} triangles",
        low.vertices.len(),
        low.triangle_count()
    );
    println!(
        "  subdivisions=20: {} vertices, {} triangles",
        normal.vertices.len(),
        normal.triangle_count()
    );
    println!(
        "  subdivisions=50: {} vertices, {} triangles",
        high.vertices.len(),
        high.triangle_count()
    );
}

#[test]
fn test_direct_access() {
    let data = tiny_font();
    let font = Font::from_bytes(&data).expect("Failed to load font");
    let mesh = glyph_to_mesh_3d(&font, 'A', 5.0).unwrap();

    assert!(mesh.vertices.len() > 0, "Mesh should have vertices");
    assert_eq!(mesh.normals.len(), mesh.vertices.len(), "Should have one normal per vertex");
    assert_eq!(mesh.indices.len() % 3, 0, "Indices should be multiple of 3");

    for vertex in mesh.vertices.iter().take(5) {
        assert!(
            vertex.x.is_finite() && vertex.y.is_finite() && vertex.z.is_finite(),
            "Vertex values should be finite"
        );
    }

    for normal in mesh.normals.iter().take(5) {
        let length_sq = normal.length_squared();
        assert!((length_sq.sqrt() - 1.0).abs() < 0.01, "Normal should be normalized");
    }

    for chunk in mesh.indices.chunks(3).take(5) {
        let (i0, i1, i2) = (chunk[0], chunk[1], chunk[2]);
        assert!((i0 as usize) < mesh.vertices.len(), "Face index 0 should be in bounds");
        assert!((i1 as usize) < mesh.vertices.len(), "Face index 1 should be in bounds");
        assert!((i2 as usize) < mesh.vertices.len(), "Face index 2 should be in bounds");
    }
}

#[test]
fn test_mesh_topology() {
    let data = tiny_font();
    let font = Font::from_bytes(&data).expect("Failed to load font");

    let test_chars = vec![
        ('A', "single contour with hole"),
        ('B', "multiple holes"),
        ('O', "single hole"),
        ('I', "simple vertical"),
        ('8', "two holes"),
    ];

    for (c, description) in test_chars {
        let mesh = glyph_to_mesh_2d(&font, c).unwrap();

        println!(
            "Character '{}' ({}): {} vertices, {} triangles",
            c,
            description,
            mesh.vertices.len(),
            mesh.triangle_count()
        );

        assert!(mesh.triangle_count() >= 1, "Character '{}' should have at least 1 triangle", c);

        let v = mesh.vertices.len();
        let f = mesh.triangle_count();

        assert!(v >= 3, "Should have at least 3 vertices for '{}'", c);
        assert!(f >= 1, "Should have at least 1 face for '{}'", c);
    }
}

#[test]
fn test_special_characters() {
    let data = tiny_font();
    let font = Font::from_bytes(&data).expect("Failed to load font");

    let special = vec!['.', ',', '!', '?', '@', '#', '$', '%', '&', '*'];

    for c in special {
        match glyph_to_mesh_2d(&font, c) {
            Ok(mesh) => {
                assert!(mesh.vertices.len() > 0, "Special char '{}' should have vertices", c);
                println!(
                    "Character '{}': {} vertices, {} triangles",
                    c,
                    mesh.vertices.len(),
                    mesh.triangle_count()
                );
            }
            Err(e) => {
                println!("Character '{}' not available in font: {:?}", c, e);
            }
        }
    }
}

#[test]
fn test_depth_consistency() {
    let data = tiny_font();
    let font = Font::from_bytes(&data).expect("Failed to load font");

    let depths = vec![0.5, 1.0, 2.0, 5.0, 10.0];
    let mut vertex_counts = Vec::new();

    for &depth in &depths {
        let mesh = glyph_to_mesh_3d(&font, 'M', depth).unwrap();
        vertex_counts.push(mesh.vertices.len());

        for vertex in &mesh.vertices {
            let half_depth = depth / 2.0;
            assert!(
                vertex[2] >= -half_depth - 0.01 && vertex[2] <= half_depth + 0.01,
                "Vertex z {} should be within depth range [-{}, {}]",
                vertex[2],
                half_depth,
                half_depth
            );
        }

        println!(
            "Depth {}: {} vertices, {} triangles",
            depth,
            mesh.vertices.len(),
            mesh.triangle_count()
        );
    }

    let min_count = *vertex_counts.iter().min().unwrap();
    let max_count = *vertex_counts.iter().max().unwrap();
    println!("Vertex count range: {} to {}", min_count, max_count);
    assert_eq!(min_count, max_count);
}

#[test]
fn test_error_handling() {
    let data = tiny_font();
    let font = Font::from_bytes(&data).expect("Failed to load font");

    let rare_chars = vec!['\u{1F600}', '\u{2603}', '\u{FFFF}'];

    for c in rare_chars {
        match glyph_to_mesh_2d(&font, c) {
            Ok(_) => {
                println!("Character U+{:04X} is available", c as u32);
            }
            Err(e) => {
                println!("Character U+{:04X} not available: {:?}", c as u32, e);
                assert!(
                    format!("{:?}", e).contains("GlyphNotFound")
                        || format!("{:?}", e).contains("NoOutline"),
                    "Error should be GlyphNotFound or NoOutline"
                );
            }
        }
    }
}

#[test]
fn a_glyph_with_a_hole_is_meshed_around_it() {
    let data = tiny_font();
    let font = Font::from_bytes(&data).unwrap();
    let mesh = glyph_to_mesh_2d(&font, 'O').unwrap();
    let area: f32 = mesh
        .indices
        .chunks(3)
        .map(|t| {
            let a = mesh.vertices[t[0] as usize];
            let b = mesh.vertices[t[1] as usize];
            let c = mesh.vertices[t[2] as usize];
            ((b - a).perp_dot(c - a) * 0.5).abs()
        })
        .sum();
    assert!((area - 0.75).abs() < 1e-5);
    let glyph = font.glyph_by_char('O').unwrap();
    assert_eq!(glyph.glyph_id(), GlyphId(3));
    assert_eq!(glyph.advance(), Vec2::splat(1200.0f32 / 1000.0));
    let solid = glyph_to_mesh_3d(&font, 'O', 1.0).unwrap();
    assert_eq!(solid.vertices.len(), 2 * mesh.vertices.len() + 4 * 8);
}

#[test]
fn a_font_gives_its_measures_in_em_units() {
    let data = tiny_font();
    let font = Font::from_bytes(&data).unwrap();
    assert_eq!(font.units_per_em(), 1000);
    assert_eq!(font.face().units_per_em(), 1000);
    assert_eq!(font.ascender(), Vec2::splat(800.0f32 / 1000.0));
    assert_eq!(font.descender(), Vec2::splat(-200.0f32 / 1000.0));
    assert_eq!(font.line_gap(), Vec2::splat(90.0f32 / 1000.0));
}

#[test]
fn a_glyph_is_found_by_its_character() {
    let data = tiny_font();
    let font = Font::from_bytes(&data).unwrap();
    let glyph = font.glyph_by_char('A').unwrap();
    assert_eq!(glyph.character(), 'A');
    assert_eq!(glyph.glyph_id(), GlyphId(1));
    assert_eq!(glyph.advance(), Vec2::splat(1100.0f32 / 1000.0));
    let scale = 1.0f32 / 1000.0;
    assert_eq!(
        glyph.bounds(),
        Some((Vec2::new(0.0, 0.0), Vec2::new(1000.0 * scale, 1000.0 * scale)))
    );
    assert_eq!(glyph.face().units_per_em(), 1000);

    let space = font.glyph_by_char(' ').unwrap();
    assert_eq!(space.glyph_id(), GlyphId(2));
    assert_eq!(space.advance(), Vec2::splat(0.25));
    assert_eq!(space.bounds(), None);
}

#[test]
fn a_character_that_the_font_lacks_is_not_found() {
    let data = tiny_font();
    let font = Font::from_bytes(&data).unwrap();
    for c in ['\u{7F}', '\u{E9}', '\u{1F600}', '\u{2603}', '\u{FFFF}'] {
        match font.glyph_by_char(c) {
            Err(FontMeshError::GlyphNotFound(missing)) => assert_eq!(missing, c),
            Err(other) => panic!("unexpected: {other:?}"),
            Ok(_) => panic!("found"),
        }
        assert_eq!(
            font.glyph_to_mesh_2d(c, &None).unwrap_err(),
            FontMeshError::GlyphNotFound(c)
        );
        assert_eq!(
            font.glyph_to_mesh_3d(c, &None, Vec3::Z).unwrap_err(),
            FontMeshError::GlyphNotFound(c)
        );
    }
}

#[test]
fn a_glyph_by_number_keeps_the_character_it_is_given() {
    let data = tiny_font();
    let font = Font::from_bytes(&data).unwrap();
    let glyph = font.glyph_by_id(GlyphId(1), 'z');
    assert_eq!(glyph.character(), 'z');
    assert_eq!(glyph.glyph_id(), GlyphId(1));
    assert_eq!(glyph.advance(), Vec2::splat(1100.0f32 / 1000.0));
    let beyond = font.glyph_by_id(GlyphId(40), 'q');
    assert_eq!(beyond.advance(), Vec2::splat(0.0));
    assert_eq!(beyond.bounds(), None);
}

#[test]
fn a_glyph_outline_comes_from_what_the_face_draws() {
    let data = tiny_font();
    let font = Font::from_bytes(&data).unwrap();
    let glyph = font.glyph_by_char('A').unwrap();
    let commands = drawn(&font, glyph.glyph_id());
    let outline = glyph.outline(&commands).unwrap();
    assert_eq!(outline.contours.len(), 1);
    let points: Vec<(Vec2, bool)> =
        outline.contours[0].points.iter().map(|p| (p.point, p.on_curve)).collect();
    let one = 1000.0 * (1.0f32 / 1000.0);
    assert_eq!(
        points,
        [
            (Vec2::new(0.0, 0.0), true),
            (Vec2::new(one, 0.0), true),
            (Vec2::new(one, one), false),
            (Vec2::new(0.0, one), true),
            (Vec2::new(0.0, 0.0), true),
        ]
    );

    let linear = glyph.linearize(&commands).unwrap();
    assert_eq!(linear.contours.len(), 1);
    assert_eq!(linear.contours[0].points.len(), 3 + 5);
    assert!(linear.contours[0].points.iter().all(|p| p.on_curve));
    let fine = glyph.linearize_with(&commands, 50).unwrap();
    assert_eq!(fine.contours[0].points.len(), 3 + 13);
}

#[test]
fn a_glyph_becomes_a_flat_mesh_and_a_solid() {
    let data = tiny_font();
    let font = Font::from_bytes(&data).unwrap();
    let glyph = font.glyph_by_char('A').unwrap();
    let commands = drawn(&font, glyph.glyph_id());

    let flat = glyph.to_mesh_2d(&commands).unwrap();
    assert!(flat.vertices.len() >= 8);
    assert_eq!(flat.indices.len() % 3, 0);
    assert!(flat.indices.iter().all(|&i| (i as usize) < flat.vertices.len()));
    assert!(flat.vertices.iter().all(|v| v.is_finite()));
    let by_font = font.glyph_to_mesh_2d('A', &commands).unwrap();
    assert_eq!(by_font.vertices, flat.vertices);
    assert_eq!(by_font.indices, flat.indices);

    for depth in [1.0f32, 5.0, 10.0] {
        let solid = glyph.to_mesh_3d(&commands, Vec3::new(0.0, 0.0, depth)).unwrap();
        assert_eq!(solid.vertices.len(), solid.normals.len());
        assert_eq!(solid.vertices.len(), 2 * flat.vertices.len() + 4 * 8);
        assert_eq!(solid.indices.len() % 3, 0);
        assert!(solid.indices.iter().all(|&i| (i as usize) < solid.vertices.len()));
        for normal in &solid.normals {
            assert!((normal.length() - 1.0).abs() < 0.01);
        }
        for vertex in &solid.vertices {
            assert!(vertex.is_finite());
            assert!(vertex.z >= -depth / 2.0 - 0.01 && vertex.z <= depth / 2.0 + 0.01);
        }
        let by_font =
            font.glyph_to_mesh_3d('A', &commands, Vec3::new(0.0, 0.0, depth)).unwrap();
        assert_eq!(by_font.vertices, solid.vertices);
    }
}

#[test]
fn quality_never_lowers_the_vertex_count_of_a_curved_glyph() {
    let data = tiny_font();
    let font = Font::from_bytes(&data).unwrap();
    let glyph = font.glyph_by_char('A').unwrap();
    let commands = drawn(&font, glyph.glyph_id());
    let low = glyph.with_subdivisions(10).to_mesh_2d(&commands).unwrap();
    let normal = glyph.with_subdivisions(20).to_mesh_2d(&commands).unwrap();
    let high = glyph.with_subdivisions(99).with_subdivisions(50).to_mesh_2d(&commands).unwrap();
    assert!(low.vertices.len() <= normal.vertices.len());
    assert!(normal.vertices.len() <= high.vertices.len());
    assert!(low.vertices.len() < high.vertices.len());
    let solid = glyph
        .with_subdivisions(10)
        .to_mesh_3d(&commands, Vec3::new(0.0, 0.0, 2.0))
        .unwrap();
    assert_eq!(solid.vertices.len(), 2 * low.vertices.len() + 4 * 6);
}

#[test]
fn a_space_has_no_outline() {
    let data = tiny_font();
    let font = Font::from_bytes(&data).unwrap();
    let space = font.glyph_by_char(' ').unwrap();
    let commands = drawn(&font, space.glyph_id());
    assert!(commands.is_none());
    assert_eq!(space.outline(&commands).unwrap_err(), FontMeshError::NoOutline);
    assert_eq!(space.linearize(&commands).unwrap_err(), FontMeshError::NoOutline);
    assert_eq!(space.linearize_with(&commands, 50).unwrap_err(), FontMeshError::NoOutline);
    assert_eq!(space.to_mesh_2d(&commands).unwrap_err(), FontMeshError::NoOutline);
    assert_eq!(space.to_mesh_3d(&commands, Vec3::Z).unwrap_err(), FontMeshError::NoOutline);
    assert_eq!(font.glyph_to_mesh_2d(' ', &commands).unwrap_err(), FontMeshError::NoOutline);
    assert_eq!(
        font.glyph_to_mesh_3d(' ', &commands, Vec3::Z).unwrap_err(),
        FontMeshError::NoOutline
    );
}
