use surface_geometry::buffer::{
    TriangleDefinition, VertexAttributeDescriptor, VertexAttributeUsage, VertexBuffer,
    VertexFetchError,
};
use surface_geometry::surface::{RawMesh, StaticVertex, SurfaceData, TriangleDirs};
use surface_geometry::texture::{TextureData, TextureKind, TextureMinificationFilter};

fn f3(b: [u32; 3]) -> [f32; 3] {
    [f32::from_bits(b[0]), f32::from_bits(b[1]), f32::from_bits(b[2])]
}

fn b3(v: [f32; 3]) -> [u32; 3] {
    [v[0].to_bits(), v[1].to_bits(), v[2].to_bits()]
}

fn face_normal(a: [u32; 3], b: [u32; 3], c: [u32; 3]) -> [u32; 3] {
    let (a, b, c) = (f3(a), f3(b), f3(c));
    let e1 = [b[0] - a[0], b[1] - a[1], b[2] - a[2]];
    let e2 = [c[0] - a[0], c[1] - a[1], c[2] - a[2]];
    let n = [e1[1] * e2[2] - e1[2] * e2[1], e1[2] * e2[0] - e1[0] * e2[2], e1[0] * e2[1] - e1[1] * e2[0]];
    let len = (n[0] * n[0] + n[1] * n[1] + n[2] * n[2]).sqrt();
    b3([n[0] / len, n[1] / len, n[2] / len])
}

#[test]
fn normals_of_unit_quad_face_plus_z() {
    let mut quad = SurfaceData::make_unit_xy_quad();
    quad.vertex_buffer.write(0, VertexAttributeUsage::Normal, &[0, 0, 0]).unwrap();
    quad.calculate_normals(face_normal).unwrap();
    for i in 0..4 {
        assert_eq!(f3(quad.vertex_buffer.read_3(i, VertexAttributeUsage::Normal).unwrap()), [0.0, 0.0, 1.0]);
    }
}

#[test]
fn normals_last_triangle_wins() {
    let v = |p: [f32; 3]| StaticVertex::from_pos_uv_normal(b3(p), [0, 0], [0, 0, 0]);
    let raw = RawMesh {
        vertices: vec![v([0.0, 0.0, 0.0]), v([1.0, 0.0, 0.0]), v([0.0, 1.0, 0.0]), v([0.0, 0.0, 1.0]), v([5.0, 5.0, 5.0])],
        triangles: vec![TriangleDefinition([0, 1, 2]), TriangleDefinition([0, 3, 1])],
    };
    let mut data = SurfaceData::from_raw_mesh(raw, true);
    data.calculate_normals(face_normal).unwrap();
    let n = |i| f3(data.vertex_buffer.read_3(i, VertexAttributeUsage::Normal).unwrap());
    assert_eq!(n(2), [0.0, 0.0, 1.0]);
    assert_eq!(n(0), [0.0, 1.0, 0.0]);
    assert_eq!(n(1), [0.0, 1.0, 0.0]);
    assert_eq!(n(4), [0.0, 0.0, 0.0]);
}

#[test]
fn normals_fail_without_change_on_bad_index() {
    let v = StaticVertex::from_pos_uv_normal([0, 0, 0], [0, 0], [1, 2, 3]);
    let raw = RawMesh { vertices: vec![v, v], triangles: vec![TriangleDefinition([0, 1, 7])] };
    let mut data = SurfaceData::from_raw_mesh(raw, true);
    let before = data.vertex_buffer.raw_data().to_vec();
    assert_eq!(data.calculate_normals(face_normal), Err(VertexFetchError::IndexOutOfRange(7)));
    assert_eq!(data.vertex_buffer.raw_data(), &before[..]);
}

#[test]
fn normals_fail_without_normal_attribute() {
    let layout = [VertexAttributeDescriptor { usage: VertexAttributeUsage::Position, size: 3 }];
    let vb = VertexBuffer::new(3, &layout, vec![0; 9]).unwrap();
    let g = surface_geometry::buffer::GeometryBuffer::new(vec![TriangleDefinition([0, 1, 2])]);
    let mut data = SurfaceData::new(vb, g, true);
    assert_eq!(
        data.calculate_normals(face_normal),
        Err(VertexFetchError::NoSuchAttribute(VertexAttributeUsage::Normal))
    );
}

#[test]
fn transform_round_trip_and_handedness_kept() {
    let mut cube = SurfaceData::make_unit_cube();
    cube.vertex_buffer.write(0, VertexAttributeUsage::Tangent, &[0, 0, 0, (-1.0f32).to_bits()]).unwrap();
    let initial = cube.vertex_buffer.raw_data().to_vec();
    let scale = |p: [u32; 3]| {
        let p = f3(p);
        b3([p[0] * 2.0 + 1.0, p[1] * 4.0, p[2] * 8.0])
    };
    let inverse_scale_dir = |d: [u32; 3]| {
        let d = f3(d);
        b3([d[0] * 0.5, d[1] * 0.25, d[2] * 0.125])
    };
    cube.transform_geometry(scale, inverse_scale_dir).unwrap();
    let p = f3(cube.vertex_buffer.read_3(2, VertexAttributeUsage::Position).unwrap());
    assert_eq!(p, [2.0, 2.0, 4.0]);
    let n = f3(cube.vertex_buffer.read_3(2, VertexAttributeUsage::Normal).unwrap());
    assert_eq!(n, [0.0, 0.0, 0.125]);
    let t = cube.vertex_buffer.read_4(0, VertexAttributeUsage::Tangent).unwrap();
    assert_eq!(f32::from_bits(t[3]), -1.0);
    let unscale = |p: [u32; 3]| {
        let p = f3(p);
        b3([(p[0] - 1.0) / 2.0, p[1] / 4.0, p[2] / 8.0])
    };
    let dir_back = |d: [u32; 3]| {
        let d = f3(d);
        b3([d[0] * 2.0, d[1] * 4.0, d[2] * 8.0])
    };
    cube.transform_geometry(unscale, dir_back).unwrap();
    assert_eq!(cube.vertex_buffer.raw_data(), &initial[..]);
}

#[test]
fn transform_needs_tangents() {
    let layout = [
        VertexAttributeDescriptor { usage: VertexAttributeUsage::Position, size: 3 },
        VertexAttributeDescriptor { usage: VertexAttributeUsage::Normal, size: 3 },
    ];
    let vb = VertexBuffer::new(1, &layout, vec![1, 2, 3, 4, 5, 6]).unwrap();
    let mut data = SurfaceData::new(vb, surface_geometry::buffer::GeometryBuffer::new(vec![]), true);
    let r = data.transform_geometry(|p| p, |d| d);
    assert_eq!(r, Err(VertexFetchError::NoSuchAttribute(VertexAttributeUsage::Tangent)));
    assert_eq!(data.vertex_buffer.raw_data(), &[1, 2, 3, 4, 5, 6]);
}

#[test]
fn tangents_collect_contributions_per_corner() {
    let mut quad = SurfaceData::make_unit_xy_quad();
    let dirs = |_: [u32; 3], _: [u32; 3], _: [u32; 3], _: [u32; 2], _: [u32; 2], _: [u32; 2]| -> TriangleDirs {
        ([1.0f32.to_bits(), 0, 0], [0, 1.0f32.to_bits(), 0])
    };
    let finish = |_: [u32; 3], l: Vec<TriangleDirs>| -> [u32; 4] {
        [l.len() as u32, 0, 0, 1.0f32.to_bits()]
    };
    quad.calculate_tangents(dirs, finish).unwrap();
    let count = |i| quad.vertex_buffer.read_4(i, VertexAttributeUsage::Tangent).unwrap()[0];
    // Vertices 0 and 2 belong to both triangles, 1 and 3 to one.
    assert_eq!([count(0), count(1), count(2), count(3)], [2, 1, 2, 1]);
    assert_eq!(quad.vertex_buffer.read_3(0, VertexAttributeUsage::Normal).unwrap(), [0, 0, 1.0f32.to_bits()]);
}

#[test]
fn tangents_fail_without_texture_coordinates() {
    let layout = [
        VertexAttributeDescriptor { usage: VertexAttributeUsage::Position, size: 3 },
        VertexAttributeDescriptor { usage: VertexAttributeUsage::Normal, size: 3 },
        VertexAttributeDescriptor { usage: VertexAttributeUsage::Tangent, size: 4 },
    ];
    let vb = VertexBuffer::new(3, &layout, vec![0; 30]).unwrap();
    let g = surface_geometry::buffer::GeometryBuffer::new(vec![TriangleDefinition([0, 1, 2])]);
    let mut data = SurfaceData::new(vb, g, true);
    let r = data.calculate_tangents(
        |_, _, _, _, _, _| ([0, 0, 0], [0, 0, 0]),
        |_, _| [0, 0, 0, 0],
    );
    assert_eq!(r, Err(VertexFetchError::NoSuchAttribute(VertexAttributeUsage::TexCoord0)));
    assert_eq!(data.vertex_buffer.raw_data(), &[0u32; 30][..]);
}

#[test]
fn passes_on_empty_data_succeed_without_change() {
    let mut data = SurfaceData::default();
    assert_eq!(data.calculate_normals(face_normal), Ok(()));
    assert_eq!(data.transform_geometry(|p| p, |d| d), Ok(()));
    let r = data.calculate_tangents(|_, _, _, _, _, _| ([0, 0, 0], [0, 0, 0]), |_, _| [0, 0, 0, 0]);
    assert_eq!(r, Ok(()));
    assert_eq!(data.vertex_buffer.vertex_count(), 0);
}

#[test]
fn normals_without_triangles_read_nothing() {
    let layout = [VertexAttributeDescriptor { usage: VertexAttributeUsage::TexCoord0, size: 2 }];
    let vb = VertexBuffer::new(2, &layout, vec![1, 2, 3, 4]).unwrap();
    let mut data = SurfaceData::new(vb, surface_geometry::buffer::GeometryBuffer::new(vec![]), true);
    assert_eq!(data.calculate_normals(face_normal), Ok(()));
    assert_eq!(data.vertex_buffer.raw_data(), &[1, 2, 3, 4]);
    assert_eq!(
        data.transform_geometry(|p| p, |d| d),
        Err(VertexFetchError::NoSuchAttribute(VertexAttributeUsage::Position))
    );
}

#[test]
fn tangents_without_triangles_need_no_texture_coordinates() {
    let layout = [
        VertexAttributeDescriptor { usage: VertexAttributeUsage::Normal, size: 3 },
        VertexAttributeDescriptor { usage: VertexAttributeUsage::Tangent, size: 4 },
    ];
    let vb = VertexBuffer::new(1, &layout, vec![0, 0, 1, 9, 9, 9, 9]).unwrap();
    let mut data = SurfaceData::new(vb, surface_geometry::buffer::GeometryBuffer::new(vec![]), true);
    let finish = |_: [u32; 3], l: Vec<TriangleDirs>| -> [u32; 4] { [l.len() as u32, 0, 0, 7] };
    data.calculate_tangents(|_, _, _, _, _, _| ([0, 0, 0], [0, 0, 0]), finish).unwrap();
    assert_eq!(data.vertex_buffer.read_4(0, VertexAttributeUsage::Tangent), Ok([0, 0, 0, 7]));
    assert_eq!(data.vertex_buffer.read_3(0, VertexAttributeUsage::Normal), Ok([0, 0, 1]));
}

#[test]
fn tangents_twice_give_the_same_tangents() {
    let mut quad = SurfaceData::make_unit_xy_quad();
    let dirs = |a: [u32; 3], b: [u32; 3], _: [u32; 3], _: [u32; 2], _: [u32; 2], _: [u32; 2]| -> TriangleDirs {
        ([a[0] ^ b[0], a[1] ^ b[1], 0], [0, 0, 0])
    };
    let finish = |n: [u32; 3], l: Vec<TriangleDirs>| -> [u32; 4] {
        let x = l.iter().fold(0u32, |acc, d| acc.wrapping_add(d.0[0]).wrapping_add(d.0[1]));
        [x, n[2], l.len() as u32, 1]
    };
    quad.calculate_tangents(dirs, finish).unwrap();
    let first = quad.vertex_buffer.raw_data().to_vec();
    quad.calculate_tangents(dirs, finish).unwrap();
    assert_eq!(quad.vertex_buffer.raw_data(), &first[..]);
}

#[test]
fn centered_quad_faces_minus_z() {
    let quad = SurfaceData::make_centered_xy_quad();
    assert_eq!(quad.vertex_buffer.vertex_count(), 4);
    assert_eq!(f3(quad.vertex_buffer.read_3(0, VertexAttributeUsage::Position).unwrap()), [-0.5, 0.5, 0.0]);
    assert_eq!(f3(quad.vertex_buffer.read_3(3, VertexAttributeUsage::Normal).unwrap()), [0.0, 0.0, -1.0]);
}

#[test]
fn render_target_and_texture_settings() {
    let mut t = TextureData::new_render_target(320, 240);
    assert_eq!(t.kind(), TextureKind::Rectangle { width: 320, height: 240 });
    assert_eq!(f32::from_bits(t.anisotropy_level()), 1.0);
    t.set_anisotropy_level(0.5f32.to_bits());
    assert_eq!(f32::from_bits(t.anisotropy_level()), 1.0);
    t.set_anisotropy_level(8.0f32.to_bits());
    assert_eq!(f32::from_bits(t.anisotropy_level()), 8.0);
    t.set_anisotropy_level(f32::NAN.to_bits());
    assert_eq!(f32::from_bits(t.anisotropy_level()), 1.0);
    t.set_anisotropy_level((-4.0f32).to_bits());
    assert_eq!(f32::from_bits(t.anisotropy_level()), 1.0);
    t.set_minification_filter(TextureMinificationFilter::Linear);
    assert_eq!(t.minification_filter(), TextureMinificationFilter::Linear);
    t.set_path(String::from("target.png"));
    assert_eq!(t.path, "target.png");
    assert_eq!(t.mip_count(), 1);
}
