use surface_geometry::buffer::{
    GeometryBuffer, TriangleDefinition, ValidationError, VertexAttributeDescriptor,
    VertexAttributeUsage, VertexBuffer, VertexFetchError,
};
use surface_geometry::primitives::{PrimitivePart, PrimitiveSample};
use surface_geometry::surface::{RawMesh, StaticVertex, SurfaceData, ONE, ZERO};

fn bits(x: f32) -> u32 {
    x.to_bits()
}

fn point(sample: PrimitiveSample) -> StaticVertex {
    let x = sample.column as f32;
    let y = sample.row as f32;
    StaticVertex::from_pos_uv_normal(
        [bits(x), bits(y), bits(sample.corner as f32)],
        [0, 0],
        [ZERO, ONE, ZERO],
    )
}

#[test]
fn unit_cube_has_24_vertices_and_12_triangles() {
    let cube = SurfaceData::make_unit_cube();
    assert_eq!(cube.vertex_buffer.vertex_count(), 24);
    assert_eq!(cube.geometry_buffer.len(), 12);
    assert!(cube.is_procedural());
}

#[test]
fn unit_cube_front_face_normals_are_plus_z() {
    let cube = SurfaceData::make_unit_cube();
    for i in 0..4 {
        let n = cube.vertex_buffer.read_3(i, VertexAttributeUsage::Normal).unwrap();
        let n = [f32::from_bits(n[0]), f32::from_bits(n[1]), f32::from_bits(n[2])];
        assert_eq!(n, [0.0, 0.0, 1.0]);
        let p = cube.vertex_buffer.read_3(i, VertexAttributeUsage::Position).unwrap();
        assert_eq!(f32::from_bits(p[2]), 0.5);
    }
    let back = cube.vertex_buffer.read_3(4, VertexAttributeUsage::Normal).unwrap();
    assert_eq!(f32::from_bits(back[2]), -1.0);
}

#[test]
fn unit_cube_first_face_winding() {
    let cube = SurfaceData::make_unit_cube();
    let t = cube.geometry_buffer.triangles_ref();
    assert_eq!(t[0], TriangleDefinition([2, 1, 0]));
    assert_eq!(t[11], TriangleDefinition([20, 22, 23]));
}

#[test]
fn unit_quad_layout_and_coordinates() {
    let quad = SurfaceData::make_unit_xy_quad();
    assert_eq!(quad.vertex_buffer.vertex_count(), 4);
    assert_eq!(quad.geometry_buffer.len(), 2);
    assert_eq!(quad.vertex_buffer.vertex_size(), 12);
    let p = quad.vertex_buffer.read_3(2, VertexAttributeUsage::Position).unwrap();
    assert_eq!([f32::from_bits(p[0]), f32::from_bits(p[1])], [1.0, 1.0]);
    let uv = quad.vertex_buffer.read_2(0, VertexAttributeUsage::TexCoord0).unwrap();
    assert_eq!([f32::from_bits(uv[0]), f32::from_bits(uv[1])], [0.0, 1.0]);
    let t = quad.vertex_buffer.read_4(1, VertexAttributeUsage::Tangent).unwrap();
    assert_eq!(t, [0, 0, 0, 0]);
}

#[test]
fn collapsed_quad_sits_at_origin() {
    let quad = SurfaceData::make_collapsed_xy_quad();
    assert_eq!(quad.vertex_buffer.vertex_count(), 4);
    for i in 0..4 {
        let p = quad.vertex_buffer.read_3(i, VertexAttributeUsage::Position).unwrap();
        assert_eq!(p, [0, 0, 0]);
    }
    let uv = quad.vertex_buffer.read_2(2, VertexAttributeUsage::TexCoord0).unwrap();
    assert_eq!(uv, [ONE, ONE]);
}

#[test]
fn read_fails_for_missing_attribute_and_bad_index() {
    let layout = [VertexAttributeDescriptor { usage: VertexAttributeUsage::Position, size: 3 }];
    let vb = VertexBuffer::new(2, &layout, vec![1, 2, 3, 4, 5, 6]).unwrap();
    assert_eq!(
        vb.read_3(0, VertexAttributeUsage::Normal),
        Err(VertexFetchError::NoSuchAttribute(VertexAttributeUsage::Normal))
    );
    assert_eq!(vb.read_3(2, VertexAttributeUsage::Position), Err(VertexFetchError::IndexOutOfRange(2)));
    assert_eq!(
        vb.read_4(0, VertexAttributeUsage::Position),
        Err(VertexFetchError::NotEnoughComponents(VertexAttributeUsage::Position))
    );
    assert_eq!(vb.read_3(1, VertexAttributeUsage::Position), Ok([4, 5, 6]));
}

#[test]
fn vertex_buffer_rejects_wrong_sizes() {
    let layout = [
        VertexAttributeDescriptor { usage: VertexAttributeUsage::Position, size: 3 },
        VertexAttributeDescriptor { usage: VertexAttributeUsage::TexCoord0, size: 2 },
    ];
    let r = VertexBuffer::new(2, &layout, vec![0; 9]);
    assert_eq!(r.unwrap_err(), ValidationError::InvalidDataSize { expected: 10, actual: 9 });
    let bad = [VertexAttributeDescriptor { usage: VertexAttributeUsage::Position, size: 5 }];
    assert_eq!(VertexBuffer::new(0, &bad, vec![]).unwrap_err(), ValidationError::InvalidComponentCount(5));
    let dup = [
        VertexAttributeDescriptor { usage: VertexAttributeUsage::Normal, size: 3 },
        VertexAttributeDescriptor { usage: VertexAttributeUsage::Normal, size: 3 },
    ];
    assert_eq!(
        VertexBuffer::new(0, &dup, vec![]).unwrap_err(),
        ValidationError::DuplicatedAttributeDescriptor(VertexAttributeUsage::Normal)
    );
}

#[test]
fn write_changes_only_the_attribute() {
    let mut quad = SurfaceData::make_unit_xy_quad();
    quad.vertex_buffer.write(1, VertexAttributeUsage::Normal, &[7, 8, 9]).unwrap();
    assert_eq!(quad.vertex_buffer.read_3(1, VertexAttributeUsage::Normal), Ok([7, 8, 9]));
    assert_eq!(quad.vertex_buffer.read_3(0, VertexAttributeUsage::Normal), Ok([ZERO, ZERO, ONE]));
    assert_eq!(quad.vertex_buffer.read_3(1, VertexAttributeUsage::Position), Ok([ONE, ZERO, ZERO]));
    let before = quad.vertex_buffer.raw_data().to_vec();
    assert!(quad.vertex_buffer.write(9, VertexAttributeUsage::Normal, &[1, 1, 1]).is_err());
    assert_eq!(quad.vertex_buffer.raw_data(), &before[..]);
}

#[test]
fn content_hash_equal_for_identical_geometry() {
    let a = SurfaceData::make_unit_cube();
    let b = SurfaceData::make_unit_cube();
    assert_eq!(a.content_hash(), b.content_hash());
}

#[test]
fn content_hash_changes_when_vertices_change() {
    let a = SurfaceData::make_unit_cube();
    let mut b = SurfaceData::make_unit_cube();
    b.vertex_buffer.write(0, VertexAttributeUsage::Position, &[ONE, ONE, ONE]).unwrap();
    assert_ne!(a.content_hash(), b.content_hash());
    assert_ne!(SurfaceData::make_unit_xy_quad().content_hash(), SurfaceData::make_collapsed_xy_quad().content_hash());
}

#[test]
fn clear_empties_both_buffers() {
    let mut cube = SurfaceData::make_unit_cube();
    cube.clear();
    assert_eq!(cube.vertex_buffer.vertex_count(), 0);
    assert!(cube.geometry_buffer.is_empty());
    assert!(cube.vertex_buffer.has_attribute(VertexAttributeUsage::Tangent));
}

#[test]
fn from_raw_mesh_keeps_vertices_and_triangles() {
    let v = StaticVertex::from_pos_uv_normal([1, 2, 3], [4, 5], [6, 7, 8]);
    let raw = RawMesh { vertices: vec![v, v, v], triangles: vec![TriangleDefinition([0, 1, 2])] };
    let data = SurfaceData::from_raw_mesh(raw, false);
    assert!(!data.is_procedural());
    assert_eq!(data.vertex_buffer.read_2(2, VertexAttributeUsage::TexCoord0), Ok([4, 5]));
    assert_eq!(data.geometry_buffer.len(), 1);
    let g = GeometryBuffer::new(vec![TriangleDefinition([0, 1, 2])]);
    assert_eq!(g.byte_image(), vec![0, 0, 0, 0, 1, 0, 0, 0, 2, 0, 0, 0]);
}

#[test]
fn cylinder_counts_with_and_without_caps() {
    let capped = SurfaceData::make_cylinder(8, true, point);
    assert_eq!(capped.vertex_buffer.vertex_count(), 8 * 6 + 8 * 6);
    assert_eq!(capped.geometry_buffer.len(), 32);
    let open = SurfaceData::make_cylinder(8, false, point);
    assert_eq!(open.vertex_buffer.vertex_count(), 48);
    assert_eq!(open.geometry_buffer.len(), 16);
    assert_eq!(open.geometry_buffer.triangles_ref()[3], TriangleDefinition([9, 10, 11]));
}

#[test]
fn cone_counts() {
    let cone = SurfaceData::make_cone(5, point);
    assert_eq!(cone.vertex_buffer.vertex_count(), 30);
    assert_eq!(cone.geometry_buffer.len(), 10);
}

#[test]
fn sphere_counts_skip_pole_triangles() {
    let sphere = SurfaceData::make_sphere(6, 4, point);
    assert_eq!(sphere.vertex_buffer.vertex_count(), 6 * 6 * 3);
    assert_eq!(sphere.geometry_buffer.len(), 36);
    let single = SurfaceData::make_sphere(6, 1, point);
    assert_eq!(single.vertex_buffer.vertex_count(), 0);
}

#[test]
fn sphere_first_stack_has_only_upper_triangles() {
    let s = surface_geometry::primitives::sphere_tessellation(2, 3);
    assert_eq!(s.len(), 2 * 6 * 2);
    assert_eq!(s[0].part, PrimitivePart::UpperTriangle);
    assert_eq!(s[3].part, PrimitivePart::UpperTriangle);
    assert_eq!(s[3].column, 1);
    assert_eq!(s[6].part, PrimitivePart::UpperTriangle);
    assert_eq!(s[9].part, PrimitivePart::LowerTriangle);
    assert_eq!(s[23].part, PrimitivePart::LowerTriangle);
    assert_eq!(s[23].row, 2);
}

#[test]
fn generator_places_each_sample() {
    let cone = SurfaceData::make_cone(2, point);
    let p = cone.vertex_buffer.read_3(4, VertexAttributeUsage::Position).unwrap();
    assert_eq!([f32::from_bits(p[0]), f32::from_bits(p[2])], [0.0, 1.0]);
    let p = cone.vertex_buffer.read_3(11, VertexAttributeUsage::Position).unwrap();
    assert_eq!([f32::from_bits(p[0]), f32::from_bits(p[2])], [1.0, 2.0]);
}
