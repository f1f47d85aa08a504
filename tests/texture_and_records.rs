use surface_geometry::buffer::{TriangleDefinition, VertexAttributeUsage};
use surface_geometry::persist::{
    FieldName, RegionName, SurfaceDataRecord, SurfaceRecord, TextureDataRecord, TextureKindRecord,
    VisitError,
};
use surface_geometry::material::{
    Color, NodeHandle, Surface, SurfaceBuilder, Texture, VertexWeight, VertexWeightSet,
};
use surface_geometry::store::SurfaceDataStore;
use surface_geometry::surface::{StaticVertex, SurfaceData};
use surface_geometry::texture::{
    ceil_div_4, TextureData, TextureKind, TextureMagnificationFilter, TextureMinificationFilter,
    TexturePixelKind, TextureWrapMode,
};

#[test]
fn from_bytes_rejects_one_byte_short() {
    let kind = TextureKind::Rectangle { width: 4, height: 4 };
    assert!(TextureData::from_bytes(kind, TexturePixelKind::RGBA8, vec![0; 63]).is_err());
    let t = TextureData::from_bytes(kind, TexturePixelKind::RGBA8, vec![0; 64]).unwrap();
    assert_eq!(t.kind, kind);
    assert_eq!(t.mip_count, 1);
    assert_eq!(f32::from_bits(t.anisotropy), 16.0);
    assert_eq!(t.minification_filter, TextureMinificationFilter::LinearMipMapLinear);
}

#[test]
fn from_bytes_sizes_of_formats() {
    let line = TextureKind::Line { length: 10 };
    assert!(TextureData::from_bytes(line, TexturePixelKind::R8, vec![0; 10]).is_ok());
    assert!(TextureData::from_bytes(line, TexturePixelKind::RGB16, vec![0; 60]).is_ok());
    let vol = TextureKind::Volume { width: 2, height: 3, depth: 4 };
    assert!(TextureData::from_bytes(vol, TexturePixelKind::RGBA16, vec![0; 192]).is_ok());
    // Compressed: 5x5 needs 2x2 blocks.
    let rect = TextureKind::Rectangle { width: 5, height: 5 };
    assert!(TextureData::from_bytes(rect, TexturePixelKind::DXT1RGB, vec![0; 32]).is_ok());
    assert!(TextureData::from_bytes(rect, TexturePixelKind::DXT5RGBA, vec![0; 64]).is_ok());
    assert!(TextureData::from_bytes(rect, TexturePixelKind::DXT5RGBA, vec![0; 63]).is_err());
    let huge = TextureKind::Volume { width: u32::MAX, height: u32::MAX, depth: 2 };
    assert!(TextureData::from_bytes(huge, TexturePixelKind::R8, vec![0; 3]).is_err());
}

#[test]
fn ceil_div_4_rounds_up() {
    assert_eq!(ceil_div_4(0), 0);
    assert_eq!(ceil_div_4(1), 1);
    assert_eq!(ceil_div_4(4), 1);
    assert_eq!(ceil_div_4(5), 2);
    assert_eq!(ceil_div_4(u32::MAX), 1 << 30);
}

#[test]
fn pixel_kind_ids_round_trip() {
    for id in 0..14 {
        assert_eq!(TexturePixelKind::new(id).unwrap().id(), id);
    }
    assert_eq!(TexturePixelKind::new(14), Err(14));
    assert_eq!(TexturePixelKind::new(2), Ok(TexturePixelKind::RGBA8));
}

#[test]
fn filter_and_wrap_ids_round_trip() {
    for id in 0..6 {
        assert_eq!(TextureMinificationFilter::from_id(id).unwrap().id(), id);
    }
    assert_eq!(TextureMinificationFilter::from_id(6), None);
    assert_eq!(TextureMagnificationFilter::from_id(1), Some(TextureMagnificationFilter::Linear));
    assert_eq!(TextureMagnificationFilter::from_id(2), None);
    assert_eq!(TextureWrapMode::from_id(3), Some(TextureWrapMode::MirroredRepeat));
    assert_eq!(TextureWrapMode::from_id(5), None);
}

#[test]
fn dds_header_kinds() {
    assert_eq!(TextureKind::from_dds(0x200 | 0x1000, 8, 8, None), Some(TextureKind::Cube { width: 8, height: 8 }));
    assert_eq!(
        TextureKind::from_dds(0x200000, 8, 4, Some(2)),
        Some(TextureKind::Volume { width: 8, height: 4, depth: 2 })
    );
    assert_eq!(TextureKind::from_dds(0x200000, 8, 4, None), None);
    assert_eq!(TextureKind::from_dds(0, 8, 4, None), Some(TextureKind::Rectangle { width: 8, height: 4 }));
}

#[test]
fn texture_kind_record_round_trip_and_errors() {
    let k = TextureKind::Volume { width: 1, height: 2, depth: 3 };
    assert_eq!(TextureKindRecord::save(k).load(), Ok(k));
    let bad = TextureKindRecord { id: Some(7), length: None, width: None, height: None, depth: None };
    assert_eq!(bad.load(), Err(VisitError::UnknownDiscriminant { region: RegionName::TextureKind, id: 7 }));
    let no_height = TextureKindRecord { id: Some(1), length: None, width: Some(3), height: None, depth: None };
    assert_eq!(
        no_height.load(),
        Err(VisitError::FieldMissing { region: RegionName::TextureKind, field: FieldName::Height })
    );
}

#[test]
fn texture_data_record_best_effort_fields() {
    let rec = TextureDataRecord {
        kind_id: Some(1),
        path: Some(String::from("a.png")),
        minification_filter: Some(99),
        magnification_filter: None,
        anisotropy: None,
        s_wrap_mode: Some(2),
        t_wrap_mode: None,
        mip_count: None,
        kind: None,
    };
    let t = rec.load().unwrap();
    assert_eq!(t.pixel_kind, TexturePixelKind::RGB8);
    assert_eq!(t.path, "a.png");
    assert_eq!(t.minification_filter, TextureMinificationFilter::LinearMipMapLinear);
    assert_eq!(t.s_wrap_mode, TextureWrapMode::ClampToBorder);
    assert_eq!(t.kind, TextureKind::Rectangle { width: 0, height: 0 });
    let unknown = TextureDataRecord { kind_id: Some(20), path: None, minification_filter: None, magnification_filter: None, anisotropy: None, s_wrap_mode: None, t_wrap_mode: None, mip_count: None, kind: None };
    assert_eq!(
        unknown.load().unwrap_err(),
        VisitError::UnknownDiscriminant { region: RegionName::TextureData, id: 20 }
    );
}

#[test]
fn legacy_surface_data_record_loads() {
    let quad = SurfaceData::make_unit_xy_quad();
    let mut vertices = Vec::new();
    for i in 0..4 {
        let p = quad.vertex_buffer.read_3(i, VertexAttributeUsage::Position).unwrap();
        let uv = quad.vertex_buffer.read_2(i, VertexAttributeUsage::TexCoord0).unwrap();
        let n = quad.vertex_buffer.read_3(i, VertexAttributeUsage::Normal).unwrap();
        vertices.push(StaticVertex::from_pos_uv_normal(p, uv, n));
    }
    let rec = SurfaceDataRecord {
        is_procedural: Some(true),
        vertex_buffer: None,
        geometry_buffer: None,
        vertices: Some(vertices),
        triangles: Some(vec![TriangleDefinition([0, 1, 2]), TriangleDefinition([0, 2, 3])]),
    };
    let loaded = rec.load().unwrap();
    assert!(loaded.is_procedural());
    assert_eq!(loaded.vertex_buffer.raw_data(), quad.vertex_buffer.raw_data());
    assert_eq!(loaded.geometry_buffer.triangles_ref(), quad.geometry_buffer.triangles_ref());
    assert_eq!(loaded.content_hash(), quad.content_hash());
}

#[test]
fn surface_data_record_round_trip_and_missing_fields() {
    let cube = SurfaceData::make_unit_cube();
    let loaded = SurfaceDataRecord::save(&cube).load().unwrap();
    assert_eq!(loaded.content_hash(), cube.content_hash());
    let none = SurfaceDataRecord { is_procedural: None, vertex_buffer: None, geometry_buffer: None, vertices: None, triangles: None };
    assert_eq!(
        none.load().unwrap_err(),
        VisitError::FieldMissing { region: RegionName::SurfaceData, field: FieldName::IsProcedural }
    );
    let no_tris = SurfaceDataRecord { is_procedural: Some(true), vertex_buffer: None, geometry_buffer: None, vertices: Some(vec![]), triangles: None };
    assert_eq!(
        no_tris.load().unwrap_err(),
        VisitError::FieldMissing { region: RegionName::SurfaceData, field: FieldName::Triangles }
    );
    let external = SurfaceDataRecord { is_procedural: Some(false), vertex_buffer: None, geometry_buffer: None, vertices: None, triangles: None };
    let d = external.load().unwrap();
    assert!(!d.is_procedural());
    assert_eq!(d.vertex_buffer.vertex_count(), 0);
    assert!(d.vertex_buffer.layout().is_empty());
}

#[test]
fn surface_record_lightmap_is_optional() {
    let mut store = SurfaceDataStore::new();
    let h = store.insert(SurfaceData::make_unit_xy_quad());
    let s = SurfaceBuilder::new(h)
        .with_diffuse_texture(Texture { key: 1 })
        .with_lightmap_texture(Texture { key: 2 })
        .with_bones(vec![NodeHandle { index: 3, generation: 1 }])
        .build();
    let mut rec = SurfaceRecord::save(&s);
    rec.lightmap_texture = None;
    let back = rec.load().unwrap();
    assert_eq!(back.diffuse_texture, Some(Texture { key: 1 }));
    assert_eq!(back.lightmap_texture, None);
    assert_eq!(back.bones, vec![NodeHandle { index: 3, generation: 1 }]);
    let mut rec = SurfaceRecord::save(&s);
    rec.color = None;
    assert_eq!(rec.load().unwrap_err(), VisitError::FieldMissing { region: RegionName::Surface, field: FieldName::Color });
}

#[test]
fn batch_id_groups_by_data_identity_and_textures() {
    let mut store = SurfaceDataStore::new();
    let h1 = store.insert(SurfaceData::make_unit_cube());
    let h2 = store.insert(SurfaceData::make_unit_cube());
    let mut a = Surface::new(h1);
    let mut b = SurfaceBuilder::new(h1).with_color(Color { r: 1, g: 2, b: 3, a: 4 }).build();
    a.set_diffuse_texture(Some(Texture { key: 9 }));
    b.set_diffuse_texture(Some(Texture { key: 9 }));
    assert_eq!(a.batch_id(), b.batch_id());
    let c = SurfaceBuilder::new(h2).with_diffuse_texture(Texture { key: 9 }).build();
    assert_ne!(a.batch_id(), c.batch_id());
    b.set_normal_texture(Some(Texture { key: 10 }));
    assert_ne!(a.batch_id(), b.batch_id());
}

#[test]
fn store_frees_with_last_holder() {
    let mut store = SurfaceDataStore::new();
    let h = store.insert(SurfaceData::make_unit_cube());
    assert!(store.share(h));
    assert_eq!(store.holders(h), 2);
    assert!(store.release(h).is_none());
    assert!(store.get(h).is_some());
    let freed = store.release(h).unwrap();
    assert_eq!(freed.vertex_buffer.vertex_count(), 24);
    assert!(store.get(h).is_none());
    assert!(!store.share(h));
    assert!(store.replace(h, SurfaceData::make_unit_xy_quad()).is_err());
}

#[test]
fn surface_defaults_and_setters() {
    let mut store = SurfaceDataStore::new();
    let h = store.insert(SurfaceData::make_unit_cube());
    let mut s = Surface::new(h);
    assert_eq!(s.color(), Color::white());
    assert_eq!(s.data(), h);
    assert!(s.diffuse_texture().is_none());
    s.set_height_texture(Some(Texture { key: 4 }));
    assert_eq!(s.height_texture_ref(), Some(&Texture { key: 4 }));
    s.set_color(Color { r: 0, g: 0, b: 0, a: 128 });
    assert_eq!(s.color().a, 128);
    assert!(s.bones().is_empty());
}

#[test]
fn weight_set_holds_at_most_four() {
    let mut set = VertexWeightSet::new();
    assert!(set.is_empty());
    let w = VertexWeight { value: 0.5f32.to_bits(), effector: NodeHandle::none() };
    for _ in 0..4 {
        assert!(set.push(w));
    }
    assert!(!set.push(w));
    assert_eq!(set.len(), 4);
    assert!(set.set_value(3, 1.0f32.to_bits()));
    assert_eq!(f32::from_bits(set.iter()[3].value), 1.0);
    assert!(!set.set_value(4, 0));
}

#[test]
fn surface_clone_is_shallow_and_drops_weights() {
    let mut store = SurfaceDataStore::new();
    let h = store.insert(SurfaceData::make_unit_cube());
    let mut s = SurfaceBuilder::new(h)
        .with_specular_texture(Texture { key: 5 })
        .with_bones(vec![NodeHandle { index: 1, generation: 2 }])
        .build();
    s.vertex_weights.push(VertexWeightSet::new());
    let c = s.clone();
    assert_eq!(c.data(), h);
    assert_eq!(c.specular_texture(), Some(Texture { key: 5 }));
    assert_eq!(c.bones(), s.bones());
    assert!(c.vertex_weights.is_empty());
    assert_eq!(c.batch_id(), s.batch_id());
}

#[test]
fn defaults_are_empty() {
    let s = Surface::default();
    assert!(s.data.is_none());
    assert_eq!(s.color, Color::white());
    let d = SurfaceData::default();
    assert!(!d.is_procedural());
    assert_eq!(d.vertex_buffer.vertex_count(), 0);
    let t = TextureData::default();
    assert_eq!(t.pixel_kind, TexturePixelKind::RGBA8);
    assert_eq!(f32::from_bits(t.anisotropy), 16.0);
    assert_eq!(TextureKind::default(), TextureKind::Rectangle { width: 0, height: 0 });
    let w = VertexWeight::default();
    assert_eq!(w.value, 0);
    assert!(VertexWeightSet::default().is_empty());
}
