use embree4_rs::error::{check_handle, error_or, Error, ErrorCode, ErrorKind, Stage};
use embree4_rs::mesh::{fill_triples, validate_indices};
use embree4_rs::ray::{query_result, Hit, Ray, RayHit, INVALID_GEOMETRY_ID};
use embree4_rs::scene::{
    BuildQuality, SceneFlags, SceneOptions, SCENE_FLAG_COMPACT, SCENE_FLAG_ROBUST,
};

fn some_ray() -> Ray {
    Ray {
        org_x: 1, org_y: 2, org_z: 3, tnear: 4, dir_x: 5, dir_y: 6, dir_z: 7, time: 8,
        tfar: 9, mask: 10, id: 11, flags: 12,
    }
}

#[test]
fn query_record_starts_without_hit() {
    let rh = RayHit::for_query(some_ray());
    assert_eq!(rh.ray, some_ray());
    assert_eq!(rh.hit.geom_id, INVALID_GEOMETRY_ID);
    assert_eq!(rh.hit.inst_id, INVALID_GEOMETRY_ID);
    assert!(!rh.hit.is_found());
    assert_eq!(rh.into_result(), None);
}

#[test]
fn query_result_returns_hit_when_geometry_set() {
    let mut rh = RayHit::for_query(some_ray());
    rh.hit.geom_id = 0;
    rh.hit.prim_id = 1;
    assert_eq!(query_result(rh, None), Ok(Some(rh)));
}

#[test]
fn query_result_returns_none_without_hit() {
    let rh = RayHit::for_query(some_ray());
    assert_eq!(query_result(rh, None), Ok(None));
}

#[test]
fn query_result_reports_traversal_error() {
    let mut rh = RayHit::for_query(some_ray());
    rh.hit.geom_id = 0;
    let r = query_result(rh, Some(ErrorCode::InvalidOperation));
    let e = r.unwrap_err();
    assert_eq!(e, Error { stage: Stage::Intersect, code: Some(ErrorCode::InvalidOperation) });
    assert_eq!(e.kind(), ErrorKind::Query);
}

#[test]
fn error_codes_from_raw_values() {
    assert_eq!(ErrorCode::from_raw(0), None);
    assert_eq!(ErrorCode::from_raw(1), Some(ErrorCode::Unknown));
    assert_eq!(ErrorCode::from_raw(2), Some(ErrorCode::InvalidArgument));
    assert_eq!(ErrorCode::from_raw(3), Some(ErrorCode::InvalidOperation));
    assert_eq!(ErrorCode::from_raw(4), Some(ErrorCode::OutOfMemory));
    assert_eq!(ErrorCode::from_raw(5), Some(ErrorCode::UnsupportedCpu));
    assert_eq!(ErrorCode::from_raw(6), Some(ErrorCode::Cancelled));
    assert_eq!(ErrorCode::from_raw(77), Some(ErrorCode::Unknown));
}

#[test]
fn error_or_keeps_value_on_clean_slot() {
    assert_eq!(error_or(None, 17u32, Stage::AttachGeometry), Ok(17));
}

#[test]
fn error_or_reports_stage_and_code() {
    let r = error_or(Some(ErrorCode::OutOfMemory), 17u32, Stage::VertexBuffer);
    assert_eq!(
        r,
        Err(Error { stage: Stage::VertexBuffer, code: Some(ErrorCode::OutOfMemory) })
    );
    assert_eq!(r.unwrap_err().kind(), ErrorKind::BufferAllocation);
}

#[test]
fn check_handle_fails_on_null_or_error() {
    assert_eq!(check_handle(false, None, Stage::SceneCreation), Ok(()));
    assert_eq!(
        check_handle(true, None, Stage::DeviceCreation),
        Err(Error { stage: Stage::DeviceCreation, code: None })
    );
    let e = check_handle(false, Some(ErrorCode::InvalidArgument), Stage::DeviceCreation)
        .unwrap_err();
    assert_eq!(e.code, Some(ErrorCode::InvalidArgument));
    assert_eq!(e.kind(), ErrorKind::Configuration);
}

#[test]
fn error_kinds_follow_stage_and_code() {
    let kind = |stage, code| Error { stage, code }.kind();
    assert_eq!(kind(Stage::SceneCommit, None), ErrorKind::Commit);
    assert_eq!(kind(Stage::MeshCommit, Some(ErrorCode::Unknown)), ErrorKind::Commit);
    assert_eq!(kind(Stage::UserGeometryCommit, None), ErrorKind::Commit);
    assert_eq!(kind(Stage::IndexBuffer, None), ErrorKind::BufferAllocation);
    assert_eq!(kind(Stage::MeshIndices, None), ErrorKind::BufferAllocation);
    assert_eq!(kind(Stage::MeshCreation, None), ErrorKind::ResourceCreation);
    assert_eq!(kind(Stage::AttachGeometry, None), ErrorKind::ResourceCreation);
    assert_eq!(kind(Stage::Intersect, None), ErrorKind::Query);
}

#[test]
fn device_failure_is_configuration_error_only_for_rejected_argument() {
    let kind = |code| Error { stage: Stage::DeviceCreation, code }.kind();
    assert_eq!(kind(Some(ErrorCode::InvalidArgument)), ErrorKind::Configuration);
    assert_eq!(kind(Some(ErrorCode::OutOfMemory)), ErrorKind::ResourceCreation);
    assert_eq!(kind(Some(ErrorCode::UnsupportedCpu)), ErrorKind::ResourceCreation);
    assert_eq!(kind(None), ErrorKind::ResourceCreation);
}

#[test]
fn stage_messages() {
    assert_eq!(Stage::SceneCommit.message(), "Could not commit scene");
    assert_eq!(
        Stage::VertexBuffer.message(),
        "Failed to create triangle mesh vertex buffer"
    );
    assert_eq!(Stage::UserData.message(), "Could not set user geometry data");
    assert_eq!(Stage::MeshIndices.message(), "Triangle mesh indices out of range or repeated");
}

#[test]
fn vertices_are_copied_three_floats_each() {
    let vertices = [(0.0f32, 0.0f32, 0.0f32), (1.0, 0.0, 0.0), (1.0, 1.0, 0.0), (0.0, 1.0, 0.0)];
    let mut buf = vec![f32::NAN; 3 * vertices.len()];
    fill_triples(&mut buf, &vertices);
    assert_eq!(buf, vec![0.0, 0.0, 0.0, 1.0, 0.0, 0.0, 1.0, 1.0, 0.0, 0.0, 1.0, 0.0]);
}

#[test]
fn indices_are_copied_three_each() {
    let indices = [(0u32, 1u32, 2u32), (2, 3, 0)];
    let mut buf = vec![u32::MAX; 6];
    fill_triples(&mut buf, &indices);
    assert_eq!(buf, vec![0, 1, 2, 2, 3, 0]);
}

#[test]
fn empty_mesh_fills_nothing() {
    let indices: [(u32, u32, u32); 0] = [];
    let mut buf: Vec<u32> = Vec::new();
    fill_triples(&mut buf, &indices);
    assert!(buf.is_empty());
    assert_eq!(validate_indices(&indices, 0), Ok(()));
}

#[test]
fn indices_within_vertex_count_are_accepted() {
    assert_eq!(validate_indices(&[(0, 1, 2), (2, 3, 0)], 4), Ok(()));
}

#[test]
fn index_out_of_range_is_rejected() {
    let r = validate_indices(&[(0, 1, 2), (2, 4, 0)], 4);
    assert_eq!(r, Err(Error { stage: Stage::MeshIndices, code: None }));
    assert_eq!(validate_indices(&[(0, 0, 1)], 1).unwrap_err().stage, Stage::MeshIndices);
}

#[test]
fn triangle_repeating_a_vertex_is_rejected() {
    let r = validate_indices(&[(0, 1, 2), (1, 3, 1)], 4);
    assert_eq!(r, Err(Error { stage: Stage::MeshIndices, code: None }));
    assert!(validate_indices(&[(2, 2, 0)], 4).is_err());
}

#[test]
fn default_options_need_no_settings() {
    let options = SceneOptions::default();
    assert_eq!(options.build_quality, BuildQuality::Medium);
    assert_eq!(options.flags.bits, 0);
    assert_eq!(options.pending_settings(), (None, None));
}

#[test]
fn non_default_options_are_applied() {
    let compact = SceneFlags { bits: SCENE_FLAG_COMPACT };
    let robust = SceneFlags { bits: SCENE_FLAG_ROBUST };
    let flags = compact.union(robust);
    assert_eq!(flags.bits, 6);
    assert!(flags.contains(robust));
    assert!(!compact.contains(robust));
    let options = SceneOptions { build_quality: BuildQuality::High, flags };
    assert_eq!(options.pending_settings(), (Some(BuildQuality::High), Some(flags)));
    let only_quality = SceneOptions { build_quality: BuildQuality::Low, ..SceneOptions::default() };
    assert_eq!(only_quality.pending_settings(), (Some(BuildQuality::Low), None));
}

#[test]
fn hit_is_found_iff_geometry_id_set() {
    let mut hit = Hit::empty();
    assert!(!hit.is_found());
    hit.geom_id = 0;
    assert!(hit.is_found());
}
