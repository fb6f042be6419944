use ar_session::{
    add_detected_plane, get_session_stats, initialize_ar_session, place_virtual_object,
    remove_virtual_object, update_camera_position, Extent2, ObjectKind, Quaternion,
    SessionManager, Vector3,
};

fn vec3(x: f32, y: f32, z: f32) -> Vector3 {
    Vector3 { x: x.to_bits(), y: y.to_bits(), z: z.to_bits() }
}

fn extent(w: f32, h: f32) -> Extent2 {
    Extent2 { width: w.to_bits(), height: h.to_bits() }
}

fn quat(x: f32, y: f32, z: f32, w: f32) -> Quaternion {
    Quaternion { x: x.to_bits(), y: y.to_bits(), z: z.to_bits(), w: w.to_bits() }
}

fn identity() -> Quaternion {
    quat(0.0, 0.0, 0.0, 1.0)
}

fn stats(m: &SessionManager) -> (Option<i32>, Option<i32>) {
    let mut planes = Some(-1);
    let mut objects = Some(-1);
    get_session_stats(m, &mut planes, &mut objects);
    (planes, objects)
}

fn active() -> SessionManager {
    let mut m = SessionManager::new();
    initialize_ar_session(&mut m);
    m
}

#[test]
fn fresh_session_is_empty_at_origin() {
    let m = active();
    assert!(m.is_active());
    assert_eq!(m.camera_position(), Some(vec3(0.0, 0.0, 0.0)));
    assert_eq!(stats(&m), (Some(0), Some(0)));
}

#[test]
fn camera_position_is_stored_exactly() {
    let mut m = active();
    update_camera_position(&mut m, vec3(1.0, 2.0, 3.0));
    assert_eq!(m.camera_position(), Some(vec3(1.0, 2.0, 3.0)));
    let odd = vec3(f32::NAN, f32::INFINITY, -0.0);
    update_camera_position(&mut m, odd);
    let stored = m.camera_position().unwrap();
    assert_eq!(stored, odd);
    assert!(f32::from_bits(stored.x).is_nan());
    assert_eq!(f32::from_bits(stored.y), f32::INFINITY);
    assert_eq!(stored.z, (-0.0f32).to_bits());
}

#[test]
fn anonymous_planes_are_numbered_in_order() {
    let mut m = active();
    for _ in 0..12 {
        assert!(add_detected_plane(&mut m, None, vec3(0.0, 0.0, -1.0), extent(1.0, 1.0), vec3(0.0, 1.0, 0.0)));
    }
    for i in 0..12usize {
        assert_eq!(m.plane(i).unwrap().id, format!("plane_{}", i));
    }
    assert!(m.plane(12).is_none());
}

#[test]
fn supplied_plane_id_is_kept_verbatim() {
    let mut m = active();
    add_detected_plane(&mut m, Some("floor".to_string()), vec3(0.5, 0.0, -2.0), extent(3.0, 4.0), vec3(0.0, 1.0, 0.0));
    add_detected_plane(&mut m, None, vec3(0.0, 0.0, 0.0), extent(1.0, 1.0), vec3(0.0, 1.0, 0.0));
    let floor = m.plane(0).unwrap();
    assert_eq!(floor.id, "floor");
    assert_eq!(floor.center, vec3(0.5, 0.0, -2.0));
    assert_eq!(floor.extent, extent(3.0, 4.0));
    assert_eq!(floor.normal, vec3(0.0, 1.0, 0.0));
    assert_eq!(m.plane(1).unwrap().id, "plane_1");
}

#[test]
fn empty_supplied_plane_id_is_synthesized() {
    let mut m = active();
    add_detected_plane(&mut m, Some(String::new()), vec3(0.0, 0.0, 0.0), extent(1.0, 1.0), vec3(0.0, 1.0, 0.0));
    assert_eq!(m.plane(0).unwrap().id, "plane_0");
}

#[test]
fn plane_without_session_is_not_recorded() {
    let mut m = SessionManager::new();
    assert!(!add_detected_plane(&mut m, None, vec3(0.0, 0.0, 0.0), extent(1.0, 1.0), vec3(0.0, 1.0, 0.0)));
    assert!(m.plane(0).is_none());
    initialize_ar_session(&mut m);
    assert_eq!(stats(&m), (Some(0), Some(0)));
}

#[test]
fn handles_count_up_from_zero() {
    let mut m = active();
    for i in 0..11 {
        assert_eq!(place_virtual_object(&mut m, 0, vec3(0.0, 0.5, -1.0), identity()), i);
    }
    assert_eq!(m.object(10).unwrap().id, "object_10");
}

#[test]
fn placing_without_session_returns_minus_one() {
    let mut m = SessionManager::new();
    assert_eq!(place_virtual_object(&mut m, 0, vec3(0.0, 0.0, 0.0), identity()), -1);
    assert_eq!(place_virtual_object(&mut m, 1, vec3(0.0, 0.0, 0.0), identity()), -1);
    assert!(m.object(0).is_none());
}

#[test]
fn selectors_map_to_kinds() {
    let mut m = active();
    place_virtual_object(&mut m, 0, vec3(0.0, 0.0, 0.0), identity());
    place_virtual_object(&mut m, 1, vec3(0.0, 0.0, 0.0), identity());
    place_virtual_object(&mut m, 42, vec3(0.0, 0.0, 0.0), identity());
    place_virtual_object(&mut m, -7, vec3(0.0, 0.0, 0.0), identity());
    place_virtual_object(&mut m, i32::MIN, vec3(0.0, 0.0, 0.0), identity());
    assert!(matches!(m.object(0).unwrap().kind, ObjectKind::Cube));
    assert!(matches!(m.object(1).unwrap().kind, ObjectKind::Sphere));
    assert!(matches!(&m.object(2).unwrap().kind, ObjectKind::Custom(t) if t == "custom_42"));
    assert!(matches!(&m.object(3).unwrap().kind, ObjectKind::Custom(t) if t == "custom_-7"));
    assert!(matches!(&m.object(4).unwrap().kind, ObjectKind::Custom(t) if t == "custom_-2147483648"));
}

#[test]
fn placed_object_keeps_its_pose() {
    let mut m = active();
    let h = place_virtual_object(&mut m, 0, vec3(0.0, 0.5, -1.0), quat(0.1, 0.2, 0.3, 0.9));
    let o = m.object(h as usize).unwrap();
    assert_eq!(o.id, "object_0");
    assert_eq!(o.position, vec3(0.0, 0.5, -1.0));
    assert_eq!(o.rotation, quat(0.1, 0.2, 0.3, 0.9));
}

#[test]
fn removal_succeeds_only_in_range() {
    let mut m = active();
    for _ in 0..3 {
        place_virtual_object(&mut m, 0, vec3(0.0, 0.0, 0.0), identity());
    }
    assert!(!remove_virtual_object(&mut m, -1));
    assert!(!remove_virtual_object(&mut m, 3));
    assert!(!remove_virtual_object(&mut m, i32::MAX));
    assert_eq!(stats(&m), (Some(0), Some(3)));
    assert!(remove_virtual_object(&mut m, 2));
    assert_eq!(stats(&m), (Some(0), Some(2)));
    assert!(!remove_virtual_object(&mut m, 2));
    assert_eq!(stats(&m), (Some(0), Some(2)));
}

#[test]
fn removal_without_session_fails() {
    let mut m = SessionManager::new();
    assert!(!remove_virtual_object(&mut m, 0));
}

#[test]
fn removal_shifts_later_objects_down() {
    let mut m = active();
    for i in 0..4 {
        place_virtual_object(&mut m, 0, vec3(i as f32, 0.0, 0.0), identity());
    }
    assert!(remove_virtual_object(&mut m, 1));
    assert_eq!(m.object(0).unwrap().id, "object_0");
    assert_eq!(m.object(1).unwrap().id, "object_2");
    assert_eq!(m.object(2).unwrap().id, "object_3");
    assert_eq!(m.object(2).unwrap().position, vec3(3.0, 0.0, 0.0));
    // the handle that reached the last object is now stale
    assert!(m.object(3).is_none());
    assert!(!remove_virtual_object(&mut m, 3));
    // a new object gets the id of the current count, which repeats an earlier id
    assert_eq!(place_virtual_object(&mut m, 0, vec3(0.0, 0.0, 0.0), identity()), 3);
    assert_eq!(m.object(3).unwrap().id, "object_3");
}

#[test]
fn stats_without_session_leave_slots_untouched() {
    let m = SessionManager::new();
    assert_eq!(stats(&m), (Some(-1), Some(-1)));
    let mut planes = None;
    let mut objects = Some(7);
    get_session_stats(&m, &mut planes, &mut objects);
    assert_eq!((planes, objects), (None, Some(7)));
}

#[test]
fn stats_leave_unrequested_slot_untouched() {
    let mut m = active();
    add_detected_plane(&mut m, None, vec3(0.0, 0.0, 0.0), extent(1.0, 1.0), vec3(0.0, 1.0, 0.0));
    let mut planes = None;
    let mut objects = Some(-1);
    get_session_stats(&m, &mut planes, &mut objects);
    assert_eq!((planes, objects), (None, Some(0)));
    let mut planes = Some(-1);
    let mut objects = None;
    get_session_stats(&m, &mut planes, &mut objects);
    assert_eq!((planes, objects), (Some(1), None));
}

#[test]
fn place_and_remove_scenario() {
    let mut m = SessionManager::new();
    initialize_ar_session(&mut m);
    add_detected_plane(&mut m, None, vec3(0.0, 0.0, -1.0), extent(1.0, 1.0), vec3(0.0, 1.0, 0.0));
    let h = place_virtual_object(&mut m, 0, vec3(0.0, 0.5, -1.0), quat(0.0, 0.0, 0.0, 1.0));
    assert_eq!(h, 0);
    assert_eq!(stats(&m), (Some(1), Some(1)));
    assert!(remove_virtual_object(&mut m, 0));
    assert_eq!(stats(&m), (Some(1), Some(0)));
}

#[test]
fn camera_before_initialization_is_no_op() {
    let mut m = SessionManager::new();
    update_camera_position(&mut m, vec3(1.0, 2.0, 3.0));
    assert!(!m.is_active());
    assert_eq!(m.camera_position(), None);
    initialize_ar_session(&mut m);
    assert_eq!(stats(&m), (Some(0), Some(0)));
    assert_eq!(m.camera_position(), Some(vec3(0.0, 0.0, 0.0)));
}

#[test]
fn reinitialization_discards_session() {
    let mut m = active();
    add_detected_plane(&mut m, None, vec3(0.0, 0.0, 0.0), extent(1.0, 1.0), vec3(0.0, 1.0, 0.0));
    place_virtual_object(&mut m, 1, vec3(0.0, 0.0, 0.0), identity());
    update_camera_position(&mut m, vec3(4.0, 5.0, 6.0));
    initialize_ar_session(&mut m);
    assert_eq!(stats(&m), (Some(0), Some(0)));
    assert_eq!(m.camera_position(), Some(vec3(0.0, 0.0, 0.0)));
    add_detected_plane(&mut m, None, vec3(0.0, 0.0, 0.0), extent(1.0, 1.0), vec3(0.0, 1.0, 0.0));
    assert_eq!(m.plane(0).unwrap().id, "plane_0");
}
