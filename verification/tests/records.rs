use pathtracer::records::{BVHNode, MaterialData, PerVertexData, TracingConfig, Vec3Bits, Vec4Bits};

#[test]
fn default_bvh_node_is_empty_inverted_box() {
    let node = BVHNode::default();
    assert_eq!(node.triangle_count(), 0);
    assert!(!node.is_leaf());
    assert_eq!(node.left_node_index(), 0);
    let min = node.aabb_min();
    assert_eq!(min.x, f32::INFINITY.to_bits());
    assert_eq!(min.y, f32::INFINITY.to_bits());
    assert_eq!(min.z, f32::INFINITY.to_bits());
    let max = node.aabb_max();
    assert_eq!(max.x, f32::NEG_INFINITY.to_bits());
    assert_eq!(max.y, f32::NEG_INFINITY.to_bits());
    assert_eq!(max.z, f32::NEG_INFINITY.to_bits());
}

#[test]
fn triangle_count_round_trips_bit_exactly() {
    let values = [0u32, 1, 2, 12345, 0x7f80_0000, u32::MAX];
    for &v in values.iter() {
        let mut node = BVHNode::default();
        node.set_left_node_index(99);
        node.set_triangle_count(v);
        assert_eq!(node.triangle_count(), v);
        assert_eq!(node.left_node_index(), 99);
    }
}

#[test]
fn packed_index_round_trips_bit_exactly() {
    let values = [0u32, 1, 7, 1 << 31, u32::MAX];
    for &v in values.iter() {
        let mut node = BVHNode::default();
        node.set_triangle_count(3);
        node.set_left_node_index(v);
        assert_eq!(node.left_node_index(), v);
        assert_eq!(node.first_triangle_index(), v);
        assert_eq!(node.triangle_count(), 3);

        let mut leaf = BVHNode::default();
        leaf.set_first_triangle_index(v);
        assert_eq!(leaf.first_triangle_index(), v);
        assert_eq!(leaf.triangle_count(), 0);
    }
}

#[test]
fn right_child_is_next_slot_after_left() {
    let mut node = BVHNode::default();
    node.set_left_node_index(5);
    assert_eq!(node.right_node_index(), 6);
    node.set_left_node_index(0);
    assert_eq!(node.right_node_index(), 1);
}

#[test]
fn leaf_flag_follows_triangle_count() {
    let mut node = BVHNode::default();
    node.set_triangle_count(1);
    assert!(node.is_leaf());
    node.set_triangle_count(0);
    assert!(!node.is_leaf());
}

#[test]
fn box_updates_leave_packed_lanes_alone() {
    let mut node = BVHNode::default();
    node.set_triangle_count(4);
    node.set_first_triangle_index(17);
    let min = Vec3Bits { x: 1.5f32.to_bits(), y: (-2.0f32).to_bits(), z: 0.25f32.to_bits() };
    let max = Vec3Bits { x: 3.0f32.to_bits(), y: 4.5f32.to_bits(), z: 9.0f32.to_bits() };
    node.set_aabb_min(&min);
    node.set_aabb_max(&max);
    assert_eq!(node.aabb_min(), min);
    assert_eq!(node.aabb_max(), max);
    assert_eq!(node.triangle_count(), 4);
    assert_eq!(node.first_triangle_index(), 17);
}

#[test]
fn material_flag_round_trips() {
    let mut m = MaterialData::default();
    assert!(!m.has_albedo_texture());
    m.set_has_albedo_texture(true);
    assert!(m.has_albedo_texture());
    m.set_has_albedo_texture(false);
    assert!(!m.has_albedo_texture());
}

#[test]
fn material_flag_leaves_albedo_alone() {
    let mut m = MaterialData::default();
    m.albedo = Vec4Bits {
        x: 0.1f32.to_bits(),
        y: 0.2f32.to_bits(),
        z: 0.3f32.to_bits(),
        w: 1.0f32.to_bits(),
    };
    let before = m.albedo;
    m.set_has_albedo_texture(true);
    assert_eq!(m.albedo, before);
}

#[test]
fn zeroed_records_default() {
    let c = TracingConfig::default();
    assert_eq!((c.width, c.height, c.max_bounces), (0, 0, 0));
    let v = PerVertexData::default();
    assert_eq!(v.vertex, Vec4Bits { x: 0, y: 0, z: 0, w: 0 });
    assert_eq!(v.normal, Vec4Bits { x: 0, y: 0, z: 0, w: 0 });
    assert_eq!((v.uv0.x, v.uv0.y, v.uv1.x, v.uv1.y), (0, 0, 0, 0));
}
