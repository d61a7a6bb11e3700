use voxel_index::octree::{default_step_size, Octree, OctreeNode};
use voxel_index::vec3::Vec3;
use voxel_index::voxel::{MaterialKind, Rgb, VoxelData};

fn white() -> VoxelData {
    VoxelData::solid(Rgb { r: 730, g: 730, b: 730 })
}

#[test]
fn scenario_insert_origin_then_sample() {
    // Root half-extent 2.0 world units at 1000 units per world unit,
    // depth 3; a solid sample at the origin reads back exactly, and a
    // point near the +X face that was never written reads empty.
    let mut oct = Octree::new(Vec3::new(0, 0, 0), 2000, 3);
    let solid = white();
    oct.insert(Vec3::new(0, 0, 0), solid);
    assert_eq!(oct.sample(Vec3::new(0, 0, 0), 3), solid);
    assert_eq!(oct.sample(Vec3::new(1990, 0, 0), 3), VoxelData::empty());
}

#[test]
fn sample_outside_bounds_is_empty() {
    let mut oct = Octree::new(Vec3::new(0, 0, 0), 2000, 3);
    oct.insert(Vec3::new(0, 0, 0), white());
    for level in 0..5u8 {
        assert_eq!(oct.sample(Vec3::new(2001, 0, 0), level), VoxelData::empty());
        assert_eq!(oct.sample(Vec3::new(0, -2001, 0), level), VoxelData::empty());
    }
}

#[test]
fn insert_outside_bounds_is_ignored() {
    let mut oct = Octree::new(Vec3::new(0, 0, 0), 2000, 3);
    oct.insert(Vec3::new(2500, 0, 0), white());
    // The nearest in-bounds cell stays empty: the insert was a no-op.
    assert_eq!(oct.sample(Vec3::new(2000, 0, 0), 3), VoxelData::empty());
}

#[test]
fn insert_twice_reads_back_once() {
    let mut oct = Octree::new(Vec3::new(0, 0, 0), 2000, 3);
    let v = white();
    let p = Vec3::new(123, -456, 789);
    oct.insert(p, v);
    oct.insert(p, v);
    assert_eq!(oct.sample(p, 3), v);
}

#[test]
fn last_write_wins() {
    let mut oct = Octree::new(Vec3::new(0, 0, 0), 2000, 3);
    let p = Vec3::new(-100, 200, -300);
    oct.insert(p, white());
    let red = VoxelData::solid(Rgb { r: 650, g: 50, b: 50 });
    oct.insert(p, red);
    assert_eq!(oct.sample(p, 3), red);
}

#[test]
fn insert_on_face_is_inside() {
    let mut oct = Octree::new(Vec3::new(0, 0, 0), 2000, 3);
    let p = Vec3::new(2000, 0, 0);
    oct.insert(p, white());
    assert_eq!(oct.sample(p, 3), white());
}

#[test]
fn coarse_and_fine_lookups_agree_on_sparse_leaf() {
    // With data only at the deepest level, every requested level
    // descends to the same leaf.
    let mut oct = Octree::new(Vec3::new(0, 0, 0), 2000, 3);
    let p = Vec3::new(700, 700, 700);
    oct.insert(p, white());
    assert_eq!(oct.sample(p, 0), white());
    assert_eq!(oct.sample(p, 1), white());
    assert_eq!(oct.sample(p, 3), white());
    // Past the index depth the level is clamped: same result.
    assert_eq!(oct.sample(p, 200), white());
}

#[test]
fn depth_zero_index_stores_at_root() {
    let mut oct = Octree::new(Vec3::new(0, 0, 0), 1000, 0);
    let p = Vec3::new(900, -900, 0);
    oct.insert(p, white());
    // Any in-bounds position resolves the root's sample at any level.
    assert_eq!(oct.sample(Vec3::new(-1000, 1000, 500), 7), white());
    assert_eq!(oct.sample(Vec3::new(0, 0, 0), 0), white());
}

#[test]
fn child_index_octants() {
    let node = OctreeNode::new(Vec3::new(0, 0, 0), 100, 0);
    assert_eq!(node.get_child_index(&Vec3::new(1, 1, 1)), 7);
    assert_eq!(node.get_child_index(&Vec3::new(-1, -1, -1)), 0);
    assert_eq!(node.get_child_index(&Vec3::new(1, -1, 1)), 5);
    assert_eq!(node.get_child_index(&Vec3::new(-1, 1, -1)), 2);
    // A coordinate equal to the centre goes to the negative side.
    assert_eq!(node.get_child_index(&Vec3::new(0, 0, 0)), 0);
}

#[test]
fn contains_is_face_inclusive() {
    let node = OctreeNode::new(Vec3::new(0, 0, 0), 100, 0);
    assert!(node.contains(&Vec3::new(100, 0, 0)));
    assert!(node.contains(&Vec3::new(-100, -100, -100)));
    assert!(!node.contains(&Vec3::new(101, 0, 0)));
    assert!(!node.contains(&Vec3::new(0, 0, -101)));
}

#[test]
fn subdivide_halves_and_offsets() {
    let mut node = OctreeNode::new(Vec3::new(0, 0, 0), 100, 0);
    node.subdivide();
    let ch = node.children.as_ref().unwrap();
    assert_eq!(ch.c0.center, Vec3::new(-50, -50, -50));
    assert_eq!(ch.c7.center, Vec3::new(50, 50, 50));
    assert_eq!(ch.c1.center, Vec3::new(50, -50, -50));
    assert_eq!(ch.c2.center, Vec3::new(-50, 50, -50));
    assert_eq!(ch.c4.center, Vec3::new(-50, -50, 50));
    assert_eq!(ch.c7.half_size, 50);
    assert_eq!(ch.c7.level, 1);
}

#[test]
fn subdivide_is_idempotent() {
    let mut node = OctreeNode::new(Vec3::new(0, 0, 0), 100, 0);
    node.subdivide();
    let before = node.children.as_ref().unwrap().c3.center;
    node.subdivide();
    assert_eq!(node.children.as_ref().unwrap().c3.center, before);
    assert_eq!(node.children.as_ref().unwrap().c3.half_size, 50);
}

#[test]
fn base_voxel_size_is_exact() {
    assert_eq!(Octree::new(Vec3::new(0, 0, 0), 2048, 8).base_voxel_size, 16);
    assert_eq!(Octree::new(Vec3::new(0, 0, 0), 2000, 3).base_voxel_size, 500);
    assert_eq!(Octree::new(Vec3::new(0, 0, 0), 1000, 0).base_voxel_size, 2000);
}

#[test]
fn default_step_size_policy_values() {
    // No distance: the base passes through.
    assert_eq!(default_step_size(0, 20000), 20000);
    // Five world units: factor 1.5.
    assert_eq!(default_step_size(5000, 20000), 30000);
    // Ten world units: factor 2.
    assert_eq!(default_step_size(10000, 20000), 40000);
    // Far away: clamped to the cap.
    assert_eq!(default_step_size(1_000_000, 20000), 50000);
    // Tiny base: clamped to the floor.
    assert_eq!(default_step_size(0, 1000), 5000);
}

#[test]
fn empty_voxel_means_no_geometry() {
    let e = VoxelData::empty();
    assert_eq!(e.density, 0);
    assert_eq!(e.color, Rgb { r: 0, g: 0, b: 0 });
    assert_eq!(e.material_type, MaterialKind::Diffuse);
    let s = VoxelData::solid(Rgb { r: 1, g: 2, b: 3 });
    assert_eq!(s.density, 1000);
    let l = VoxelData::emissive(Rgb { r: 9, g: 9, b: 9 }, Rgb { r: 5000, g: 0, b: 1 });
    assert_eq!(l.material_type, MaterialKind::Emissive);
    assert_eq!(l.emission, Rgb { r: 5000, g: 0, b: 1 });
}
