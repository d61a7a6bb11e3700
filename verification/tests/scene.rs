use voxel_index::octree::{Octree, OctreeProvider};
use voxel_index::static_provider::{bake_rgba8, StaticOctreeProvider};
use voxel_index::vec3::Vec3;
use voxel_index::voxel::{MaterialKind, Rgb, VoxelData};

fn white() -> VoxelData {
    VoxelData::solid(Rgb { r: 730, g: 730, b: 730 })
}

#[test]
fn cornell_floor_is_white() {
    let v = StaticOctreeProvider::sample_cornell_box_at(Vec3::new(0, 0, 1024));
    assert_eq!(v, Some(white()));
}

#[test]
fn cornell_ceiling_light_is_emissive() {
    let v = StaticOctreeProvider::sample_cornell_box_at(Vec3::new(0, 2048, 1024)).unwrap();
    assert_eq!(v.material_type, MaterialKind::Emissive);
    assert_eq!(v.color, Rgb { r: 1000, g: 1000, b: 950 });
    assert_eq!(v.emission, Rgb { r: 5000, g: 5000, b: 4750 });
}

#[test]
fn cornell_ceiling_outside_light_is_white() {
    let v = StaticOctreeProvider::sample_cornell_box_at(Vec3::new(600, 2048, 300));
    assert_eq!(v, Some(white()));
}

#[test]
fn cornell_left_wall_is_red() {
    let v = StaticOctreeProvider::sample_cornell_box_at(Vec3::new(-1024, 1000, 1000));
    assert_eq!(v.unwrap().color, Rgb { r: 650, g: 50, b: 50 });
}

#[test]
fn cornell_right_wall_is_green() {
    let v = StaticOctreeProvider::sample_cornell_box_at(Vec3::new(1024, 1000, 1000));
    assert_eq!(v.unwrap().color, Rgb { r: 120, g: 450, b: 150 });
}

#[test]
fn cornell_open_space_is_empty() {
    assert_eq!(
        StaticOctreeProvider::sample_cornell_box_at(Vec3::new(0, 1024, 300)),
        None
    );
    assert_eq!(
        StaticOctreeProvider::sample_cornell_box_at(Vec3::new(4000, 4000, 4000)),
        None
    );
}

#[test]
fn cornell_tall_box_centre_is_white() {
    let v = StaticOctreeProvider::sample_cornell_box_at(Vec3::new(-358, 300, 666));
    assert_eq!(v, Some(white()));
}

#[test]
fn cornell_short_box_centre_is_white() {
    let v = StaticOctreeProvider::sample_cornell_box_at(Vec3::new(358, 100, 1382));
    assert_eq!(v, Some(white()));
}

#[test]
fn bake_packs_rgba_bytes() {
    let mut oct = Octree::new(Vec3::new(0, 0, 0), 1024, 2);
    let corner = Vec3::new(-1024, -1024, -1024);
    oct.insert(corner, white());
    let data = bake_rgba8(&oct, 2);
    assert_eq!(data.len(), 2 * 2 * 2 * 4);
    // Texel (0,0,0) maps to the low corner and holds the inserted
    // sample: colour 0.73 packs to 186, density 1.0 to 255.
    assert_eq!(&data[0..4], &[186, 186, 186, 255]);
    // Texel (1,0,0) maps to the cube centre plane and is empty.
    assert_eq!(&data[4..8], &[0, 0, 0, 0]);
}

#[test]
fn bake_full_density_and_zero() {
    let mut oct = Octree::new(Vec3::new(0, 0, 0), 1024, 1);
    oct.insert(Vec3::new(-1024, -1024, -1024), VoxelData::emissive(
        Rgb { r: 1000, g: 0, b: 500 },
        Rgb { r: 5000, g: 5000, b: 5000 },
    ));
    let data = bake_rgba8(&oct, 1);
    // One texel: colour channels 255/0/127, density 255; emission is
    // not part of the packed volume.
    assert_eq!(&data[..], &[255, 0, 127, 255]);
}

fn small_provider() -> StaticOctreeProvider {
    let mut oct = Octree::new(Vec3::new(0, 0, 0), 1024, 2);
    oct.insert(Vec3::new(-1024, -1024, -1024), white());
    StaticOctreeProvider { octree: oct, base_voxel_size: 20_000, texture_size: 4 }
}

#[test]
fn provider_bounds_are_the_root_cube() {
    let p = small_provider();
    let (lo, hi) = p.get_bounds();
    assert_eq!(lo, Vec3::new(-1024, -1024, -1024));
    assert_eq!(hi, Vec3::new(1024, 1024, 1024));
}

#[test]
fn provider_sampling_uses_distance_lod() {
    let p = small_provider();
    let corner = Vec3::new(-1024, -1024, -1024);
    // Close by: full depth resolves the stored sample.
    assert_eq!(p.sample_voxel(corner, 0), white());
    // Far away the level is clamped to the index depth, so a sparse
    // leaf still resolves the same way.
    assert_eq!(p.sample_voxel(corner, 100_000), white());
    assert_eq!(p.sample_voxel(Vec3::new(500, 500, 500), 0), VoxelData::empty());
}

#[test]
fn provider_step_size_defaults() {
    let p = small_provider();
    assert_eq!(p.get_step_size(0, 20_000), 20_000);
    assert_eq!(p.get_step_size(5_000, 20_000), 30_000);
}

#[test]
fn provider_performance_target() {
    let mut p = small_provider();
    p.set_performance_target(30_000);
    assert_eq!(p.base_voxel_size, 30_000);
}

#[test]
fn provider_is_static() {
    let mut p = small_provider();
    assert!(!p.is_dynamic());
    let corner = Vec3::new(-1024, -1024, -1024);
    let r = p.update_voxel(corner, VoxelData::empty());
    assert!(r.is_err());
    // The scene is untouched.
    assert_eq!(p.sample_voxel(corner, 0), white());
}
