//! A static scene provider: the classic Cornell box, rasterised into
//! the spatial index at construction time, plus the bake step that
//! packs the index into a flat RGBA byte volume for upload as a 3D
//! texture.
//!
//! Scene coordinates use 1024 units per world unit, so the box spans
//! -1024..1024 along X and 0..2048 along Y and Z inside a root cube of
//! half-extent 2048.

use vstd::prelude::*;

use crate::octree::{
    default_step_size, pow2, spec_insert, Octree, OctreeNode, OctreeProvider, UpdateError,
};
use crate::performance::{INITIAL_STEP_MICRO, MAX_STEP_MICRO, MIN_STEP_MICRO};
use crate::vec3::Vec3;
use crate::voxel::{voxel_wf, MaterialKind, Rgb, VoxelData};

verus! {

/// Half thickness of the box walls (0.05 world units).
pub const CORNELL_WALL: i64 = 51;

/// Half side of the root cube enclosing the scene (2 world units).
pub const CORNELL_HALF: i64 = 2048;

/// Index depth used for the scene: 256 cells per axis.
pub const CORNELL_MAX_DEPTH: u8 = 8;

/// Grid pitch used to rasterise the scene (about 0.02 world units).
pub const CORNELL_GRID_STEP: i64 = 20;

/// Grid points per axis when rasterising.
pub const CORNELL_GRID_N: u32 = 121;

/// Total grid points when rasterising (121 per axis, cubed).
pub const CORNELL_GRID_TOTAL: u32 = 1771561;

/// The sample the Cornell box scene places at `p`, if any: white floor,
/// ceiling (with an emissive light patch), back wall, red left wall,
/// green right wall, and two rotated white boxes.
pub open spec fn spec_cornell_sample(p: Vec3) -> Option<VoxelData> {
    let white = VoxelData {
        color: Rgb { r: 730, g: 730, b: 730 },
        density: 1000,
        emission: Rgb { r: 0, g: 0, b: 0 },
        material_type: MaterialKind::Diffuse,
    };
    if -CORNELL_WALL <= p.y <= CORNELL_WALL && -1024 <= p.x <= 1024 && 0 <= p.z <= 2048 {
        // Floor.
        Some(white)
    } else if 2048 - CORNELL_WALL <= p.y <= 2048 + CORNELL_WALL && -1024 <= p.x <= 1024 && 0
        <= p.z <= 2048 {
        // Ceiling, with the light patch at its centre.
        if -256 <= p.x <= 256 && 768 <= p.z <= 1280 {
            Some(
                VoxelData {
                    color: Rgb { r: 1000, g: 1000, b: 950 },
                    density: 1000,
                    emission: Rgb { r: 5000, g: 5000, b: 4750 },
                    material_type: MaterialKind::Emissive,
                },
            )
        } else {
            Some(white)
        }
    } else if 2048 - CORNELL_WALL <= p.z <= 2048 + CORNELL_WALL && -1024 - CORNELL_WALL <= p.x
        <= 1024 + CORNELL_WALL && -CORNELL_WALL <= p.y <= 2048 + CORNELL_WALL {
        // Back wall.
        Some(white)
    } else if -1024 - CORNELL_WALL <= p.x <= -1024 + CORNELL_WALL && 0 <= p.z <= 2048 && 0 <= p.y
        <= 2048 {
        // Left wall, red.
        Some(
            VoxelData {
                color: Rgb { r: 650, g: 50, b: 50 },
                density: 1000,
                emission: Rgb { r: 0, g: 0, b: 0 },
                material_type: MaterialKind::Diffuse,
            },
        )
    } else if 1024 - CORNELL_WALL <= p.x <= 1024 + CORNELL_WALL && 0 <= p.z <= 2048 && 0 <= p.y
        <= 2048 {
        // Right wall, green.
        Some(
            VoxelData {
                color: Rgb { r: 120, g: 450, b: 150 },
                density: 1000,
                emission: Rgb { r: 0, g: 0, b: 0 },
                material_type: MaterialKind::Diffuse,
            },
        )
    } else {
        // Tall box, rotated by about 17 degrees around Y
        // (cosine 0.956, sine -0.292, in thousandths); the rotated
        // extent tests are kept in the scaled domain, so no division
        // is involved.
        let dx1 = p.x - -358;
        let dz1 = p.z - 666;
        let rx1 = dx1 * 956 + dz1 * 292;
        let rz1 = -dx1 * 292 + dz1 * 956;
        if -154000 <= rx1 <= 154000 && 0 <= p.y <= 614 && -154000 <= rz1 <= 154000 {
            Some(white)
        } else {
            // Short box, rotated the opposite way.
            let dx2 = p.x - 358;
            let dz2 = p.z - 1382;
            let rx2 = dx2 * 956 - dz2 * 292;
            let rz2 = dx2 * 292 + dz2 * 956;
            if -154000 <= rx2 <= 154000 && 0 <= p.y <= 308 && -154000 <= rz2 <= 154000 {
                Some(white)
            } else {
                None
            }
        }
    }
}

/// The grid point visited at step `k` of the rasterisation: X sweeps
/// -60..=60 outermost, then Y and Z each -10..=110, in grid-pitch
/// steps.
pub open spec fn spec_cornell_grid_pos(k: int) -> Vec3 {
    Vec3 {
        x: ((k / 14641 - 60) * CORNELL_GRID_STEP) as i64,
        y: (((k / 121) % 121 - 10) * CORNELL_GRID_STEP) as i64,
        z: ((k % 121 - 10) * CORNELL_GRID_STEP) as i64,
    }
}

/// The empty scene index the rasterisation starts from.
pub open spec fn spec_cornell_base() -> Octree {
    Octree {
        root: OctreeNode {
            center: Vec3 { x: 0, y: 0, z: 0 },
            half_size: CORNELL_HALF,
            children: None,
            voxel_data: None,
            level: 0,
        },
        max_depth: CORNELL_MAX_DEPTH,
        base_voxel_size: 16,
    }
}

/// The scene index after the first `k` rasterisation steps.
pub open spec fn spec_cornell_after(k: int) -> Octree
    decreases k,
{
    if k <= 0 {
        spec_cornell_base()
    } else {
        let prev = spec_cornell_after(k - 1);
        let p = spec_cornell_grid_pos(k - 1);
        match spec_cornell_sample(p) {
            Some(d) => Octree {
                root: spec_insert(prev.root, p, d, 0, prev.max_depth as int),
                ..prev
            },
            None => prev,
        }
    }
}

/// The level of detail a camera distance (thousandths of a world unit)
/// warrants: one level per five world units, clamped to the index
/// depth.
pub open spec fn spec_lod(distance_milli: i64, max_depth: u8) -> u8 {
    if distance_milli / 5000 < max_depth as i64 {
        (distance_milli as int / 5000) as u8
    } else {
        max_depth
    }
}

/// Coordinate of bake grid cell `x` (of `size`) along one axis of the
/// cube `[c - h, c + h]`.
pub open spec fn spec_bake_coord(c: int, h: int, x: int, size: int) -> int {
    c - h + (2 * h * x) / size
}

/// The world position a bake grid cell maps to.
pub open spec fn spec_bake_pos(o: Octree, xi: int, yi: int, zi: int, size: int) -> Vec3 {
    let c = o.root.center;
    let h = o.root.half_size as int;
    Vec3 {
        x: spec_bake_coord(c.x as int, h, xi, size) as i64,
        y: spec_bake_coord(c.y as int, h, yi, size) as i64,
        z: spec_bake_coord(c.z as int, h, zi, size) as i64,
    }
}

/// The four bytes the bake packs for texel `k` (row-major, X fastest):
/// the full-depth sample's colour channels and density, each rescaled
/// from thousandths to the byte range.
pub open spec fn spec_baked_texel(o: Octree, size: int, k: int) -> (u8, u8, u8, u8) {
    let xi = k % size;
    let yi = (k / size) % size;
    let zi = k / (size * size);
    let v = o.spec_sample_at(spec_bake_pos(o, xi, yi, zi, size), 0);
    (
        ((v.color.r * 255) / 1000) as u8,
        ((v.color.g * 255) / 1000) as u8,
        ((v.color.b * 255) / 1000) as u8,
        ((v.density * 255) / 1000) as u8,
    )
}

/// Texel `k` of a baked byte volume holds exactly its packed sample.
pub open spec fn spec_baked_quad_ok(o: Octree, size: int, k: int, bytes: Seq<u8>) -> bool {
    let t = spec_baked_texel(o, size, k);
    &&& bytes[4 * k] == t.0
    &&& bytes[4 * k + 1] == t.1
    &&& bytes[4 * k + 2] == t.2
    &&& bytes[4 * k + 3] == t.3
}

/// Decomposition of a flat texel index into grid coordinates.
pub proof fn lemma_texel_decode(size: int, xi: int, yi: int, zi: int)
    requires
        1 <= size,
        0 <= xi < size,
        0 <= yi < size,
        0 <= zi < size,
    ensures
        0 <= zi * size * size + yi * size + xi < size * size * size,
        (zi * size * size + yi * size + xi) % size == xi,
        ((zi * size * size + yi * size + xi) / size) % size == yi,
        (zi * size * size + yi * size + xi) / (size * size) == zi,
{
    let k = zi * size * size + yi * size + xi;
    let row = zi * size + yi;
    assert(k == row * size + xi && 0 <= k && k < size * size * size && 0 <= row * size + xi && 0
        <= zi * (size * size) + (yi * size + xi) && yi * size + xi < size * size && k == zi * (size
        * size) + (yi * size + xi)) by (nonlinear_arith)
        requires
            1 <= size,
            0 <= xi < size,
            0 <= yi < size,
            0 <= zi < size,
            k == zi * size * size + yi * size + xi,
            row == zi * size + yi,
    ;
    vstd::arithmetic::div_mod::lemma_fundamental_div_mod_converse_mod(k, size, row, xi);
    vstd::arithmetic::div_mod::lemma_fundamental_div_mod_converse_div(k, size, row, xi);
    vstd::arithmetic::div_mod::lemma_fundamental_div_mod_converse_mod(row, size, zi, yi);
    vstd::arithmetic::div_mod::lemma_fundamental_div_mod_converse_div(
        k,
        size * size,
        zi,
        yi * size + xi,
    );
}

/// Coordinate of one bake grid cell along one axis.
fn bake_grid_coord(c: i64, h: i64, x: u32, size: u32) -> (r: i64)
    requires
        1 <= h,
        -crate::octree::COORD_BOUND <= c - h,
        c + h <= crate::octree::COORD_BOUND,
        x < size,
        1 <= size,
    ensures
        r as int == spec_bake_coord(c as int, h as int, x as int, size as int),
{
    proof {
        let hh = h as int;
        let xx = x as int;
        assert(0 <= 2 * hh * xx && 2 * hh * xx <= 0x10_0000_0000_0000 * 0x1_0000_0000)
            by (nonlinear_arith)
            requires
                1 <= hh <= 0x8_0000_0000_0000,
                0 <= xx < 0x1_0000_0000,
        ;
    }
    let t = (2 * (h as i128) * (x as i128)) / (size as i128);
    proof {
        let hh = h as int;
        let xx = x as int;
        let ss = size as int;
        assert(2 * hh * xx <= (2 * hh) * ss) by (nonlinear_arith)
            requires
                1 <= hh,
                0 <= xx < ss,
        ;
        vstd::arithmetic::div_mod::lemma_div_pos_is_pos(2 * hh * xx, ss);
        vstd::arithmetic::div_mod::lemma_div_is_ordered(2 * hh * xx, (2 * hh) * ss, ss);
        vstd::arithmetic::div_mod::lemma_div_by_multiple(2 * hh, ss);
    }
    ((c as i128 - h as i128) + t) as i64
}

/// Pack the full-depth samples of `octree` on a regular `size`-cubed
/// grid into a flat byte volume, four bytes per cell (RGB colour and
/// density, rescaled to the byte range), row-major with X fastest —
/// ready for upload as an RGBA 3D texture.
pub fn bake_rgba8(octree: &Octree, size: u32) -> (r: Vec<u8>)
    requires
        octree.inv(),
        1 <= size <= 256,
    ensures
        r@.len() == 4 * (size as int) * (size as int) * (size as int),
        forall|k: int|
            0 <= k < (size as int) * (size as int) * (size as int)
                ==> spec_baked_quad_ok(*octree, size as int, k, r@),
{
    proof {
        assert((size as int) * (size as int) <= 65536 && (size as int) * (size as int) * (
        size as int) <= 16777216) by (nonlinear_arith)
            requires
                1 <= size <= 256,
        ;
    }
    let total = size * size * size;
    let mut data: Vec<u8> = Vec::new();
    let mut k: u32 = 0;
    while k < total
        invariant
            octree.inv(),
            1 <= size <= 256,
            total == size * size * size,
            k <= total,
            data@.len() == 4 * k as int,
            forall|j: int| 0 <= j < k ==> spec_baked_quad_ok(*octree, size as int, j, data@),
        decreases total - k,
    {
        proof {
            assert(1 <= (size as int) * (size as int) <= 65536) by (nonlinear_arith)
                requires
                    1 <= size <= 256,
            ;
        }
        let xi = k % size;
        let yi = (k / size) % size;
        let zi = k / (size * size);
        proof {
            let ss = size as int;
            vstd::arithmetic::div_mod::lemma_mod_division_less_than_divisor(k as int, ss);
            vstd::arithmetic::div_mod::lemma_mod_division_less_than_divisor(k as int / ss, ss);
            vstd::arithmetic::div_mod::lemma_div_pos_is_pos(k as int, ss);
            vstd::arithmetic::div_mod::lemma_div_pos_is_pos(k as int, ss * ss);
            assert(k < (ss * ss) * ss) by (nonlinear_arith)
                requires
                    k < total,
                    total == size * size * size,
                    ss == size as int,
            ;
            vstd::arithmetic::div_mod::lemma_multiply_divide_lt(k as int, ss * ss, ss);
        }
        let c = octree.root.center;
        let h = octree.root.half_size;
        let pos = Vec3::new(
            bake_grid_coord(c.x, h, xi, size),
            bake_grid_coord(c.y, h, yi, size),
            bake_grid_coord(c.z, h, zi, size),
        );
        proof {
            assert(pos == spec_bake_pos(*octree, xi as int, yi as int, zi as int, size as int));
        }
        let v = octree.sample(pos, 0);
        proof {
            crate::octree::lemma_sample_wf(
                octree.root,
                pos,
                octree.spec_effective_level(0),
                0,
                octree.max_depth as int,
            );
        }
        let ghost old_data = data@;
        data.push(((v.color.r as u32) * 255 / 1000) as u8);
        data.push(((v.color.g as u32) * 255 / 1000) as u8);
        data.push(((v.color.b as u32) * 255 / 1000) as u8);
        data.push(((v.density as u32) * 255 / 1000) as u8);
        proof {
            assert forall|j: int| 0 <= j < k + 1 implies spec_baked_quad_ok(
                *octree,
                size as int,
                j,
                data@,
            ) by {
                if j < k {
                    assert(spec_baked_quad_ok(*octree, size as int, j, old_data));
                } else {
                    assert(spec_baked_quad_ok(*octree, size as int, j, data@));
                }
            }
        }
        k = k + 1;
    }
    proof {
        let ss = size as int;
        assert(4 * ss * ss * ss == 4 * (ss * ss * ss)) by (nonlinear_arith);
    }
    data
}

/// Static scene provider over a pre-built Cornell box index.
pub struct StaticOctreeProvider {
    pub octree: Octree,
    pub base_voxel_size: u64,
    pub texture_size: u32,
}

impl StaticOctreeProvider {
    /// A provider holding the rasterised Cornell box scene.
    pub fn new_cornell_box() -> (r: StaticOctreeProvider)
        ensures
            r.wf(),
            r.octree == spec_cornell_after(CORNELL_GRID_TOTAL as int),
            r.base_voxel_size == INITIAL_STEP_MICRO,
            r.texture_size == 256,
    {
        proof {
            assert(pow2(8) == 256) by {
                reveal_with_fuel(pow2, 9);
            }
        }
        let mut octree = Octree::new(Vec3::new(0, 0, 0), CORNELL_HALF, CORNELL_MAX_DEPTH);
        proof {
            assert(octree.base_voxel_size == 16);
            assert(octree == spec_cornell_base());
        }
        Self::build_cornell_box_scene(&mut octree);
        StaticOctreeProvider {
            octree,
            base_voxel_size: INITIAL_STEP_MICRO,
            texture_size: 256,
        }
    }

    /// Rasterise the Cornell box into `octree` by sampling the scene on
    /// a regular grid and inserting every hit.
    fn build_cornell_box_scene(octree: &mut Octree)
        requires
            *old(octree) == spec_cornell_base(),
            old(octree).inv(),
        ensures
            *final(octree) == spec_cornell_after(CORNELL_GRID_TOTAL as int),
            final(octree).inv(),
    {
        let mut k: u32 = 0;
        while k < CORNELL_GRID_TOTAL
            invariant
                k <= CORNELL_GRID_TOTAL,
                *octree == spec_cornell_after(k as int),
                octree.inv(),
            decreases CORNELL_GRID_TOTAL - k,
        {
            let ix = k / 14641;
            let iy = (k / 121) % 121;
            let iz = k % 121;
            let x = (ix as i64 - 60) * CORNELL_GRID_STEP;
            let y = (iy as i64 - 10) * CORNELL_GRID_STEP;
            let z = (iz as i64 - 10) * CORNELL_GRID_STEP;
            let pos = Vec3::new(x, y, z);
            proof {
                assert(pos == spec_cornell_grid_pos(k as int));
            }
            match Self::sample_cornell_box_at(pos) {
                Some(voxel) => {
                    octree.insert(pos, voxel);
                },
                None => {},
            }
            k = k + 1;
        }
    }

    /// The sample the Cornell box scene places at `position`, if any.
    pub fn sample_cornell_box_at(position: Vec3) -> (r: Option<VoxelData>)
        ensures
            r == spec_cornell_sample(position),
            r matches Some(v) ==> voxel_wf(v),
    {
        let px = position.x as i128;
        let py = position.y as i128;
        let pz = position.z as i128;
        let white = VoxelData {
            color: Rgb { r: 730, g: 730, b: 730 },
            density: 1000,
            emission: Rgb { r: 0, g: 0, b: 0 },
            material_type: MaterialKind::Diffuse,
        };
        let wall = CORNELL_WALL as i128;
        if -wall <= py && py <= wall && -1024 <= px && px <= 1024 && 0 <= pz && pz <= 2048 {
            return Some(white);
        }
        if 2048 - wall <= py && py <= 2048 + wall && -1024 <= px && px <= 1024 && 0 <= pz && pz
            <= 2048 {
            if -256 <= px && px <= 256 && 768 <= pz && pz <= 1280 {
                return Some(
                    VoxelData {
                        color: Rgb { r: 1000, g: 1000, b: 950 },
                        density: 1000,
                        emission: Rgb { r: 5000, g: 5000, b: 4750 },
                        material_type: MaterialKind::Emissive,
                    },
                );
            }
            return Some(white);
        }
        if 2048 - wall <= pz && pz <= 2048 + wall && -1024 - wall <= px && px <= 1024 + wall
            && -wall <= py && py <= 2048 + wall {
            return Some(white);
        }
        if -1024 - wall <= px && px <= -1024 + wall && 0 <= pz && pz <= 2048 && 0 <= py && py
            <= 2048 {
            return Some(
                VoxelData {
                    color: Rgb { r: 650, g: 50, b: 50 },
                    density: 1000,
                    emission: Rgb { r: 0, g: 0, b: 0 },
                    material_type: MaterialKind::Diffuse,
                },
            );
        }
        if 1024 - wall <= px && px <= 1024 + wall && 0 <= pz && pz <= 2048 && 0 <= py && py
            <= 2048 {
            return Some(
                VoxelData {
                    color: Rgb { r: 120, g: 450, b: 150 },
                    density: 1000,
                    emission: Rgb { r: 0, g: 0, b: 0 },
                    material_type: MaterialKind::Diffuse,
                },
            );
        }
        let dx1 = px - -358;
        let dz1 = pz - 666;
        let rx1 = dx1 * 956 + dz1 * 292;
        let rz1 = -dx1 * 292 + dz1 * 956;
        if -154000 <= rx1 && rx1 <= 154000 && 0 <= py && py <= 614 && -154000 <= rz1 && rz1
            <= 154000 {
            return Some(white);
        }
        let dx2 = px - 358;
        let dz2 = pz - 1382;
        let rx2 = dx2 * 956 - dz2 * 292;
        let rz2 = dx2 * 292 + dz2 * 956;
        if -154000 <= rx2 && rx2 <= 154000 && 0 <= py && py <= 308 && -154000 <= rz2 && rz2
            <= 154000 {
            return Some(white);
        }
        None
    }
}

impl OctreeProvider for StaticOctreeProvider {
    open spec fn wf(&self) -> bool {
        &&& self.octree.inv()
        &&& MIN_STEP_MICRO <= self.base_voxel_size <= MAX_STEP_MICRO
        &&& 1 <= self.texture_size <= 1024
    }

    open spec fn sample_spec(&self, position: Vec3, distance_milli: i64) -> VoxelData {
        self.octree.spec_sample_at(position, spec_lod(distance_milli, self.octree.max_depth))
    }

    open spec fn bounds_spec(&self) -> (Vec3, Vec3) {
        let c = self.octree.root.center;
        let h = self.octree.root.half_size;
        (
            Vec3 { x: (c.x - h) as i64, y: (c.y - h) as i64, z: (c.z - h) as i64 },
            Vec3 { x: (c.x + h) as i64, y: (c.y + h) as i64, z: (c.z + h) as i64 },
        )
    }

    open spec fn base_step_spec(&self) -> u64 {
        self.base_voxel_size
    }

    open spec fn dynamic_spec(&self) -> bool {
        false
    }

    fn sample_voxel(&self, position: Vec3, distance_from_camera: i64) -> (r: VoxelData) {
        let l = distance_from_camera / 5000;
        let lod = if l < self.octree.max_depth as i64 {
            l as u8
        } else {
            self.octree.max_depth
        };
        self.octree.sample(position, lod)
    }

    fn get_step_size(&self, distance_from_camera: i64, base_step_size: u64) -> (r: u64)
        ensures
            r as int == crate::octree::spec_default_step_size(
                distance_from_camera as int,
                base_step_size as int,
            ),
    {
        default_step_size(distance_from_camera, base_step_size)
    }

    fn set_performance_target(&mut self, target_voxel_size: u64) {
        self.base_voxel_size = target_voxel_size;
    }

    fn get_bounds(&self) -> (r: (Vec3, Vec3)) {
        let c = self.octree.root.center;
        let h = self.octree.root.half_size;
        (Vec3::new(c.x - h, c.y - h, c.z - h), Vec3::new(c.x + h, c.y + h, c.z + h))
    }

    fn is_dynamic(&self) -> (r: bool) {
        false
    }

    fn update_voxel(&mut self, _position: Vec3, _data: VoxelData) -> (r: Result<
        (),
        UpdateError,
    >) {
        Err(UpdateError::NotDynamic)
    }
}

} // verus!
