//! The value stored per index cell: colour, density, emission and material.

use vstd::prelude::*;

verus! {

/// One colour channel triple in thousandths: `1000` stands for full
/// intensity of the unit range. Emission may exceed `1000` (lights are
/// brighter than the albedo range).
#[derive(Clone, Copy, PartialEq, Eq, Structural, Debug)]
pub struct Rgb {
    pub r: u16,
    pub g: u16,
    pub b: u16,
}

/// Surface behaviour of a cell.
#[derive(Clone, Copy, PartialEq, Eq, Structural, Debug)]
pub enum MaterialKind {
    Diffuse,
    Metallic,
    Glass,
    Emissive,
}

/// Volumetric sample held by an index cell.
///
/// `color` and `density` are thousandths of the unit range; a sample with
/// `density == 0` means "no geometry here" whatever the other fields hold.
#[derive(Clone, Copy, PartialEq, Eq, Structural, Debug)]
pub struct VoxelData {
    pub color: Rgb,
    pub density: u16,
    pub emission: Rgb,
    pub material_type: MaterialKind,
}

/// Albedo and density stay within the unit range.
pub open spec fn voxel_wf(v: VoxelData) -> bool {
    &&& v.color.r <= 1000
    &&& v.color.g <= 1000
    &&& v.color.b <= 1000
    &&& v.density <= 1000
}

/// The sample that stands for "nothing here": black, fully transparent.
pub open spec fn spec_empty_voxel() -> VoxelData {
    VoxelData {
        color: Rgb { r: 0, g: 0, b: 0 },
        density: 0,
        emission: Rgb { r: 0, g: 0, b: 0 },
        material_type: MaterialKind::Diffuse,
    }
}

impl VoxelData {
    /// The empty sample: no geometry, black, no emission, diffuse.
    pub fn empty() -> (r: VoxelData)
        ensures
            r == spec_empty_voxel(),
            voxel_wf(r),
    {
        VoxelData {
            color: Rgb { r: 0, g: 0, b: 0 },
            density: 0,
            emission: Rgb { r: 0, g: 0, b: 0 },
            material_type: MaterialKind::Diffuse,
        }
    }

    /// A fully dense diffuse sample of the given albedo.
    pub fn solid(color: Rgb) -> (r: VoxelData)
        requires
            color.r <= 1000,
            color.g <= 1000,
            color.b <= 1000,
        ensures
            r.color == color,
            r.density == 1000,
            r.emission == (Rgb { r: 0, g: 0, b: 0 }),
            r.material_type == MaterialKind::Diffuse,
            voxel_wf(r),
    {
        VoxelData {
            color,
            density: 1000,
            emission: Rgb { r: 0, g: 0, b: 0 },
            material_type: MaterialKind::Diffuse,
        }
    }

    /// A fully dense light-emitting sample.
    pub fn emissive(color: Rgb, emission: Rgb) -> (r: VoxelData)
        requires
            color.r <= 1000,
            color.g <= 1000,
            color.b <= 1000,
        ensures
            r.color == color,
            r.density == 1000,
            r.emission == emission,
            r.material_type == MaterialKind::Emissive,
            voxel_wf(r),
    {
        VoxelData {
            color,
            density: 1000,
            emission,
            material_type: MaterialKind::Emissive,
        }
    }
}

} // verus!
