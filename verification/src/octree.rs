//! Sparse 8-ary spatial index over integer coordinates.
//!
//! Every node covers an axis-aligned cube given by `center` and
//! `half_size`. A subdivided node owns exactly eight children, one per
//! octant, addressed by a 3-bit index: bit 0 is the sign of the X offset,
//! bit 1 of Y, bit 2 of Z (set = positive).
//!
//! Insertion descends to `max_depth` and stores the sample there
//! (last write wins); lookups resolve a position no finer than a caller
//! supplied level, which lets distant queries stop at a coarse ancestor.
//! Positions outside a node's cube are ignored on insert and resolve to
//! the empty sample on lookup.

use vstd::prelude::*;

use crate::performance::{MAX_STEP_MICRO, MIN_STEP_MICRO};
use crate::vec3::Vec3;
use crate::voxel::{spec_empty_voxel, voxel_wf, VoxelData};

verus! {

/// Why a voxel update was refused.
#[derive(Clone, Copy, PartialEq, Eq, Structural, Debug)]
pub enum UpdateError {
    /// The provider's scene is fixed at construction time.
    NotDynamic,
}

/// Largest camera distance (thousandths of a world unit) the step-size
/// policy accepts; keeps its arithmetic inside `u64`.
pub const MAX_POLICY_DISTANCE_MILLI: i64 = 1_000_000_000_000;

/// The step size the default policy prescribes for a sample
/// `distance_milli` thousandths of a world unit from the camera, given
/// the current base step size: the base scaled by `1 + distance / 10`
/// (in world units), clamped to the step-size band.
pub open spec fn spec_default_step_size(distance_milli: int, base_micro: int) -> int {
    let factor = 1000 + distance_milli / 10;
    let s = base_micro * factor / 1000;
    if s < MIN_STEP_MICRO {
        MIN_STEP_MICRO as int
    } else if s > MAX_STEP_MICRO {
        MAX_STEP_MICRO as int
    } else {
        s
    }
}

/// Default distance-based step-size policy: farther samples tolerate
/// larger ray-marching steps; the result stays within the step-size
/// band.
pub fn default_step_size(distance_from_camera: i64, base_step_size: u64) -> (r: u64)
    requires
        0 <= distance_from_camera <= MAX_POLICY_DISTANCE_MILLI,
        base_step_size <= MAX_STEP_MICRO,
    ensures
        r as int == spec_default_step_size(distance_from_camera as int, base_step_size as int),
        MIN_STEP_MICRO <= r <= MAX_STEP_MICRO,
{
    let factor = 1000 + (distance_from_camera as u64) / 10;
    proof {
        assert(base_step_size * factor <= 50000 * (1000 + MAX_POLICY_DISTANCE_MILLI / 10))
            by (nonlinear_arith)
            requires
                base_step_size <= 50000,
                factor <= 1000 + MAX_POLICY_DISTANCE_MILLI / 10,
        ;
    }
    let s = base_step_size * factor / 1000;
    if s < MIN_STEP_MICRO {
        MIN_STEP_MICRO
    } else if s > MAX_STEP_MICRO {
        MAX_STEP_MICRO
    } else {
        s
    }
}

/// A source of volumetric samples for the ray-marching stage: a scene
/// with fixed bounds, a per-sample lookup with distance-based level of
/// detail, and a tunable base sampling resolution.
///
/// Each implementation fixes its own sampling function (`sample_spec`)
/// and state invariant (`wf`); the executable methods are bound to
/// those, so callers reason about any provider through them.
pub trait OctreeProvider: Sized {
    /// State invariant of this provider.
    spec fn wf(&self) -> bool;

    /// The sample this provider resolves for a position and camera
    /// distance (thousandths of a world unit).
    spec fn sample_spec(&self, position: Vec3, distance_milli: i64) -> VoxelData;

    /// The scene's bounding box, as (low corner, high corner).
    spec fn bounds_spec(&self) -> (Vec3, Vec3);

    /// The configured base sampling resolution, micro world units.
    spec fn base_step_spec(&self) -> u64;

    /// Whether the provider accepts voxel updates after construction.
    spec fn dynamic_spec(&self) -> bool;

    /// Sample voxel data at a world position, resolved no finer than
    /// the level of detail its camera distance warrants.
    fn sample_voxel(&self, position: Vec3, distance_from_camera: i64) -> (r: VoxelData)
        requires
            self.wf(),
            0 <= distance_from_camera,
        ensures
            r == self.sample_spec(position, distance_from_camera),
    ;

    /// Step size for ray marching at the given camera distance.
    fn get_step_size(&self, distance_from_camera: i64, base_step_size: u64) -> (r: u64)
        requires
            self.wf(),
            0 <= distance_from_camera <= MAX_POLICY_DISTANCE_MILLI,
            base_step_size <= MAX_STEP_MICRO,
        ensures
            MIN_STEP_MICRO <= r <= MAX_STEP_MICRO,
    ;

    /// Adopt a new base sampling resolution (from the performance
    /// controller).
    fn set_performance_target(&mut self, target_voxel_size: u64)
        requires
            old(self).wf(),
            MIN_STEP_MICRO <= target_voxel_size <= MAX_STEP_MICRO,
        ensures
            final(self).wf(),
            final(self).base_step_spec() == target_voxel_size,
            final(self).bounds_spec() == old(self).bounds_spec(),
    ;

    /// The scene's bounding box.
    fn get_bounds(&self) -> (r: (Vec3, Vec3))
        requires
            self.wf(),
        ensures
            r == self.bounds_spec(),
    ;

    /// Whether the provider accepts voxel updates after construction.
    fn is_dynamic(&self) -> (r: bool)
        ensures
            r == self.dynamic_spec(),
    ;

    /// Update one voxel; static providers refuse and stay unchanged.
    fn update_voxel(&mut self, position: Vec3, data: VoxelData) -> (r: Result<(), UpdateError>)
        requires
            old(self).wf(),
            voxel_wf(data),
        ensures
            final(self).wf(),
            !old(self).dynamic_spec() ==> r == Result::<(), UpdateError>::Err(
                UpdateError::NotDynamic,
            ) && *final(self) == *old(self),
    ;
}

/// Largest magnitude that a cube may reach along an axis
/// (`|center| + half_size` per coordinate). Keeping cubes inside this
/// range makes every coordinate computation free of overflow.
pub const COORD_BOUND: i64 = 0x8_0000_0000_0000;

/// `2^k`.
pub open spec fn pow2(k: nat) -> nat
    decreases k,
{
    if k == 0 {
        1
    } else {
        2 * pow2((k - 1) as nat)
    }
}

/// The eight children of a subdivided node, in octant-index order:
/// field `cK` sits at octant `K`.
pub struct Children {
    pub c0: OctreeNode,
    pub c1: OctreeNode,
    pub c2: OctreeNode,
    pub c3: OctreeNode,
    pub c4: OctreeNode,
    pub c5: OctreeNode,
    pub c6: OctreeNode,
    pub c7: OctreeNode,
}

/// One node of the spatial index.
pub struct OctreeNode {
    pub center: Vec3,
    pub half_size: i64,
    pub children: Option<Box<Children>>,
    pub voxel_data: Option<VoxelData>,
    pub level: u8,
}

/// The cube of `n` contains `p` (inclusive on every face).
pub open spec fn spec_contains(n: OctreeNode, p: Vec3) -> bool {
    &&& n.center.x - n.half_size <= p.x <= n.center.x + n.half_size
    &&& n.center.y - n.half_size <= p.y <= n.center.y + n.half_size
    &&& n.center.z - n.half_size <= p.z <= n.center.z + n.half_size
}

/// Octant index of `p` relative to a node centred at `c`: bit 0 set when
/// `p` lies strictly on the positive X side, bit 1 for Y, bit 2 for Z.
pub open spec fn spec_child_index(c: Vec3, p: Vec3) -> int {
    (if p.x > c.x {
        1int
    } else {
        0int
    }) + (if p.y > c.y {
        2int
    } else {
        0int
    }) + (if p.z > c.z {
        4int
    } else {
        0int
    })
}

/// The child at octant `k` of `ch`.
pub open spec fn spec_child(ch: Children, k: int) -> OctreeNode {
    if k == 0 {
        ch.c0
    } else if k == 1 {
        ch.c1
    } else if k == 2 {
        ch.c2
    } else if k == 3 {
        ch.c3
    } else if k == 4 {
        ch.c4
    } else if k == 5 {
        ch.c5
    } else if k == 6 {
        ch.c6
    } else {
        ch.c7
    }
}

/// `ch` with the child at octant `k` replaced by `n`.
pub open spec fn spec_set_child(ch: Children, k: int, n: OctreeNode) -> Children {
    if k == 0 {
        Children { c0: n, ..ch }
    } else if k == 1 {
        Children { c1: n, ..ch }
    } else if k == 2 {
        Children { c2: n, ..ch }
    } else if k == 3 {
        Children { c3: n, ..ch }
    } else if k == 4 {
        Children { c4: n, ..ch }
    } else if k == 5 {
        Children { c5: n, ..ch }
    } else if k == 6 {
        Children { c6: n, ..ch }
    } else {
        Children { c7: n, ..ch }
    }
}

/// Centre of the child at octant `k` for a parent centred at `c` with
/// child half-extent `hh`.
pub open spec fn spec_child_center(c: Vec3, hh: int, k: int) -> Vec3 {
    Vec3 {
        x: (if k % 2 == 1 {
            c.x + hh
        } else {
            c.x - hh
        }) as i64,
        y: (if (k / 2) % 2 == 1 {
            c.y + hh
        } else {
            c.y - hh
        }) as i64,
        z: (if (k / 4) % 2 == 1 {
            c.z + hh
        } else {
            c.z - hh
        }) as i64,
    }
}

/// A fresh (leaf) child of `n` at octant `k`.
pub open spec fn spec_new_child(n: OctreeNode, k: int) -> OctreeNode {
    OctreeNode {
        center: spec_child_center(n.center, n.half_size as int / 2, k),
        half_size: (n.half_size as int / 2) as i64,
        children: None,
        voxel_data: None,
        level: (n.level + 1) as u8,
    }
}

/// `n` after subdivision: eight fresh leaf children of half the extent,
/// one per octant. Subdividing an already subdivided node changes
/// nothing.
pub open spec fn spec_subdivide(n: OctreeNode) -> OctreeNode {
    if n.children is Some {
        n
    } else {
        OctreeNode {
            children: Some(
                Box::new(
                    Children {
                        c0: spec_new_child(n, 0),
                        c1: spec_new_child(n, 1),
                        c2: spec_new_child(n, 2),
                        c3: spec_new_child(n, 3),
                        c4: spec_new_child(n, 4),
                        c5: spec_new_child(n, 5),
                        c6: spec_new_child(n, 6),
                        c7: spec_new_child(n, 7),
                    },
                ),
            ),
            ..n
        }
    }
}

/// Geometric and structural consistency of the eight children of a node
/// centred at `c` whose children have half-extent `hh`: each child sits at
/// its octant's centre, has extent `hh`, and is itself well formed one
/// level down.
pub open spec fn wf_children(
    c: Vec3,
    hh: int,
    depth: int,
    max_depth: int,
    ch: Children,
) -> bool
    decreases ch,
{
    &&& ch.c0.center == spec_child_center(c, hh, 0) && ch.c0.half_size as int == hh && wf_node(
        ch.c0,
        depth + 1,
        max_depth,
    )
    &&& ch.c1.center == spec_child_center(c, hh, 1) && ch.c1.half_size as int == hh && wf_node(
        ch.c1,
        depth + 1,
        max_depth,
    )
    &&& ch.c2.center == spec_child_center(c, hh, 2) && ch.c2.half_size as int == hh && wf_node(
        ch.c2,
        depth + 1,
        max_depth,
    )
    &&& ch.c3.center == spec_child_center(c, hh, 3) && ch.c3.half_size as int == hh && wf_node(
        ch.c3,
        depth + 1,
        max_depth,
    )
    &&& ch.c4.center == spec_child_center(c, hh, 4) && ch.c4.half_size as int == hh && wf_node(
        ch.c4,
        depth + 1,
        max_depth,
    )
    &&& ch.c5.center == spec_child_center(c, hh, 5) && ch.c5.half_size as int == hh && wf_node(
        ch.c5,
        depth + 1,
        max_depth,
    )
    &&& ch.c6.center == spec_child_center(c, hh, 6) && ch.c6.half_size as int == hh && wf_node(
        ch.c6,
        depth + 1,
        max_depth,
    )
    &&& ch.c7.center == spec_child_center(c, hh, 7) && ch.c7.half_size as int == hh && wf_node(
        ch.c7,
        depth + 1,
        max_depth,
    )
}

/// Well-formedness of a node standing at `depth` in an index of depth
/// `max_depth`: its level matches, its cube stays inside the coordinate
/// range, its half-extent divides evenly down to the leaf level (so
/// subdivision is always exact), stored samples respect the value
/// invariant, and children, when present, tile the cube exactly.
pub open spec fn wf_node(n: OctreeNode, depth: int, max_depth: int) -> bool
    decreases n,
{
    &&& n.level == depth
    &&& 0 <= depth <= max_depth <= 255
    &&& 1 <= n.half_size
    &&& -COORD_BOUND <= n.center.x - n.half_size && n.center.x + n.half_size <= COORD_BOUND
    &&& -COORD_BOUND <= n.center.y - n.half_size && n.center.y + n.half_size <= COORD_BOUND
    &&& -COORD_BOUND <= n.center.z - n.half_size && n.center.z + n.half_size <= COORD_BOUND
    &&& (depth < max_depth ==> n.half_size as int % (pow2((max_depth - depth) as nat) as int)
        == 0)
    &&& (n.voxel_data matches Some(v) ==> voxel_wf(v))
    &&& match n.children {
        None => true,
        Some(ch) => {
            &&& depth < max_depth
            &&& wf_children(n.center, n.half_size as int / 2, depth, max_depth, *ch)
        },
    }
}

/// `n` after inserting `d` at `p`, descending from `depth`: a position
/// outside the cube is ignored; at `max_depth` the sample is stored on
/// the node (overwriting any previous one); above it the node is
/// subdivided on demand and the insertion continues in the octant of
/// `p`.
pub open spec fn spec_insert(
    n: OctreeNode,
    p: Vec3,
    d: VoxelData,
    depth: int,
    max_depth: int,
) -> OctreeNode
    decreases max_depth - depth,
{
    if !spec_contains(n, p) {
        n
    } else if depth >= max_depth {
        OctreeNode { voxel_data: Some(d), ..n }
    } else {
        let n1 = spec_subdivide(n);
        let k = spec_child_index(n1.center, p);
        let ch = *n1.children.unwrap();
        let ch2 = spec_set_child(ch, k, spec_insert(spec_child(ch, k), p, d, depth + 1, max_depth));
        OctreeNode { children: Some(Box::new(ch2)), ..n1 }
    }
}

/// The sample that a lookup at `p` resolves, with `rem` levels of descent
/// still owed before a direct sample may satisfy the query: outside the
/// cube the lookup is empty; once the budget is spent, a node holding a
/// sample answers immediately; otherwise the lookup descends into the
/// octant of `p`, and a childless node answers with its own sample or
/// the empty one.
pub open spec fn spec_sample(n: OctreeNode, p: Vec3, rem: int) -> VoxelData
    decreases n,
{
    if !spec_contains(n, p) {
        spec_empty_voxel()
    } else if rem <= 0 && n.voxel_data is Some {
        n.voxel_data.unwrap()
    } else {
        match n.children {
            Some(ch) => {
                let k = spec_child_index(n.center, p);
                let rem2 = if rem <= 0 {
                    0int
                } else {
                    rem - 1
                };
                spec_sample(spec_child(*ch, k), p, rem2)
            },
            None => if n.voxel_data is Some {
                n.voxel_data.unwrap()
            } else {
                spec_empty_voxel()
            },
        }
    }
}

/// How many levels below `n` the lookup of [`spec_sample`] descends
/// before answering, under the same budget `rem`.
pub open spec fn spec_resolve_depth(n: OctreeNode, p: Vec3, rem: int) -> int
    decreases n,
{
    if !spec_contains(n, p) {
        0int
    } else if rem <= 0 && n.voxel_data is Some {
        0int
    } else {
        match n.children {
            Some(ch) => {
                let k = spec_child_index(n.center, p);
                let rem2 = if rem <= 0 {
                    0int
                } else {
                    rem - 1
                };
                1 + spec_resolve_depth(spec_child(*ch, k), p, rem2)
            },
            None => 0int,
        }
    }
}

impl OctreeNode {
    /// A leaf node covering the cube of half side `half_size` at
    /// `center`.
    pub fn new(center: Vec3, half_size: i64, level: u8) -> (r: OctreeNode)
        ensures
            r == (OctreeNode { center, half_size, children: None, voxel_data: None, level }),
    {
        OctreeNode { center, half_size, children: None, voxel_data: None, level }
    }

    /// Whether `position` lies in this node's cube (faces inclusive).
    pub fn contains(&self, position: &Vec3) -> (r: bool)
        ensures
            r == spec_contains(*self, *position),
    {
        let cx = self.center.x as i128;
        let cy = self.center.y as i128;
        let cz = self.center.z as i128;
        let h = self.half_size as i128;
        let px = position.x as i128;
        let py = position.y as i128;
        let pz = position.z as i128;
        cx - h <= px && px <= cx + h && cy - h <= py && py <= cy + h && cz - h <= pz && pz <= cz
            + h
    }

    /// Octant index of `position` relative to this node's centre.
    pub fn get_child_index(&self, position: &Vec3) -> (r: usize)
        ensures
            r == spec_child_index(self.center, *position),
            r < 8,
    {
        let mut index: usize = 0;
        if position.x > self.center.x {
            index += 1;
        }
        if position.y > self.center.y {
            index += 2;
        }
        if position.z > self.center.z {
            index += 4;
        }
        index
    }

    /// Split this node into eight children of half the extent, one per
    /// octant; a no-op when children already exist.
    pub fn subdivide(&mut self)
        requires
            1 <= old(self).half_size,
            -COORD_BOUND <= old(self).center.x - old(self).half_size,
            old(self).center.x + old(self).half_size <= COORD_BOUND,
            -COORD_BOUND <= old(self).center.y - old(self).half_size,
            old(self).center.y + old(self).half_size <= COORD_BOUND,
            -COORD_BOUND <= old(self).center.z - old(self).half_size,
            old(self).center.z + old(self).half_size <= COORD_BOUND,
            old(self).level < 255,
        ensures
            *final(self) == spec_subdivide(*old(self)),
    {
        if self.children.is_some() {
            return ;
        }
        let hh = self.half_size / 2;
        let lvl = self.level + 1;
        let c = self.center;
        let ch = Children {
            c0: OctreeNode::new(Vec3::new(c.x - hh, c.y - hh, c.z - hh), hh, lvl),
            c1: OctreeNode::new(Vec3::new(c.x + hh, c.y - hh, c.z - hh), hh, lvl),
            c2: OctreeNode::new(Vec3::new(c.x - hh, c.y + hh, c.z - hh), hh, lvl),
            c3: OctreeNode::new(Vec3::new(c.x + hh, c.y + hh, c.z - hh), hh, lvl),
            c4: OctreeNode::new(Vec3::new(c.x - hh, c.y - hh, c.z + hh), hh, lvl),
            c5: OctreeNode::new(Vec3::new(c.x + hh, c.y - hh, c.z + hh), hh, lvl),
            c6: OctreeNode::new(Vec3::new(c.x - hh, c.y + hh, c.z + hh), hh, lvl),
            c7: OctreeNode::new(Vec3::new(c.x + hh, c.y + hh, c.z + hh), hh, lvl),
        };
        self.children = Some(Box::new(ch));
    }
}

/// The sparse voxel index: a root cube, a fixed maximum depth, and the
/// derived edge length of a cell at the deepest level.
pub struct Octree {
    pub root: OctreeNode,
    pub max_depth: u8,
    pub base_voxel_size: i64,
}

impl Octree {
    /// Invariant of a constructed index: a well-formed tree hanging off
    /// a root at level 0, and `base_voxel_size * 2^max_depth` equal to
    /// the root cube's full side length.
    pub open spec fn inv(self) -> bool {
        &&& wf_node(self.root, 0, self.max_depth as int)
        &&& 1 <= self.base_voxel_size
        &&& self.base_voxel_size as int * pow2(self.max_depth as nat) as int == 2
            * self.root.half_size as int
    }

    /// The lookup level actually honoured for a requested `min_level`:
    /// never finer than the index is deep.
    pub open spec fn spec_effective_level(self, min_level: u8) -> int {
        if min_level < self.max_depth {
            min_level as int
        } else {
            self.max_depth as int
        }
    }

    /// Result of [`Octree::sample`] as a function of the index state.
    pub open spec fn spec_sample_at(self, p: Vec3, min_level: u8) -> VoxelData {
        spec_sample(self.root, p, self.spec_effective_level(min_level))
    }

    /// A fresh index over the cube of half side `half_size` at `center`,
    /// subdividing at most `max_depth` times. `half_size` must divide
    /// evenly into `2^max_depth` leaf cells so that every subdivision is
    /// exact.
    pub fn new(center: Vec3, half_size: i64, max_depth: u8) -> (r: Octree)
        requires
            1 <= half_size,
            -COORD_BOUND <= center.x - half_size && center.x + half_size <= COORD_BOUND,
            -COORD_BOUND <= center.y - half_size && center.y + half_size <= COORD_BOUND,
            -COORD_BOUND <= center.z - half_size && center.z + half_size <= COORD_BOUND,
            half_size as int % (pow2(max_depth as nat) as int) == 0,
        ensures
            r.inv(),
            r.root == (OctreeNode {
                center,
                half_size,
                children: None,
                voxel_data: None,
                level: 0,
            }),
            r.max_depth == max_depth,
            r.base_voxel_size as int * pow2(max_depth as nat) as int == 2 * half_size as int,
    {
        proof {
            lemma_pow2_divisor_le(half_size as int, max_depth as nat);
        }
        let w = pow2_i64(max_depth);
        let base = (2 * half_size) / w;
        proof {
            let h2 = 2 * half_size as int;
            let wi = pow2(max_depth as nat) as int;
            let q = half_size as int / wi;
            vstd::arithmetic::div_mod::lemma_fundamental_div_mod(half_size as int, wi);
            assert(h2 == (2 * q) * wi) by (nonlinear_arith)
                requires
                    half_size as int == wi * q,
                    h2 == 2 * half_size as int,
            ;
            vstd::arithmetic::div_mod::lemma_div_by_multiple(2 * q, wi);
            assert(h2 / wi == 2 * q);
            assert(q >= 1) by (nonlinear_arith)
                requires
                    half_size as int == wi * q,
                    half_size >= 1,
                    wi >= 1,
            ;
            assert(base as int * wi == h2) by (nonlinear_arith)
                requires
                    base as int == 2 * q,
                    h2 == (2 * q) * wi,
            ;
        }
        Octree { root: OctreeNode::new(center, half_size, 0), max_depth, base_voxel_size: base }
    }

    /// Store `data` for `position`, descending to the deepest level.
    /// Positions outside the root cube are ignored.
    pub fn insert(&mut self, position: Vec3, data: VoxelData)
        requires
            old(self).inv(),
            voxel_wf(data),
        ensures
            final(self).inv(),
            final(self).root == spec_insert(
                old(self).root,
                position,
                data,
                0,
                old(self).max_depth as int,
            ),
            final(self).max_depth == old(self).max_depth,
            final(self).base_voxel_size == old(self).base_voxel_size,
    {
        let ghost old_root = self.root;
        let max_depth = self.max_depth;
        Self::insert_recursive(&mut self.root, position, data, 0, max_depth);
        proof {
            lemma_insert_wf(old_root, position, data, 0, max_depth as int);
        }
    }

    fn insert_recursive(
        node: &mut OctreeNode,
        position: Vec3,
        data: VoxelData,
        depth: u8,
        max_depth: u8,
    )
        requires
            wf_node(*old(node), depth as int, max_depth as int),
            voxel_wf(data),
        ensures
            *final(node) == spec_insert(
                *old(node),
                position,
                data,
                depth as int,
                max_depth as int,
            ),
        decreases max_depth - depth,
    {
        if !node.contains(&position) {
            return ;
        }
        if depth >= max_depth {
            node.voxel_data = Some(data);
            return ;
        }
        proof {
            lemma_subdivide_wf(*node, depth as int, max_depth as int);
        }
        if node.children.is_none() {
            node.subdivide();
        }
        let idx = node.get_child_index(&position);
        let taken = node.children.take();
        match taken {
            Some(mut boxed) => {
                if idx == 0 {
                    Self::insert_recursive(&mut boxed.c0, position, data, depth + 1, max_depth);
                } else if idx == 1 {
                    Self::insert_recursive(&mut boxed.c1, position, data, depth + 1, max_depth);
                } else if idx == 2 {
                    Self::insert_recursive(&mut boxed.c2, position, data, depth + 1, max_depth);
                } else if idx == 3 {
                    Self::insert_recursive(&mut boxed.c3, position, data, depth + 1, max_depth);
                } else if idx == 4 {
                    Self::insert_recursive(&mut boxed.c4, position, data, depth + 1, max_depth);
                } else if idx == 5 {
                    Self::insert_recursive(&mut boxed.c5, position, data, depth + 1, max_depth);
                } else if idx == 6 {
                    Self::insert_recursive(&mut boxed.c6, position, data, depth + 1, max_depth);
                } else {
                    Self::insert_recursive(&mut boxed.c7, position, data, depth + 1, max_depth);
                }
                node.children = Some(boxed);
            },
            None => {
                proof {
                    assert(false);
                }
            },
        }
    }

    /// The sample relevant at `position`, resolved no finer than
    /// `min_level` (clamped to the index depth). Positions outside the
    /// root cube resolve to the empty sample.
    pub fn sample(&self, position: Vec3, min_level: u8) -> (r: VoxelData)
        ensures
            r == self.spec_sample_at(position, min_level),
    {
        let eff = if min_level < self.max_depth {
            min_level
        } else {
            self.max_depth
        };
        Self::sample_recursive(&self.root, &position, eff)
    }

    fn sample_recursive(node: &OctreeNode, position: &Vec3, levels_left: u8) -> (r: VoxelData)
        ensures
            r == spec_sample(*node, *position, levels_left as int),
        decreases *node,
    {
        if !node.contains(position) {
            return VoxelData::empty();
        }
        if levels_left == 0 {
            if let Some(v) = node.voxel_data {
                return v;
            }
        }
        match &node.children {
            Some(ch) => {
                let k = node.get_child_index(position);
                let l2 = if levels_left > 0 {
                    levels_left - 1
                } else {
                    0
                };
                if k == 0 {
                    Self::sample_recursive(&ch.c0, position, l2)
                } else if k == 1 {
                    Self::sample_recursive(&ch.c1, position, l2)
                } else if k == 2 {
                    Self::sample_recursive(&ch.c2, position, l2)
                } else if k == 3 {
                    Self::sample_recursive(&ch.c3, position, l2)
                } else if k == 4 {
                    Self::sample_recursive(&ch.c4, position, l2)
                } else if k == 5 {
                    Self::sample_recursive(&ch.c5, position, l2)
                } else if k == 6 {
                    Self::sample_recursive(&ch.c6, position, l2)
                } else {
                    Self::sample_recursive(&ch.c7, position, l2)
                }
            },
            None => {
                if let Some(v) = node.voxel_data {
                    v
                } else {
                    VoxelData::empty()
                }
            },
        }
    }
}

/// `2^k` as an `i64`, for exponents small enough to stay in the
/// coordinate range.
pub fn pow2_i64(k: u8) -> (r: i64)
    requires
        pow2(k as nat) as int <= COORD_BOUND as int,
    ensures
        r as int == pow2(k as nat) as int,
        1 <= r,
{
    let mut w: i64 = 1;
    let mut i: u8 = 0;
    while i < k
        invariant
            i <= k,
            w as int == pow2(i as nat) as int,
            pow2(k as nat) as int <= COORD_BOUND as int,
        decreases k - i,
    {
        proof {
            lemma_pow2_increases((i + 1) as nat, k as nat);
            assert(pow2((i + 1) as nat) == 2 * pow2(i as nat));
        }
        w = w * 2;
        i = i + 1;
    }
    proof {
        lemma_pow2_pos(k as nat);
    }
    w
}

/// `2^k` is positive.
pub proof fn lemma_pow2_pos(k: nat)
    ensures
        pow2(k) >= 1,
    decreases k,
{
    if k > 0 {
        lemma_pow2_pos((k - 1) as nat);
    }
}

/// `2^a <= 2^b` when `a <= b`.
pub proof fn lemma_pow2_increases(a: nat, b: nat)
    requires
        a <= b,
    ensures
        pow2(a) <= pow2(b),
    decreases b,
{
    if a < b {
        lemma_pow2_increases(a, (b - 1) as nat);
        lemma_pow2_pos((b - 1) as nat);
    }
}

/// A power of two dividing a positive number is at most that number.
pub proof fn lemma_pow2_divisor_le(h: int, k: nat)
    requires
        1 <= h,
        h % (pow2(k) as int) == 0,
    ensures
        pow2(k) as int <= h,
{
    let w = pow2(k) as int;
    lemma_pow2_pos(k);
    vstd::arithmetic::div_mod::lemma_fundamental_div_mod(h, w);
    let q = h / w;
    assert(h == w * q);
    assert(q >= 1) by (nonlinear_arith)
        requires
            h == w * q,
            h >= 1,
            w >= 1,
    ;
    assert(w <= h) by (nonlinear_arith)
        requires
            h == w * q,
            q >= 1,
            w >= 1,
    ;
}

/// Halving a quantity divisible by `2^m` (with `m >= 1`) is exact and
/// leaves a quantity divisible by `2^(m-1)`.
pub proof fn lemma_half_divisibility(h: int, m: nat)
    requires
        1 <= h,
        1 <= m,
        h % (pow2(m) as int) == 0,
    ensures
        h % 2 == 0,
        h == 2 * (h / 2),
        1 <= h / 2,
        (h / 2) % (pow2((m - 1) as nat) as int) == 0,
{
    let p = pow2((m - 1) as nat) as int;
    lemma_pow2_pos((m - 1) as nat);
    assert(pow2(m) as int == 2 * p);
    vstd::arithmetic::div_mod::lemma_fundamental_div_mod(h, 2 * p);
    let q = h / (2 * p);
    assert(h == (2 * p) * q);
    assert(h == 2 * (p * q) && h == (p * q) * 2) by (nonlinear_arith)
        requires
            h == (2 * p) * q,
    ;
    vstd::arithmetic::div_mod::lemma_mod_multiples_basic(p * q, 2);
    assert(h % 2 == 0);
    vstd::arithmetic::div_mod::lemma_div_by_multiple(p * q, 2);
    assert(h / 2 == p * q);
    vstd::arithmetic::div_mod::lemma_mod_multiples_basic(q, p);
    assert((p * q) % p == (q * p) % p);
    assert((h / 2) % p == 0);
    assert(q >= 1) by (nonlinear_arith)
        requires
            h == (2 * p) * q,
            h >= 1,
            p >= 1,
    ;
    assert(h / 2 >= 1) by (nonlinear_arith)
        requires
            h / 2 == p * q,
            p >= 1,
            q >= 1,
    ;
}

/// Subdividing preserves well-formedness and changes nothing but the
/// children of a childless node.
pub proof fn lemma_subdivide_wf(n: OctreeNode, depth: int, max_depth: int)
    requires
        wf_node(n, depth, max_depth),
        depth < max_depth,
    ensures
        wf_node(spec_subdivide(n), depth, max_depth),
        spec_subdivide(n).center == n.center,
        spec_subdivide(n).half_size == n.half_size,
        spec_subdivide(n).level == n.level,
        spec_subdivide(n).voxel_data == n.voxel_data,
        spec_subdivide(n).children is Some,
{
    if n.children is Some {
    } else {
        let h = n.half_size as int;
        let m = (max_depth - depth) as nat;
        lemma_half_divisibility(h, m);
        let r = spec_subdivide(n);
        let hh = h / 2;
        assert forall|k: int| 0 <= k < 8 implies wf_node(#[trigger] spec_new_child(n, k), depth + 1, max_depth) by {
            let c = spec_new_child(n, k);
            assert(c.half_size as int == hh);
            if depth + 1 < max_depth {
                assert((max_depth - depth - 1) as nat == (m - 1) as nat);
            }
        }
        assert(wf_children(n.center, hh, depth, max_depth, *r.children.unwrap()));
    }
}

/// In a well-formed node with children, the child at the octant of a
/// contained position contains that position too.
pub proof fn lemma_child_contains(n: OctreeNode, p: Vec3, depth: int, max_depth: int)
    requires
        wf_node(n, depth, max_depth),
        n.children is Some,
        spec_contains(n, p),
    ensures
        spec_contains(
            spec_child(*n.children.unwrap(), spec_child_index(n.center, p)),
            p,
        ),
{
    let h = n.half_size as int;
    lemma_half_divisibility(h, (max_depth - depth) as nat);
    let hh = h / 2;
    let c = n.center;
    let ch = *n.children.unwrap();
    let k = spec_child_index(c, p);
    assert(spec_child(ch, k).center == spec_child_center(c, hh, k) && spec_child(
        ch,
        k,
    ).half_size as int == hh);
}

/// Insertion preserves well-formedness and the node's own geometry.
pub proof fn lemma_insert_wf(n: OctreeNode, p: Vec3, d: VoxelData, depth: int, max_depth: int)
    requires
        wf_node(n, depth, max_depth),
        voxel_wf(d),
    ensures
        wf_node(spec_insert(n, p, d, depth, max_depth), depth, max_depth),
        spec_insert(n, p, d, depth, max_depth).center == n.center,
        spec_insert(n, p, d, depth, max_depth).half_size == n.half_size,
        spec_insert(n, p, d, depth, max_depth).level == n.level,
    decreases max_depth - depth,
{
    if !spec_contains(n, p) {
    } else if depth >= max_depth {
    } else {
        lemma_subdivide_wf(n, depth, max_depth);
        let n1 = spec_subdivide(n);
        let k = spec_child_index(n1.center, p);
        let ch = *n1.children.unwrap();
        lemma_insert_wf(spec_child(ch, k), p, d, depth + 1, max_depth);
    }
}

/// Whatever a lookup resolves in a well-formed tree respects the value
/// invariant (stored samples do, and so does the empty sample).
pub proof fn lemma_sample_wf(n: OctreeNode, p: Vec3, rem: int, depth: int, max_depth: int)
    requires
        wf_node(n, depth, max_depth),
    ensures
        voxel_wf(spec_sample(n, p, rem)),
    decreases n,
{
    if spec_contains(n, p) && !(rem <= 0 && n.voxel_data is Some) {
        match n.children {
            Some(ch) => {
                let k = spec_child_index(n.center, p);
                let rem2 = if rem <= 0 {
                    0int
                } else {
                    rem - 1
                };
                lemma_sample_wf(spec_child(*ch, k), p, rem2, depth + 1, max_depth);
            },
            None => {},
        }
    }
}

/// Inserting the same sample at the same position twice yields the same
/// tree as inserting it once.
pub proof fn lemma_insert_idempotent(
    n: OctreeNode,
    p: Vec3,
    d: VoxelData,
    depth: int,
    max_depth: int,
)
    ensures
        spec_insert(spec_insert(n, p, d, depth, max_depth), p, d, depth, max_depth)
            == spec_insert(n, p, d, depth, max_depth),
    decreases max_depth - depth,
{
    if !spec_contains(n, p) {
    } else if depth >= max_depth {
    } else {
        let n1 = spec_subdivide(n);
        let k = spec_child_index(n1.center, p);
        let ch = *n1.children.unwrap();
        lemma_insert_idempotent(spec_child(ch, k), p, d, depth + 1, max_depth);
    }
}

/// After inserting `d` at a contained position `p`, a lookup at `p` with
/// a full depth budget resolves exactly `d`.
pub proof fn lemma_insert_then_sample(
    n: OctreeNode,
    p: Vec3,
    d: VoxelData,
    depth: int,
    max_depth: int,
)
    requires
        wf_node(n, depth, max_depth),
        voxel_wf(d),
        spec_contains(n, p),
    ensures
        spec_sample(spec_insert(n, p, d, depth, max_depth), p, max_depth - depth) == d,
    decreases max_depth - depth,
{
    if depth >= max_depth {
    } else {
        lemma_subdivide_wf(n, depth, max_depth);
        let n1 = spec_subdivide(n);
        let k = spec_child_index(n1.center, p);
        let ch = *n1.children.unwrap();
        lemma_child_contains(n1, p, depth, max_depth);
        lemma_insert_wf(spec_child(ch, k), p, d, depth + 1, max_depth);
        lemma_insert_then_sample(spec_child(ch, k), p, d, depth + 1, max_depth);
    }
}

/// A lookup never resolves above the node it starts at.
pub proof fn lemma_resolve_depth_nonneg(n: OctreeNode, p: Vec3, rem: int)
    ensures
        spec_resolve_depth(n, p, rem) >= 0,
    decreases n,
{
    match n.children {
        Some(ch) => {
            let k = spec_child_index(n.center, p);
            let rem2 = if rem <= 0 {
                0int
            } else {
                rem - 1
            };
            lemma_resolve_depth_nonneg(spec_child(*ch, k), p, rem2);
        },
        None => {},
    }
}

/// A smaller descent budget never resolves deeper: coarse lookups stop
/// at the same node or an ancestor of where finer lookups stop.
pub proof fn lemma_resolve_depth_monotone(n: OctreeNode, p: Vec3, r1: int, r2: int)
    requires
        r1 <= r2,
    ensures
        spec_resolve_depth(n, p, r1) <= spec_resolve_depth(n, p, r2),
    decreases n,
{
    lemma_resolve_depth_nonneg(n, p, r2);
    match n.children {
        Some(ch) => {
            let k = spec_child_index(n.center, p);
            let r1b = if r1 <= 0 {
                0int
            } else {
                r1 - 1
            };
            let r2b = if r2 <= 0 {
                0int
            } else {
                r2 - 1
            };
            lemma_resolve_depth_monotone(spec_child(*ch, k), p, r1b, r2b);
        },
        None => {},
    }
}

impl Octree {
    /// Containment law: a lookup at a position outside the root cube
    /// resolves the empty sample, whatever level is requested.
    pub proof fn lemma_sample_outside_empty(self, p: Vec3, min_level: u8)
        requires
            !spec_contains(self.root, p),
        ensures
            self.spec_sample_at(p, min_level) == spec_empty_voxel(),
    {
    }

    /// A freshly built index resolves the empty sample everywhere,
    /// inside the bounds as well as outside: emptiness of a lookup by
    /// itself does not tell the two apart.
    pub proof fn lemma_new_index_samples_empty(self, p: Vec3, min_level: u8)
        requires
            self.root.children is None,
            self.root.voxel_data is None,
        ensures
            self.spec_sample_at(p, min_level) == spec_empty_voxel(),
    {
    }

    /// Idempotence law: inserting the same `(position, sample)` pair
    /// twice yields the same index state as inserting it once.
    pub proof fn lemma_insert_idempotent(self, p: Vec3, d: VoxelData)
        ensures
            spec_insert(
                spec_insert(self.root, p, d, 0, self.max_depth as int),
                p,
                d,
                0,
                self.max_depth as int,
            ) == spec_insert(self.root, p, d, 0, self.max_depth as int),
    {
        lemma_insert_idempotent(self.root, p, d, 0, self.max_depth as int);
    }

    /// Read-back law: after inserting `d` at a contained position `p`,
    /// a full-depth lookup at `p` returns exactly `d`.
    pub proof fn lemma_insert_then_sample(self, p: Vec3, d: VoxelData, min_level: u8)
        requires
            self.inv(),
            voxel_wf(d),
            spec_contains(self.root, p),
            min_level >= self.max_depth,
        ensures
            spec_sample(
                spec_insert(self.root, p, d, 0, self.max_depth as int),
                p,
                self.spec_effective_level(min_level),
            ) == d,
    {
        lemma_insert_then_sample(self.root, p, d, 0, self.max_depth as int);
    }

    /// Level-of-detail law, monotone part: a coarser request (smaller
    /// `min_level`) resolves at the same depth or shallower.
    pub proof fn lemma_lod_monotonic(self, p: Vec3, l1: u8, l2: u8)
        requires
            l1 <= l2,
        ensures
            spec_resolve_depth(self.root, p, self.spec_effective_level(l1))
                <= spec_resolve_depth(self.root, p, self.spec_effective_level(l2)),
    {
        lemma_resolve_depth_monotone(
            self.root,
            p,
            self.spec_effective_level(l1),
            self.spec_effective_level(l2),
        );
    }

    /// Level-of-detail law, agreement part: once the requested level
    /// reaches the index depth, the requested level no longer matters.
    pub proof fn lemma_lod_agreement(self, p: Vec3, l1: u8, l2: u8)
        requires
            l1 >= self.max_depth,
            l2 >= self.max_depth,
        ensures
            self.spec_sample_at(p, l1) == self.spec_sample_at(p, l2),
    {
    }
}

} // verus!
