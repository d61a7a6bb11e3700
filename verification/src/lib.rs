//! A sparse voxel index and a closed-loop quality controller for a volume
//! renderer.
//!
//! All quantities are fixed-point integers so that every computation is
//! exact and deterministic:
//! - spatial coordinates are `i64` values in a caller-chosen unit (the index
//!   never interprets the unit, it only subdivides cubes);
//! - colour and density channels are thousandths of the unit range;
//! - ray-marching step sizes are millionths of a world unit;
//! - frame times are microseconds and frame rates thousandths of a frame
//!   per second.
//!
//! The octree ([`octree::Octree`]) stores sparse volumetric samples and
//! resolves point queries with a level-of-detail bound; the controller
//! ([`performance::PerformanceController`]) turns measured frame times into
//! step-size adjustments that hold a target frame rate.

pub mod octree;
pub mod performance;
pub mod performance_monitor;
pub mod static_provider;
pub mod vec3;
pub mod voxel;
