//! Closed-loop controller that trades sampling resolution for speed.
//!
//! Once per frame the render loop reports the measured frame duration;
//! the controller keeps a short window of recent durations and, when the
//! measured rate strays from the target, emits a new ray-marching step
//! size. Hysteresis (a damping factor right after an adjustment, and a
//! long stability gate before quality is improved) avoids oscillation.
//!
//! Units: frame times are microseconds, frame rates thousandths of a
//! frame per second (milli-fps), step sizes millionths of a world unit.

use vstd::prelude::*;

verus! {

/// Smallest step size the controller will ever emit (0.005 world units).
pub const MIN_STEP_MICRO: u64 = 5000;

/// Largest step size the controller will ever emit (0.05 world units).
pub const MAX_STEP_MICRO: u64 = 50000;

/// Step size a fresh controller starts from (0.02 world units).
pub const INITIAL_STEP_MICRO: u64 = 20000;

/// Number of frame durations kept in the window.
pub const HISTORY_LEN: usize = 10;

/// Largest frame duration the controller accepts (one million seconds);
/// keeps every internal sum and product inside `u64`.
pub const MAX_FRAME_US: u64 = 1_000_000_000_000;

/// Largest accepted target rate (one million fps, in milli-fps).
pub const MAX_TARGET_MILLI_FPS: u64 = 1_000_000_000;

/// Direction of the controller's most recent step-size adjustment.
#[derive(Clone, Copy, PartialEq, Eq, Structural, Debug)]
pub enum Direction {
    Decrease,
    Steady,
    Increase,
}

/// Abstract state of the controller, used by every contract.
pub struct ControllerModel {
    /// Target frame rate, milli-fps.
    pub target: u64,
    /// Current step size, micro world units.
    pub step: u64,
    /// Recent frame durations, microseconds, oldest first.
    pub window: Seq<u64>,
    /// Direction of the last adjustment.
    pub dir: Direction,
    /// Consecutive updates that changed nothing.
    pub stable: u64,
}

/// Sum of a window of frame durations.
pub open spec fn spec_window_sum(w: Seq<u64>) -> int
    decreases w.len(),
{
    if w.len() == 0 {
        0
    } else {
        spec_window_sum(w.drop_last()) + w.last()
    }
}

/// The window after recording one more duration: append, then evict the
/// oldest entry once more than [`HISTORY_LEN`] are held.
pub open spec fn spec_pushed_window(w: Seq<u64>, t: u64) -> Seq<u64> {
    let w2 = w.push(t);
    if w2.len() > HISTORY_LEN {
        w2.drop_first()
    } else {
        w2
    }
}

/// Instantaneous rate implied by one frame duration, milli-fps.
pub open spec fn spec_inst_fps(t: int) -> int {
    1_000_000_000int / t
}

/// Mean frame duration of a window, microseconds (a nominal 16 ms when
/// the window is empty).
pub open spec fn spec_avg_frame_us(w: Seq<u64>) -> int {
    if w.len() == 0 {
        16000
    } else {
        spec_window_sum(w) / w.len() as int
    }
}

/// Rate implied by the mean frame duration, milli-fps.
pub open spec fn spec_avg_fps(w: Seq<u64>) -> int {
    1_000_000_000int / spec_avg_frame_us(w)
}

/// Valid controller states: a configured target, a step size within the
/// output cap, a bounded window of plausible durations.
pub open spec fn wf_model(m: ControllerModel) -> bool {
    &&& 1 <= m.target <= MAX_TARGET_MILLI_FPS
    &&& m.step <= MAX_STEP_MICRO
    &&& m.window.len() <= HISTORY_LEN
    &&& forall|i: int| 0 <= i < m.window.len() ==> 1 <= #[trigger] m.window[i] <= MAX_FRAME_US
}

/// One control step: the new state and the emitted step size, if any.
///
/// Mirrors the per-frame policy: with fewer than three samples nothing
/// is decided; a single frame 5% under target triggers the emergency
/// branch at once; otherwise a below-target average raises the step
/// size (gently, right after a decrease), a well-above-target average
/// after a long stable run lowers it, and anything else just counts as
/// a stable frame.
pub open spec fn spec_update(m: ControllerModel, t: u64) -> (ControllerModel, Option<u64>) {
    let w = spec_pushed_window(m.window, t);
    if w.len() < 3 {
        (ControllerModel { window: w, ..m }, None)
    } else {
        let inst = spec_inst_fps(t as int);
        let avg = spec_avg_fps(w);
        if 100 * inst < 95 * m.target {
            let denom = if inst >= 10000 {
                inst
            } else {
                10000
            };
            let m0 = 1000 * m.target / denom;
            let mult = if m0 < 2000 {
                m0
            } else {
                2000
            };
            let s0 = m.step * mult / 1000;
            let step = if s0 < MAX_STEP_MICRO {
                s0
            } else {
                MAX_STEP_MICRO as int
            };
            (
                ControllerModel {
                    step: step as u64,
                    window: w,
                    dir: Direction::Increase,
                    stable: 0,
                    ..m
                },
                Some(step as u64),
            )
        } else {
            let af = if m.stable < 10 {
                500int
            } else {
                1000int
            };
            if avg < m.target {
                let factor = if m.dir is Decrease {
                    1000 + 100 * af / 1000
                } else {
                    1000 + 300 * af / 1000
                };
                let s0 = m.step * factor / 1000;
                let step = if s0 < MAX_STEP_MICRO {
                    s0
                } else {
                    MAX_STEP_MICRO as int
                };
                (
                    ControllerModel {
                        step: step as u64,
                        window: w,
                        dir: Direction::Increase,
                        stable: 0,
                        ..m
                    },
                    Some(step as u64),
                )
            } else if 10 * avg > 12 * m.target && m.stable > 15 {
                let factor = 1000 - 100 * af / 1000;
                let s0 = m.step * factor / 1000;
                let step = if s0 > MIN_STEP_MICRO {
                    s0
                } else {
                    MIN_STEP_MICRO as int
                };
                (
                    ControllerModel {
                        step: step as u64,
                        window: w,
                        dir: Direction::Decrease,
                        stable: 0,
                        ..m
                    },
                    Some(step as u64),
                )
            } else {
                let st = if m.stable < u64::MAX {
                    (m.stable + 1) as u64
                } else {
                    m.stable
                };
                (ControllerModel { window: w, stable: st, ..m }, None)
            }
        }
    }
}

/// Per-frame quality controller; see the module documentation.
pub struct PerformanceController {
    target_framerate: u64,
    current_voxel_size: u64,
    frame_time_history: Vec<u64>,
    last_adjustment_direction: Direction,
    stable_frames: u64,
}

impl View for PerformanceController {
    type V = ControllerModel;

    closed spec fn view(&self) -> ControllerModel {
        ControllerModel {
            target: self.target_framerate,
            step: self.current_voxel_size,
            window: self.frame_time_history@,
            dir: self.last_adjustment_direction,
            stable: self.stable_frames,
        }
    }
}

impl PerformanceController {
    /// The state this controller is in, as seen by every contract.
    pub open spec fn wf(&self) -> bool {
        wf_model(self@)
    }

    /// A controller aiming at `target_framerate` milli-fps, starting
    /// from the initial step size with an empty history.
    pub fn new(target_framerate: u64) -> (r: PerformanceController)
        requires
            1 <= target_framerate <= MAX_TARGET_MILLI_FPS,
        ensures
            r.wf(),
            r@ == (ControllerModel {
                target: target_framerate,
                step: INITIAL_STEP_MICRO,
                window: Seq::<u64>::empty(),
                dir: Direction::Steady,
                stable: 0,
            }),
    {
        PerformanceController {
            target_framerate,
            current_voxel_size: INITIAL_STEP_MICRO,
            frame_time_history: Vec::new(),
            last_adjustment_direction: Direction::Steady,
            stable_frames: 0,
        }
    }

    /// The step size the controller currently prescribes.
    pub fn get_current_voxel_size(&self) -> (r: u64)
        ensures
            r == self@.step,
    {
        self.current_voxel_size
    }

    /// Mean of the recorded frame durations (a nominal 16 ms before any
    /// frame is recorded).
    fn average_frame_time(&self) -> (r: u64)
        requires
            self.wf(),
        ensures
            r as int == spec_avg_frame_us(self@.window),
            1 <= r <= MAX_FRAME_US,
    {
        let n = self.frame_time_history.len();
        if n == 0 {
            return 16000;
        }
        let mut s: u64 = 0;
        let mut i: usize = 0;
        while i < n
            invariant
                i <= n,
                n == self.frame_time_history.len(),
                self.wf(),
                s as int == spec_window_sum(self.frame_time_history@.subrange(0, i as int)),
                s <= i * MAX_FRAME_US,
            decreases n - i,
        {
            proof {
                let w = self.frame_time_history@;
                assert(w.subrange(0, i + 1).drop_last() =~= w.subrange(0, i as int));
                assert(w.subrange(0, i + 1).last() == w[i as int]);
            }
            s = s + self.frame_time_history[i];
            i = i + 1;
        }
        proof {
            let w = self.frame_time_history@;
            assert(w.subrange(0, n as int) =~= w);
            lemma_window_sum_range(w);
            vstd::arithmetic::div_mod::lemma_div_is_ordered(
                n as int,
                spec_window_sum(w),
                n as int,
            );
            vstd::arithmetic::div_mod::lemma_div_by_self(n as int);
            lemma_div_le_constant(spec_window_sum(w), n as int, MAX_FRAME_US as int);
        }
        s / (n as u64)
    }

    /// Record one frame duration and decide whether the step size must
    /// change; returns the new step size exactly when it does.
    pub fn update(&mut self, frame_time: u64) -> (r: Option<u64>)
        requires
            old(self).wf(),
            1 <= frame_time <= MAX_FRAME_US,
        ensures
            final(self).wf(),
            final(self)@ == spec_update(old(self)@, frame_time).0,
            r == spec_update(old(self)@, frame_time).1,
            r matches Some(v) ==> v == final(self)@.step,
    {
        let ghost m0 = self@;
        self.frame_time_history.push(frame_time);
        if self.frame_time_history.len() > HISTORY_LEN {
            self.frame_time_history.remove(0);
            proof {
                assert(m0.window.push(frame_time).remove(0) =~= m0.window.push(
                    frame_time,
                ).drop_first());
            }
        }
        proof {
            assert(self.frame_time_history@ == spec_pushed_window(m0.window, frame_time));
        }
        if self.frame_time_history.len() < 3 {
            return None;
        }

        let inst = 1_000_000_000 / frame_time;
        let avg_us = self.average_frame_time();
        let avg = 1_000_000_000 / avg_us;

        if 100 * inst < 95 * self.target_framerate {
            // A single frame far under target: react at once, scaling by
            // how far short the frame fell, at most doubling.
            let denom = if inst >= 10000 {
                inst
            } else {
                10000
            };
            let m0v = 1000 * self.target_framerate / denom;
            let mult = if m0v < 2000 {
                m0v
            } else {
                2000
            };
            proof {
                assert(self.current_voxel_size * mult <= 100_000_000) by (nonlinear_arith)
                    requires
                        self.current_voxel_size <= 50000,
                        mult <= 2000,
                ;
            }
            let s0 = self.current_voxel_size * mult / 1000;
            self.current_voxel_size = if s0 < MAX_STEP_MICRO {
                s0
            } else {
                MAX_STEP_MICRO
            };
            self.last_adjustment_direction = Direction::Increase;
            self.stable_frames = 0;
            return Some(self.current_voxel_size);
        }

        let af: u64 = if self.stable_frames < 10 {
            500
        } else {
            1000
        };

        if avg < self.target_framerate {
            // Below target: coarser sampling, gently when the previous
            // adjustment went the other way.
            let factor = if matches!(self.last_adjustment_direction, Direction::Decrease) {
                1000 + 100 * af / 1000
            } else {
                1000 + 300 * af / 1000
            };
            proof {
                assert(self.current_voxel_size * factor <= 100_000_000) by (nonlinear_arith)
                    requires
                        self.current_voxel_size <= 50000,
                        factor <= 2000,
                ;
            }
            let s0 = self.current_voxel_size * factor / 1000;
            self.current_voxel_size = if s0 < MAX_STEP_MICRO {
                s0
            } else {
                MAX_STEP_MICRO
            };
            self.last_adjustment_direction = Direction::Increase;
            self.stable_frames = 0;
            Some(self.current_voxel_size)
        } else if 10 * avg > 12 * self.target_framerate && self.stable_frames > 15 {
            // Comfortably above target for a long stable run: spend the
            // headroom on quality.
            let factor = 1000 - 100 * af / 1000;
            proof {
                assert(self.current_voxel_size * factor <= 100_000_000) by (nonlinear_arith)
                    requires
                        self.current_voxel_size <= 50000,
                        factor <= 2000,
                ;
            }
            let s0 = self.current_voxel_size * factor / 1000;
            proof {
                let c = self.current_voxel_size as int;
                assert(c * factor <= c * 1000) by (nonlinear_arith)
                    requires
                        factor <= 1000,
                        c >= 0,
                ;
                vstd::arithmetic::div_mod::lemma_div_is_ordered(c * factor, c * 1000, 1000);
                vstd::arithmetic::div_mod::lemma_div_by_multiple(c, 1000);
                assert(c * 1000 / 1000 == c);
            }
            self.current_voxel_size = if s0 > MIN_STEP_MICRO {
                s0
            } else {
                MIN_STEP_MICRO
            };
            self.last_adjustment_direction = Direction::Decrease;
            self.stable_frames = 0;
            Some(self.current_voxel_size)
        } else {
            // In the sweet spot, or not yet stable enough to improve
            // quality.
            if self.stable_frames < u64::MAX {
                self.stable_frames = self.stable_frames + 1;
            }
            None
        }
    }
}

/// Scaling a non-negative quantity by a factor of at least one (in
/// thousandths) does not shrink it.
pub proof fn lemma_scale_ge(a: int, f: int)
    requires
        0 <= a,
        1000 <= f,
    ensures
        a * f / 1000 >= a,
{
    assert(a * f >= a * 1000) by (nonlinear_arith)
        requires
            0 <= a,
            1000 <= f,
    ;
    vstd::arithmetic::div_mod::lemma_div_is_ordered(a * 1000, a * f, 1000);
    vstd::arithmetic::div_mod::lemma_div_by_multiple(a, 1000);
}

/// Scaling a non-negative quantity by a factor of at most one (in
/// thousandths) does not grow it, and stays non-negative.
pub proof fn lemma_scale_le(a: int, f: int)
    requires
        0 <= a,
        0 <= f <= 1000,
    ensures
        0 <= a * f / 1000 <= a,
{
    assert(0 <= a * f <= a * 1000) by (nonlinear_arith)
        requires
            0 <= a,
            0 <= f <= 1000,
    ;
    vstd::arithmetic::div_mod::lemma_div_is_ordered(a * f, a * 1000, 1000);
    vstd::arithmetic::div_mod::lemma_div_is_ordered(0, a * f, 1000);
    vstd::arithmetic::div_mod::lemma_div_by_multiple(a, 1000);
    vstd::arithmetic::div_mod::lemma_div_by_multiple(0, 1000);
}

/// Warm-up law: with fewer than three recorded durations the controller
/// decides nothing; only the window grows.
pub proof fn lemma_insufficient_data(m: ControllerModel, t: u64)
    requires
        m.window.len() < 2,
    ensures
        spec_update(m, t).1 is None,
        spec_update(m, t).0 == (ControllerModel { window: m.window.push(t), ..m }),
{
}

/// Stability-gating law: a quality improvement (a `Decrease`
/// adjustment) is only ever emitted after more than fifteen consecutive
/// stable frames.
pub proof fn lemma_stability_gating(m: ControllerModel, t: u64)
    ensures
        (spec_update(m, t).1 is Some && spec_update(m, t).0.dir is Decrease) ==> m.stable
            > 15,
{
}

/// Step-size bounds law: for a target of at least 10 fps, an update
/// keeps the step size within the output band.
///
/// (Below 10 fps the emergency branch's rate clamp can scale the step
/// by less than one, which may push it under the lower bound; such
/// targets are outside this law.)
pub proof fn lemma_step_size_bounds(m: ControllerModel, t: u64)
    requires
        wf_model(m),
        1 <= t <= MAX_FRAME_US,
        MIN_STEP_MICRO <= m.step,
        10000 <= m.target,
    ensures
        MIN_STEP_MICRO <= spec_update(m, t).0.step <= MAX_STEP_MICRO,
{
    let w = spec_pushed_window(m.window, t);
    if w.len() < 3 {
    } else {
        let inst = spec_inst_fps(t as int);
        let avg = spec_avg_fps(w);
        vstd::arithmetic::div_mod::lemma_div_pos_is_pos(1_000_000_000, t as int);
        if 100 * inst < 95 * m.target {
            let denom = if inst >= 10000 {
                inst
            } else {
                10000int
            };
            let m0 = 1000 * m.target / denom;
            assert(1000 * m.target >= 1000 * denom) by (nonlinear_arith)
                requires
                    100 * inst < 95 * m.target,
                    inst >= 0,
                    10000 <= m.target,
                    denom == (if inst >= 10000 {
                        inst
                    } else {
                        10000int
                    }),
            ;
            vstd::arithmetic::div_mod::lemma_div_is_ordered(1000 * denom, 1000 * m.target, denom);
            vstd::arithmetic::div_mod::lemma_div_by_multiple(1000, denom);
            assert(m0 >= 1000);
            let mult = if m0 < 2000 {
                m0
            } else {
                2000int
            };
            lemma_scale_ge(m.step as int, mult);
        } else {
            let af = if m.stable < 10 {
                500int
            } else {
                1000int
            };
            if avg < m.target {
                let factor = if m.dir is Decrease {
                    1000 + 100 * af / 1000
                } else {
                    1000 + 300 * af / 1000
                };
                lemma_scale_ge(m.step as int, factor);
            } else if 10 * avg > 12 * m.target && m.stable > 15 {
                let factor = 1000 - 100 * af / 1000;
                lemma_scale_le(m.step as int, factor);
            } else {
            }
        }
    }
}

/// Emergency-responsiveness law: once the window is warm, a single
/// frame implying a rate at most half the target makes the very next
/// update emit a strictly larger step size, whatever the stable-frame
/// count.
///
/// The two side conditions delimit where a strict increase is possible
/// at all: the step must not already sit at the cap, and the target
/// must be at least 20 fps (under that, the 10 fps floor in the rate
/// clamp can cancel the increase).
pub proof fn lemma_emergency_responsiveness(m: ControllerModel, t: u64)
    requires
        wf_model(m),
        1 <= t <= MAX_FRAME_US,
        m.window.len() >= 2,
        MIN_STEP_MICRO <= m.step,
        m.step < MAX_STEP_MICRO,
        20000 <= m.target,
        2 * spec_inst_fps(t as int) <= m.target,
    ensures
        spec_update(m, t).1 is Some,
        spec_update(m, t).1.unwrap() > m.step,
{
    let w = spec_pushed_window(m.window, t);
    assert(w.len() >= 3);
    let inst = spec_inst_fps(t as int);
    vstd::arithmetic::div_mod::lemma_div_pos_is_pos(1_000_000_000, t as int);
    assert(100 * inst < 95 * m.target);
    let denom = if inst >= 10000 {
        inst
    } else {
        10000int
    };
    let m0 = 1000 * m.target / denom;
    assert(1000 * m.target >= 2000 * denom) by (nonlinear_arith)
        requires
            2 * inst <= m.target,
            20000 <= m.target,
            denom == (if inst >= 10000 {
                inst
            } else {
                10000int
            }),
    ;
    vstd::arithmetic::div_mod::lemma_div_is_ordered(2000 * denom, 1000 * m.target, denom);
    vstd::arithmetic::div_mod::lemma_div_by_multiple(2000, denom);
    assert(m0 >= 2000);
    let s0 = m.step * 2000 / 1000;
    assert(m.step * 2000 == (2 * m.step) * 1000);
    vstd::arithmetic::div_mod::lemma_div_by_multiple(2 * m.step as int, 1000);
    assert(s0 == 2 * m.step);
}

/// A window of plausible durations sums to between its length and its
/// length times the largest duration.
pub proof fn lemma_window_sum_range(w: Seq<u64>)
    requires
        forall|i: int| 0 <= i < w.len() ==> 1 <= #[trigger] w[i] <= MAX_FRAME_US,
    ensures
        w.len() <= spec_window_sum(w) <= w.len() * MAX_FRAME_US,
    decreases w.len(),
{
    if w.len() > 0 {
        lemma_window_sum_range(w.drop_last());
    }
}

/// `a / d <= c` when `a <= d * c` (for positive `d`).
pub proof fn lemma_div_le_constant(a: int, d: int, c: int)
    requires
        0 <= a,
        1 <= d,
        0 <= c,
        a <= d * c,
    ensures
        a / d <= c,
    decreases 0int,
{
    vstd::arithmetic::div_mod::lemma_div_is_ordered(a, d * c, d);
    vstd::arithmetic::div_mod::lemma_div_by_multiple(c, d);
    assert(d * c == c * d) by (nonlinear_arith);
}

} // verus!
