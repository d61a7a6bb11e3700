//! Frame-statistics bookkeeping: a sliding window of recent frame
//! durations, a per-second frame count history, and optional camera
//! position samples, from which report figures are derived.
//!
//! The monitor never reads a clock: the caller passes both the frame
//! duration and the elapsed wall-clock time, in microseconds.

use vstd::prelude::*;

use crate::performance::MAX_FRAME_US;
use crate::vec3::Vec3;

verus! {

/// Number of recent frame durations kept for the current-rate figure.
pub const MONITOR_WINDOW_LEN: usize = 120;

/// Abstract state of the monitor, used by every contract.
pub struct MonitorModel {
    /// Last frame durations, microseconds, oldest first.
    pub window: Seq<u64>,
    /// One entry per completed second: (second index, frames in it).
    pub history: Seq<(u64, u64)>,
    /// Index of the wall-clock second the monitor is currently in.
    pub last_second: u64,
    /// Frames counted within the current second so far.
    pub frames_in_current_second: u64,
    /// Frames recorded over the whole run.
    pub total_frames: u64,
    /// Recorded camera samples: (elapsed microseconds, position).
    pub camera_positions: Seq<(u64, Vec3)>,
}

/// A counter one higher, held at the type's ceiling.
pub open spec fn spec_sat_inc(x: u64) -> u64 {
    if x < u64::MAX {
        (x + 1) as u64
    } else {
        x
    }
}

/// Sum of a window of frame durations.
pub open spec fn spec_frame_sum(w: Seq<u64>) -> int
    decreases w.len(),
{
    if w.len() == 0 {
        0
    } else {
        spec_frame_sum(w.drop_last()) + w.last()
    }
}

/// Smallest entry of a non-empty window.
pub open spec fn spec_frame_min(w: Seq<u64>) -> u64
    decreases w.len(),
{
    if w.len() <= 1 {
        w[0]
    } else if w.last() < spec_frame_min(w.drop_last()) {
        w.last()
    } else {
        spec_frame_min(w.drop_last())
    }
}

/// Largest entry of a non-empty window.
pub open spec fn spec_frame_max(w: Seq<u64>) -> u64
    decreases w.len(),
{
    if w.len() <= 1 {
        w[0]
    } else if w.last() > spec_frame_max(w.drop_last()) {
        w.last()
    } else {
        spec_frame_max(w.drop_last())
    }
}

/// The monitor after recording one frame: the duration joins the
/// window (evicting the oldest past the window length), the counters
/// advance, an optional camera sample is appended, and on crossing into
/// a new wall-clock second the finished second's frame count moves into
/// the history.
pub open spec fn spec_record(
    m: MonitorModel,
    frame_us: u64,
    elapsed_us: u64,
    cam: Option<Vec3>,
) -> MonitorModel {
    let w0 = m.window.push(frame_us);
    let w = if w0.len() > MONITOR_WINDOW_LEN {
        w0.drop_first()
    } else {
        w0
    };
    let total = spec_sat_inc(m.total_frames);
    let fics = spec_sat_inc(m.frames_in_current_second);
    let cur = elapsed_us / 1_000_000;
    let cams = match cam {
        Some(p) => m.camera_positions.push((elapsed_us, p)),
        None => m.camera_positions,
    };
    if cur > m.last_second {
        MonitorModel {
            window: w,
            history: m.history.push((m.last_second, fics)),
            last_second: cur,
            frames_in_current_second: 0,
            total_frames: total,
            camera_positions: cams,
        }
    } else {
        MonitorModel {
            window: w,
            history: m.history,
            last_second: m.last_second,
            frames_in_current_second: fics,
            total_frames: total,
            camera_positions: cams,
        }
    }
}

/// Rate implied by the mean of the recorded window, milli-fps; zero
/// before any frame was recorded.
pub open spec fn spec_current_fps(w: Seq<u64>) -> int {
    if w.len() == 0 {
        0
    } else {
        1_000_000_000int / (spec_frame_sum(w) / w.len() as int)
    }
}

/// Whole-run average rate, milli-fps, saturating at the type ceiling;
/// zero while no time has elapsed.
pub open spec fn spec_average_fps(total_frames: u64, elapsed_us: u64) -> u64 {
    if elapsed_us == 0 {
        0
    } else {
        let v = total_frames * 1_000_000_000int / (elapsed_us as int);
        if v > u64::MAX {
            u64::MAX
        } else {
            v as u64
        }
    }
}

/// Valid monitor states: a bounded window of plausible durations.
pub open spec fn wf_monitor(m: MonitorModel) -> bool {
    &&& m.window.len() <= MONITOR_WINDOW_LEN
    &&& forall|i: int| 0 <= i < m.window.len() ==> 1 <= #[trigger] m.window[i] <= MAX_FRAME_US
}

/// Report figures derived from the monitor; rates are milli-fps, frame
/// times microseconds.
#[derive(Clone, Copy, PartialEq, Eq, Debug)]
pub struct PerformanceStats {
    pub total_frames: u64,
    pub average_milli_fps: u64,
    pub current_milli_fps: u64,
    /// Best (smallest) recent frame time, absent before the first frame.
    pub min_frame_us: Option<u64>,
    /// Worst (largest) recent frame time, absent before the first frame.
    pub max_frame_us: Option<u64>,
}

/// Frame-statistics recorder; see the module documentation.
pub struct PerformanceMonitor {
    frame_times: Vec<u64>,
    fps_history: Vec<(u64, u64)>,
    last_second: u64,
    frames_in_current_second: u64,
    total_frames: u64,
    camera_positions: Vec<(u64, Vec3)>,
}

impl View for PerformanceMonitor {
    type V = MonitorModel;

    closed spec fn view(&self) -> MonitorModel {
        MonitorModel {
            window: self.frame_times@,
            history: self.fps_history@,
            last_second: self.last_second,
            frames_in_current_second: self.frames_in_current_second,
            total_frames: self.total_frames,
            camera_positions: self.camera_positions@,
        }
    }
}

impl PerformanceMonitor {
    /// The state this monitor is in, as seen by every contract.
    pub open spec fn wf(&self) -> bool {
        wf_monitor(self@)
    }

    /// A monitor with no frames recorded yet.
    pub fn new() -> (r: PerformanceMonitor)
        ensures
            r.wf(),
            r@ == (MonitorModel {
                window: Seq::<u64>::empty(),
                history: Seq::<(u64, u64)>::empty(),
                last_second: 0,
                frames_in_current_second: 0,
                total_frames: 0,
                camera_positions: Seq::<(u64, Vec3)>::empty(),
            }),
    {
        PerformanceMonitor {
            frame_times: Vec::new(),
            fps_history: Vec::new(),
            last_second: 0,
            frames_in_current_second: 0,
            total_frames: 0,
            camera_positions: Vec::new(),
        }
    }

    /// Record one frame of `frame_time` microseconds observed
    /// `elapsed_us` microseconds into the run, with an optional camera
    /// position sample.
    pub fn record_frame(&mut self, frame_time: u64, elapsed_us: u64, camera_position: Option<Vec3>)
        requires
            old(self).wf(),
            1 <= frame_time <= MAX_FRAME_US,
        ensures
            final(self).wf(),
            final(self)@ == spec_record(old(self)@, frame_time, elapsed_us, camera_position),
    {
        let ghost m0 = self@;
        self.frame_times.push(frame_time);
        if self.frame_times.len() > MONITOR_WINDOW_LEN {
            self.frame_times.remove(0);
            proof {
                assert(m0.window.push(frame_time).remove(0) =~= m0.window.push(
                    frame_time,
                ).drop_first());
            }
        }
        if self.total_frames < u64::MAX {
            self.total_frames = self.total_frames + 1;
        }
        if self.frames_in_current_second < u64::MAX {
            self.frames_in_current_second = self.frames_in_current_second + 1;
        }
        if let Some(pos) = camera_position {
            self.camera_positions.push((elapsed_us, pos));
        }
        let current_second = elapsed_us / 1_000_000;
        if current_second > self.last_second {
            self.fps_history.push((self.last_second, self.frames_in_current_second));
            self.last_second = current_second;
            self.frames_in_current_second = 0;
        }
    }

    /// Rate implied by the mean recent frame time, milli-fps; zero
    /// before any frame was recorded.
    pub fn get_current_fps(&self) -> (r: u64)
        requires
            self.wf(),
        ensures
            r as int == spec_current_fps(self@.window),
    {
        let n = self.frame_times.len();
        if n == 0 {
            return 0;
        }
        let s = self.sum_frame_times();
        let avg_us = s / (n as u64);
        proof {
            lemma_frame_sum_range(self.frame_times@);
            vstd::arithmetic::div_mod::lemma_div_is_ordered(
                n as int,
                spec_frame_sum(self.frame_times@),
                n as int,
            );
            vstd::arithmetic::div_mod::lemma_div_by_self(n as int);
        }
        1_000_000_000 / avg_us
    }

    /// Whole-run average rate, milli-fps; zero while no time has
    /// elapsed.
    pub fn get_average_fps(&self, elapsed_us: u64) -> (r: u64)
        ensures
            r == spec_average_fps(self@.total_frames, elapsed_us),
    {
        if elapsed_us == 0 {
            return 0;
        }
        let wide = (self.total_frames as u128) * 1_000_000_000u128 / (elapsed_us as u128);
        if wide > u64::MAX as u128 {
            u64::MAX
        } else {
            wide as u64
        }
    }

    /// Frames recorded over the whole run.
    pub fn get_total_frames(&self) -> (r: u64)
        ensures
            r == self@.total_frames,
    {
        self.total_frames
    }

    /// One entry per completed second: (second index, frames in it).
    pub fn get_fps_history(&self) -> (r: &Vec<(u64, u64)>)
        ensures
            r@ == self@.history,
    {
        &self.fps_history
    }

    /// Recorded camera samples: (elapsed microseconds, position).
    pub fn get_camera_positions(&self) -> (r: &Vec<(u64, Vec3)>)
        ensures
            r@ == self@.camera_positions,
    {
        &self.camera_positions
    }

    /// Frames counted within the current, not yet completed second.
    pub fn get_frames_in_current_second(&self) -> (r: u64)
        ensures
            r == self@.frames_in_current_second,
    {
        self.frames_in_current_second
    }

    /// Index of the wall-clock second the monitor is currently in.
    pub fn get_last_second(&self) -> (r: u64)
        ensures
            r == self@.last_second,
    {
        self.last_second
    }

    /// The report figures at `elapsed_us` microseconds into the run.
    pub fn report_stats(&self, elapsed_us: u64) -> (r: PerformanceStats)
        requires
            self.wf(),
        ensures
            r.total_frames == self@.total_frames,
            r.average_milli_fps == spec_average_fps(self@.total_frames, elapsed_us),
            r.current_milli_fps as int == spec_current_fps(self@.window),
            self@.window.len() == 0 ==> r.min_frame_us is None && r.max_frame_us is None,
            self@.window.len() > 0 ==> r.min_frame_us == Some(spec_frame_min(self@.window))
                && r.max_frame_us == Some(spec_frame_max(self@.window)),
    {
        let n = self.frame_times.len();
        let mut min_frame_us: Option<u64> = None;
        let mut max_frame_us: Option<u64> = None;
        if n > 0 {
            let mut mn: u64 = self.frame_times[0];
            let mut mx: u64 = self.frame_times[0];
            let mut i: usize = 1;
            while i < n
                invariant
                    1 <= i <= n,
                    n == self.frame_times.len(),
                    mn == spec_frame_min(self.frame_times@.subrange(0, i as int)),
                    mx == spec_frame_max(self.frame_times@.subrange(0, i as int)),
                decreases n - i,
            {
                proof {
                    let w = self.frame_times@;
                    assert(w.subrange(0, i + 1).drop_last() =~= w.subrange(0, i as int));
                    assert(w.subrange(0, i + 1).last() == w[i as int]);
                }
                let v = self.frame_times[i];
                if v < mn {
                    mn = v;
                }
                if v > mx {
                    mx = v;
                }
                i = i + 1;
            }
            proof {
                assert(self.frame_times@.subrange(0, n as int) =~= self.frame_times@);
            }
            min_frame_us = Some(mn);
            max_frame_us = Some(mx);
        }
        PerformanceStats {
            total_frames: self.get_total_frames(),
            average_milli_fps: self.get_average_fps(elapsed_us),
            current_milli_fps: self.get_current_fps(),
            min_frame_us,
            max_frame_us,
        }
    }

    /// Sum of the recorded window.
    fn sum_frame_times(&self) -> (r: u64)
        requires
            self.wf(),
        ensures
            r as int == spec_frame_sum(self@.window),
    {
        let n = self.frame_times.len();
        let mut s: u64 = 0;
        let mut i: usize = 0;
        while i < n
            invariant
                i <= n,
                n == self.frame_times.len(),
                self.wf(),
                s as int == spec_frame_sum(self.frame_times@.subrange(0, i as int)),
                s <= i * MAX_FRAME_US,
            decreases n - i,
        {
            proof {
                let w = self.frame_times@;
                assert(w.subrange(0, i + 1).drop_last() =~= w.subrange(0, i as int));
                assert(w.subrange(0, i + 1).last() == w[i as int]);
            }
            s = s + self.frame_times[i];
            i = i + 1;
        }
        proof {
            assert(self.frame_times@.subrange(0, n as int) =~= self.frame_times@);
        }
        s
    }
}

/// A window of plausible durations sums to between its length and its
/// length times the largest duration.
pub proof fn lemma_frame_sum_range(w: Seq<u64>)
    requires
        forall|i: int| 0 <= i < w.len() ==> 1 <= #[trigger] w[i] <= MAX_FRAME_US,
    ensures
        w.len() <= spec_frame_sum(w) <= w.len() * MAX_FRAME_US,
    decreases w.len(),
{
    if w.len() > 0 {
        lemma_frame_sum_range(w.drop_last());
    }
}

} // verus!
