//! Debug overlay settings and frame timing.

use vstd::prelude::*;

verus! {

/// Which debug displays are shown.
#[derive(Clone, Copy, PartialEq, Eq, Structural, Debug, Default)]
pub struct DebugSettings {
    /// Master toggle for all debug displays
    pub enabled: bool,
    /// Show FPS counter
    pub show_fps: bool,
    /// Show entity count
    pub show_entity_count: bool,
    /// Show network statistics
    pub show_network_stats: bool,
    /// Show nutrient values
    pub show_nutrients: bool,
    /// Show game state
    pub show_game_state: bool,
    /// Visualize network graph edges
    pub show_network_graph: bool,
    /// Show cursor world position
    pub show_cursor_position: bool,
}

impl DebugSettings {
    /// Every display on, but the network graph, which is costly to draw.
    pub fn all_enabled() -> (r: DebugSettings)
        ensures
            r == (DebugSettings {
                enabled: true,
                show_fps: true,
                show_entity_count: true,
                show_network_stats: true,
                show_nutrients: true,
                show_game_state: true,
                show_network_graph: false,
                show_cursor_position: true,
            }),
    {
        DebugSettings {
            enabled: true,
            show_fps: true,
            show_entity_count: true,
            show_network_stats: true,
            show_nutrients: true,
            show_game_state: true,
            show_network_graph: false,
            show_cursor_position: true,
        }
    }

    /// Flip the master toggle.
    pub fn toggle(&mut self)
        ensures
            *final(self) == (DebugSettings { enabled: !old(self).enabled, ..*old(self) }),
    {
        self.enabled = !self.enabled;
    }

    /// Flip the network graph display.
    pub fn toggle_network_graph(&mut self)
        ensures
            *final(self) == (DebugSettings { show_network_graph: !old(self).show_network_graph, ..*old(self) }),
    {
        self.show_network_graph = !self.show_network_graph;
    }
}

/// Microseconds in a second.
pub const MICROS: u64 = 1_000_000;

/// The sum of a run of frame times.
pub open spec fn total(s: Seq<u32>) -> int
    decreases s.len(),
{
    if s.len() == 0 {
        0
    } else {
        total(s.drop_last()) + s.last()
    }
}

/// The longest of a run of frame times; zero for none.
pub open spec fn longest(s: Seq<u32>) -> u32
    decreases s.len(),
{
    if s.len() == 0 {
        0
    } else if s.last() >= longest(s.drop_last()) {
        s.last()
    } else {
        longest(s.drop_last())
    }
}

/// The most recent frame times, in microseconds, over a bounded window.
#[derive(Debug)]
pub struct FrameTimeTracker {
    /// Recent frame times in microseconds, oldest first
    pub frame_times: Vec<u32>,
    /// Maximum number of samples to keep
    pub max_samples: usize,
}

impl Default for FrameTimeTracker {
    /// A window of sixty frames, a second at sixty frames per second.
    fn default() -> (r: FrameTimeTracker)
        ensures
            r.frame_times@.len() == 0,
            r.max_samples == 60,
    {
        FrameTimeTracker::new(60)
    }
}

impl FrameTimeTracker {
    pub open spec fn wf(self) -> bool {
        self.frame_times@.len() <= self.max_samples
    }

    /// An empty window of `max_samples` frames.
    pub fn new(max_samples: usize) -> (r: FrameTimeTracker)
        ensures
            r.frame_times@.len() == 0,
            r.max_samples == max_samples,
    {
        FrameTimeTracker { frame_times: Vec::new(), max_samples }
    }

    /// Record a frame of `delta_micros`, dropping the oldest when the window is full.
    pub fn record(&mut self, delta_micros: u32)
        requires
            old(self).wf(),
            old(self).max_samples > 0,
        ensures
            final(self).wf(),
            final(self).max_samples == old(self).max_samples,
            final(self).frame_times@ == (if old(self).frame_times@.len() >= old(self).max_samples {
                old(self).frame_times@.drop_first()
            } else {
                old(self).frame_times@
            }).push(delta_micros),
    {
        if self.frame_times.len() >= self.max_samples {
            self.frame_times.remove(0);
        }
        self.frame_times.push(delta_micros);
        proof {
            if old(self).frame_times@.len() >= old(self).max_samples {
                assert(old(self).frame_times@.remove(0) =~= old(self).frame_times@.drop_first());
            }
        }
    }

    fn sum(&self) -> (r: u128)
        ensures
            r == total(self.frame_times@),
    {
        let mut acc: u128 = 0;
        let mut i: usize = 0;
        while i < self.frame_times.len()
            invariant
                i <= self.frame_times@.len(),
                acc == total(self.frame_times@.subrange(0, i as int)),
                acc <= i * 0xffff_ffff,
            decreases self.frame_times@.len() - i,
        {
            assert(self.frame_times@.subrange(0, i + 1).drop_last() =~= self.frame_times@.subrange(0, i as int));
            acc = acc + self.frame_times[i] as u128;
            i = i + 1;
        }
        assert(self.frame_times@.subrange(0, i as int) =~= self.frame_times@);
        acc
    }

    /// Frames per second over the window, rounded down; zero for an empty
    /// window or one of no time.
    pub fn average_fps(&self) -> (r: u128)
        ensures
            r == (if self.frame_times@.len() == 0 || total(self.frame_times@) == 0 {
                0
            } else {
                (self.frame_times@.len() * MICROS) as int / total(self.frame_times@)
            }),
    {
        let n = self.frame_times.len();
        if n == 0 {
            return 0;
        }
        let s = self.sum();
        if s == 0 {
            return 0;
        }
        assert(n as u128 * 1_000_000 <= 0xffff_ffff_ffff_ffff * 1_000_000) by (nonlinear_arith)
            requires
                n <= 0xffff_ffff_ffff_ffff,
        ;
        n as u128 * 1_000_000 / s
    }

    /// Frames per second of the slowest frame in the window, rounded down;
    /// zero for an empty window or a frame of no time.
    pub fn min_fps(&self) -> (r: u64)
        ensures
            r == (if longest(self.frame_times@) == 0 {
                0
            } else {
                MICROS as int / longest(self.frame_times@) as int
            }),
    {
        let mut worst: u32 = 0;
        let mut i: usize = 0;
        while i < self.frame_times.len()
            invariant
                i <= self.frame_times@.len(),
                worst == longest(self.frame_times@.subrange(0, i as int)),
            decreases self.frame_times@.len() - i,
        {
            assert(self.frame_times@.subrange(0, i + 1).drop_last() =~= self.frame_times@.subrange(0, i as int));
            if self.frame_times[i] >= worst {
                worst = self.frame_times[i];
            }
            i = i + 1;
        }
        assert(self.frame_times@.subrange(0, i as int) =~= self.frame_times@);
        if worst == 0 {
            0
        } else {
            MICROS / worst as u64
        }
    }

    /// How many frames are in the window.
    pub fn sample_count(&self) -> (r: usize)
        ensures
            r == self.frame_times@.len(),
    {
        self.frame_times.len()
    }

    /// Forget every recorded frame.
    pub fn clear(&mut self)
        ensures
            final(self).frame_times@.len() == 0,
            final(self).max_samples == old(self).max_samples,
    {
        self.frame_times.clear();
    }
}

} // verus!
