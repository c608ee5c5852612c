//! Decision logic of the game loop driver: the view state machine, frame
//! pacing, the frame-rate counter, the key-state snapshot, and startup
//! configuration. The loop that performs I/O lives outside this crate and
//! only carries out the decisions made here.

use vstd::prelude::*;

verus! {

/// The instruction a view hands back from its advance step. `V` is the
/// caller's representation of a view; the driver treats it as opaque.
pub enum ViewAction<V> {
    /// Keep the current view.
    Continue,
    /// Drop the current view and make the payload the active view.
    ReplaceView(V),
    /// Terminate the loop.
    Quit,
}

/// The driver's state: running with an active view, or terminated.
pub enum LoopState<V> {
    Running(V),
    Terminated,
}

/// The state after one tick: a quit signal observed in the event snapshot
/// terminates the loop whatever the view decided; otherwise the view's
/// action is applied.
pub open spec fn spec_transition<V>(view: V, quit_requested: bool, action: ViewAction<V>) -> LoopState<V> {
    if quit_requested {
        LoopState::Terminated
    } else {
        match action {
            ViewAction::Continue => LoopState::Running(view),
            ViewAction::ReplaceView(next) => LoopState::Running(next),
            ViewAction::Quit => LoopState::Terminated,
        }
    }
}

/// Applies the view's action for this tick. The external quit signal is
/// checked independently of view logic and takes priority.
pub fn transition<V>(view: V, quit_requested: bool, action: ViewAction<V>) -> (s: LoopState<V>)
    ensures
        s == spec_transition(view, quit_requested, action),
{
    if quit_requested {
        return LoopState::Terminated;
    }
    match action {
        ViewAction::Continue => LoopState::Running(view),
        ViewAction::ReplaceView(next) => LoopState::Running(next),
        ViewAction::Quit => LoopState::Terminated,
    }
}

/// Replacing the view takes effect within the same tick: after a
/// `ReplaceView`, and absent a quit signal, the running view is the new
/// one, so it is the new view that renders before the frame presents, and
/// the old view is never consulted again.
pub proof fn lemma_replace_view_takes_effect<V>(old_view: V, next_view: V)
    ensures
        spec_transition(old_view, false, ViewAction::ReplaceView(next_view))
            == LoopState::<V>::Running(next_view),
{
}

/// An external quit signal terminates the loop whatever the view decides.
pub proof fn lemma_quit_signal_has_priority<V>(view: V, action: ViewAction<V>)
    ensures
        spec_transition(view, true, action) == LoopState::<V>::Terminated,
{
}

/// What to do with the tick that just started, measured `dt` milliseconds
/// after the previous tick began.
pub enum FramePacing {
    /// The tick came too early: sleep this many milliseconds and try
    /// again without advancing game state.
    Wait(u32),
    /// Run the tick; the payload is `dt`, the simulated time to hand to
    /// the view in milliseconds.
    Run(u32),
}

/// Frame pacing: the interval is a minimum frame duration, never a
/// maximum. A short frame sleeps out exactly the difference and does not
/// advance simulated time; a long frame runs with the full measured `dt`.
pub fn pace_frame(dt: u32, interval: u32) -> (p: FramePacing)
    ensures
        dt < interval ==> p == FramePacing::Wait((interval - dt) as u32),
        dt >= interval ==> p == FramePacing::Run(dt),
{
    if dt < interval {
        FramePacing::Wait(interval - dt)
    } else {
        FramePacing::Run(dt)
    }
}

/// The sleep issued by `pace_frame` is strictly bounded by the interval,
/// so sleeping is never longer than one frame.
pub proof fn lemma_wait_bounded(dt: u32, interval: u32)
    requires
        dt < interval,
    ensures
        0 < interval - dt <= interval,
{
}

/// Rolling one-second counter of completed frames, for diagnostic
/// throughput reporting; it never influences game state.
pub struct FpsCounter {
    /// Frames completed since the current one-second window opened.
    pub frames: u16,
    /// Tick time at which the current one-second window opened.
    pub last_second: u32,
}

impl FpsCounter {
    /// A counter whose first window opens now.
    pub fn new(now: u32) -> (c: FpsCounter)
        ensures
            c.frames == 0,
            c.last_second == now,
    {
        FpsCounter { frames: 0, last_second: now }
    }

    /// Counts one completed frame. When more than a second has passed
    /// since the window opened, reports the frames of that window and
    /// opens a new one at `now`; otherwise reports nothing.
    pub fn record_frame(&mut self, now: u32) -> (report: Option<u16>)
        requires
            old(self).last_second <= now,
            old(self).frames < u16::MAX,
        ensures
            now - old(self).last_second > 1000 ==> {
                &&& report == Some((old(self).frames + 1) as u16)
                &&& final(self).frames == 0
                &&& final(self).last_second == now
            },
            now - old(self).last_second <= 1000 ==> {
                &&& report is None
                &&& final(self).frames == old(self).frames + 1
                &&& final(self).last_second == old(self).last_second
            },
    {
        self.frames = self.frames + 1;
        if now - self.last_second > 1000 {
            let report = self.frames;
            self.frames = 0;
            self.last_second = now;
            Some(report)
        } else {
            None
        }
    }
}

/// The fixed startup configuration the driver applies: window size,
/// nominal frame interval, and the initial audio channel count.
pub struct Config {
    pub window_w: u32,
    pub window_h: u32,
    /// Nominal tick duration in milliseconds.
    pub interval_ms: u32,
    /// Audio channels allocated at startup.
    pub audio_channels: i64,
}

impl Config {
    /// The stock configuration: an 800 by 600 window, sixty ticks per
    /// second, and thirty-two audio channels.
    pub fn standard() -> (c: Config)
        ensures
            c.window_w == 800,
            c.window_h == 600,
            c.interval_ms == 1000u32 / 60,
            c.audio_channels == 32,
    {
        Config { window_w: 800, window_h: 600, interval_ms: 1000 / 60, audio_channels: 32 }
    }
}

/// The channel count to allocate after a playback failure: the pool
/// doubles, once per failed attempt, so one growth step always suffices
/// for channel exhaustion.
pub fn channels_after_failure(allocated: i64) -> (n: i64)
    requires
        1 <= allocated <= i64::MAX / 2,
    ensures
        n == 2 * allocated,
{
    2 * allocated
}

} // verus!
