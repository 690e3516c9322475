//! Frame-pacing telemetry, gathered over windows of half a second.
//!
//! The aggregator accumulates one duration per presented frame. The first
//! frame that ends half a second or more after the last window closed closes
//! the window: the statistics of the accumulated frames become the current
//! sample and accumulation starts afresh.

use vstd::prelude::*;
use crate::stats::{
    events_per_second_milli, jitter_micros, mean_gap, one_percent_low, one_percent_low_milli,
    rate_milli,
};

verus! {

/// Length of a sampling window, in microseconds.
pub const WINDOW_MICROS: u64 = 500_000;

/// One telemetry reading. Rates are thousandths of a frame per second,
/// durations are microseconds.
#[derive(Clone, Copy, Debug, PartialEq, Eq)]
pub struct TelemetrySample {
    /// Mean frame rate of the window that closed last.
    pub current_fps: u64,
    /// Lowest window frame rate seen so far; zero until a window has had a
    /// rate other than zero.
    pub min_fps_ever: u64,
    /// Highest window frame rate seen so far.
    pub max_fps_ever: u64,
    /// Frame rate of the slowest hundredth of the frames of that window.
    pub one_percent_low_fps: u64,
    /// Mean distance between consecutive frame durations of that window.
    pub jitter: u64,
    /// Time the frame that closed the window waited for its image.
    pub acquire_latency: u64,
}

/// What the frame loop measured for one presented frame, in microseconds.
#[derive(Clone, Copy, Debug, PartialEq, Eq)]
pub struct FrameTiming {
    /// Time since the frame before was presented.
    pub frame: u64,
    /// Time since the last window closed.
    pub since_close: u64,
    /// Time the frame waited for the image it drew to.
    pub acquire: u64,
}

/// The sample before any window has closed.
pub open spec fn blank_sample() -> TelemetrySample {
    TelemetrySample {
        current_fps: 0,
        min_fps_ever: 0,
        max_fps_ever: 0,
        one_percent_low_fps: 0,
        jitter: 0,
        acquire_latency: 0,
    }
}

/// The lowest rate after a window of rate `current`. The extremes are unset
/// while the highest rate is zero; the first rate other than zero sets both,
/// and from then on the lowest rate only falls.
pub open spec fn next_min(min: u64, max: u64, current: u64) -> u64 {
    if max == 0 || current < min {
        current
    } else {
        min
    }
}

/// The highest rate after a window of rate `current`.
pub open spec fn next_max(max: u64, current: u64) -> u64 {
    if current > max {
        current
    } else {
        max
    }
}

/// The sample that a closing window yields: `window` holds the durations of
/// its frames, `elapsed` is the time since the window before closed.
pub open spec fn aggregate(
    previous: TelemetrySample,
    window: Seq<u64>,
    elapsed: u64,
    acquire: u64,
) -> TelemetrySample {
    let current = rate_milli(window.len(), elapsed as nat) as u64;
    TelemetrySample {
        current_fps: current,
        min_fps_ever: next_min(previous.min_fps_ever, previous.max_fps_ever, current),
        max_fps_ever: next_max(previous.max_fps_ever, current),
        one_percent_low_fps: one_percent_low(window) as u64,
        jitter: mean_gap(window) as u64,
        acquire_latency: acquire,
    }
}

/// What an aggregator holds: the frame durations of the open window, oldest
/// first, and the sample of the window that closed last.
pub struct AggregatorState {
    pub history: Seq<u64>,
    pub latest: TelemetrySample,
}

/// The state with one more frame in the open window.
pub open spec fn accumulated(state: AggregatorState, frame: u64) -> AggregatorState {
    AggregatorState { history: state.history.push(frame), latest: state.latest }
}

/// The state after the open window has closed.
pub open spec fn closed(state: AggregatorState, elapsed: u64, acquire: u64) -> AggregatorState {
    AggregatorState {
        history: Seq::empty(),
        latest: aggregate(state.latest, state.history, elapsed, acquire),
    }
}

/// The state after one presented frame: the frame is accumulated, and if it
/// ends [`WINDOW_MICROS`] or more after the last window closed, the window
/// closes with it.
pub open spec fn step(state: AggregatorState, timing: FrameTiming) -> AggregatorState {
    let grown = accumulated(state, timing.frame);
    if timing.since_close >= WINDOW_MICROS {
        closed(grown, timing.since_close, timing.acquire)
    } else {
        grown
    }
}

/// The state after a run of presented frames.
pub open spec fn run(state: AggregatorState, frames: Seq<FrameTiming>) -> AggregatorState
    decreases frames.len(),
{
    if frames.len() == 0 {
        state
    } else {
        step(run(state, frames.drop_last()), frames.last())
    }
}

/// The extremes bracket the current rate.
pub open spec fn bracketed(sample: TelemetrySample) -> bool {
    sample.min_fps_ever <= sample.current_fps <= sample.max_fps_ever
}

/// A sample whose extremes bracket its current rate.
struct Bracketed {
    sample: TelemetrySample,
}

impl Bracketed {
    #[verifier::type_invariant]
    spec fn well_formed(self) -> bool {
        bracketed(self.sample)
    }
}

/// Rolling telemetry of one session.
pub struct Aggregator {
    frame_times: Vec<u64>,
    latest: Bracketed,
}

impl View for Aggregator {
    type V = AggregatorState;

    closed spec fn view(&self) -> AggregatorState {
        AggregatorState { history: self.frame_times@, latest: self.latest.sample }
    }
}

impl Aggregator {
    /// An aggregator with an empty window and a blank sample.
    pub fn new() -> (fresh: Aggregator)
        ensures
            fresh@.history == Seq::<u64>::empty(),
            fresh@.latest == blank_sample(),
    {
        Aggregator {
            frame_times: Vec::new(),
            latest: Bracketed {
                sample: TelemetrySample {
                    current_fps: 0,
                    min_fps_ever: 0,
                    max_fps_ever: 0,
                    one_percent_low_fps: 0,
                    jitter: 0,
                    acquire_latency: 0,
                },
            },
        }
    }

    /// Number of frames presented since the last window closed.
    pub fn frame_count(&self) -> (count: usize)
        ensures
            count == self@.history.len(),
    {
        self.frame_times.len()
    }

    /// The sample of the window that closed last.
    pub fn latest(&self) -> (sample: TelemetrySample)
        ensures
            sample == self@.latest,
            bracketed(sample),
    {
        proof {
            use_type_invariant(&self.latest);
        }
        self.latest.sample
    }

    /// Whether a frame that ends `since_close` microseconds after the last
    /// window closed closes the window.
    pub fn window_due(since_close: u64) -> (due: bool)
        ensures
            due <==> since_close >= WINDOW_MICROS,
    {
        since_close >= WINDOW_MICROS
    }

    /// The task of every frame: adds the duration of a presented frame to
    /// the open window.
    pub fn accumulate(&mut self, frame: u64)
        ensures
            final(self)@ == accumulated(old(self)@, frame),
    {
        self.frame_times.push(frame);
    }

    /// The task of every window: turns the frames of the open window into
    /// the current sample and starts the next window empty. `elapsed` is the
    /// time since the window before closed, `acquire` the time that the last
    /// frame waited for its image.
    pub fn close_window(&mut self, elapsed: u64, acquire: u64) -> (sample: TelemetrySample)
        ensures
            final(self)@ == closed(old(self)@, elapsed, acquire),
            sample == final(self)@.latest,
            bracketed(sample),
    {
        let current: u64 = events_per_second_milli(
            self.frame_times.len() as u64,
            elapsed as u128,
        );
        proof {
            use_type_invariant(&self.latest);
        }
        let previous: TelemetrySample = self.latest.sample;
        let sample = TelemetrySample {
            current_fps: current,
            min_fps_ever: if previous.max_fps_ever == 0 || current < previous.min_fps_ever {
                current
            } else {
                previous.min_fps_ever
            },
            max_fps_ever: if current > previous.max_fps_ever {
                current
            } else {
                previous.max_fps_ever
            },
            one_percent_low_fps: one_percent_low_milli(&self.frame_times),
            jitter: jitter_micros(&self.frame_times),
            acquire_latency: acquire,
        };
        self.latest = Bracketed { sample };
        self.frame_times.clear();
        sample
    }

    /// Takes in one presented frame. While the window stays open the frame
    /// is only accumulated. A frame that ends half a second or more after the
    /// last window closed closes the window: the new sample is returned and
    /// the next window starts empty.
    pub fn record_frame(&mut self, timing: FrameTiming) -> (sample: Option<TelemetrySample>)
        ensures
            final(self)@ == step(old(self)@, timing),
            timing.since_close >= WINDOW_MICROS ==> sample == Some(final(self)@.latest),
            timing.since_close < WINDOW_MICROS ==> sample.is_none(),
    {
        self.accumulate(timing.frame);
        if Aggregator::window_due(timing.since_close) {
            Some(self.close_window(timing.since_close, timing.acquire))
        } else {
            None
        }
    }
}

/// The lowest and the highest rate after windows of the given rates, in
/// their order.
pub open spec fn extremes_after(min: u64, max: u64, rates: Seq<u64>) -> (u64, u64)
    decreases rates.len(),
{
    if rates.len() == 0 {
        (min, max)
    } else {
        let before = extremes_after(min, max, rates.drop_last());
        (next_min(before.0, before.1, rates.last()), next_max(before.1, rates.last()))
    }
}

/// Whatever rates the windows have, the highest rate never falls, and once
/// the extremes are set the lowest rate never rises.
pub proof fn lemma_extremes_follow_any_rates(min: u64, max: u64, rates: Seq<u64>)
    ensures
        extremes_after(min, max, rates).1 >= max,
        max > 0 ==> extremes_after(min, max, rates).0 <= min,
    decreases rates.len(),
{
    if rates.len() > 0 {
        lemma_extremes_follow_any_rates(min, max, rates.drop_last());
    }
}

/// Across any run of frames the extremes go on bracketing the current rate.
pub proof fn lemma_bracket_is_kept(state: AggregatorState, frames: Seq<FrameTiming>)
    requires
        bracketed(state.latest),
    ensures
        bracketed(run(state, frames).latest),
    decreases frames.len(),
{
    if frames.len() > 0 {
        lemma_bracket_is_kept(state, frames.drop_last());
    }
}

/// Across any run of frames the highest rate never falls, and once the
/// extremes are set the lowest rate never rises.
pub proof fn lemma_extremes_only_tighten(state: AggregatorState, frames: Seq<FrameTiming>)
    ensures
        run(state, frames).latest.max_fps_ever >= state.latest.max_fps_ever,
        state.latest.max_fps_ever > 0 ==> run(state, frames).latest.min_fps_ever
            <= state.latest.min_fps_ever,
    decreases frames.len(),
{
    if frames.len() > 0 {
        lemma_extremes_only_tighten(state, frames.drop_last());
    }
}

} // verus!
