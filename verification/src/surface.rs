//! The choices the frame loop makes about its surface: how frames are
//! presented, how large the surface is, what a window event leads to, what a
//! failed acquisition leads to, and how the time of a frame is handed to the
//! shading stage.

use vstd::prelude::*;

verus! {

/// How a surface presents its frames.
#[derive(Clone, Copy, Debug, PartialEq, Eq)]
pub enum PresentMode {
    AutoVsync,
    AutoNoVsync,
    Fifo,
    FifoRelaxed,
    Immediate,
    Mailbox,
}

/// The mode to present in on a surface that supports `supported`: mailbox
/// where it is to be had, else immediate, else first in, first out, which
/// every surface supports.
pub open spec fn preferred_mode(supported: Seq<PresentMode>) -> PresentMode {
    if supported.contains(PresentMode::Mailbox) {
        PresentMode::Mailbox
    } else if supported.contains(PresentMode::Immediate) {
        PresentMode::Immediate
    } else {
        PresentMode::Fifo
    }
}

/// Computes [`preferred_mode`].
pub fn choose_present_mode(supported: &Vec<PresentMode>) -> (mode: PresentMode)
    ensures
        mode == preferred_mode(supported@),
{
    let mut immediate: bool = false;
    let mut i: usize = 0;
    while i < supported.len()
        invariant
            i <= supported.len(),
            !supported@.take(i as int).contains(PresentMode::Mailbox),
            immediate <==> supported@.take(i as int).contains(PresentMode::Immediate),
        decreases supported.len() - i,
    {
        let ghost seen = supported@.take(i as int);
        let ghost grown = supported@.take(i as int + 1);
        proof {
            assert(grown =~= seen.push(supported@[i as int]));
            assert forall|mode: PresentMode| grown.contains(mode) <==> (seen.contains(mode) || mode
                == supported@[i as int]) by {
                if seen.contains(mode) {
                    let k = choose|k: int| 0 <= k < seen.len() && seen[k] == mode;
                    assert(grown[k] == mode);
                }
                if mode == supported@[i as int] {
                    assert(grown[i as int] == mode);
                }
            }
        }
        match supported[i] {
            PresentMode::Mailbox => {
                proof {
                    assert(supported@[i as int] == PresentMode::Mailbox);
                }
                return PresentMode::Mailbox;
            },
            PresentMode::Immediate => {
                immediate = true;
            },
            _ => {},
        }
        i = i + 1;
    }
    proof {
        assert(supported@.take(supported.len() as int) =~= supported@);
    }
    if immediate {
        PresentMode::Immediate
    } else {
        PresentMode::Fifo
    }
}

/// The extent to configure a surface with for a window of the given inner
/// size: the inner size, but at least one pixel each way.
pub fn surface_extent(width: u32, height: u32) -> (extent: (u32, u32))
    ensures
        extent.0 == if width == 0 { 1 } else { width },
        extent.1 == if height == 0 { 1 } else { height },
{
    (
        if width == 0 {
            1
        } else {
            width
        },
        if height == 0 {
            1
        } else {
            height
        },
    )
}

/// What the window told the frame loop.
#[derive(Clone, Copy, Debug, PartialEq, Eq)]
pub enum WindowSignal {
    /// The window was asked to close.
    CloseRequested,
    /// The escape key went down.
    EscapePressed,
    /// The inner size of the window changed.
    Resized { width: u32, height: u32 },
    /// The window wants its content drawn.
    RedrawRequested,
    /// Anything else.
    Other,
}

/// What the frame loop does next.
#[derive(Clone, Copy, Debug, PartialEq, Eq)]
pub enum LoopAction {
    /// Leave the loop.
    Exit,
    /// Configure the surface with the given extent, before the next frame
    /// is drawn.
    Reconfigure { width: u32, height: u32 },
    /// Draw a frame and ask for the next redraw.
    DrawFrame,
    /// Nothing.
    Ignore,
}

/// The action that a signal leads to. Until the renderer is set up every
/// signal is ignored.
pub open spec fn reaction(ready: bool, signal: WindowSignal) -> LoopAction {
    if !ready {
        LoopAction::Ignore
    } else {
        match signal {
            WindowSignal::CloseRequested => LoopAction::Exit,
            WindowSignal::EscapePressed => LoopAction::Exit,
            WindowSignal::Resized { width, height } => LoopAction::Reconfigure {
                width: if width == 0 {
                    1
                } else {
                    width
                },
                height: if height == 0 {
                    1
                } else {
                    height
                },
            },
            WindowSignal::RedrawRequested => LoopAction::DrawFrame,
            WindowSignal::Other => LoopAction::Ignore,
        }
    }
}

/// Computes [`reaction`].
pub fn react(ready: bool, signal: WindowSignal) -> (action: LoopAction)
    ensures
        action == reaction(ready, signal),
{
    if !ready {
        return LoopAction::Ignore;
    }
    match signal {
        WindowSignal::CloseRequested => LoopAction::Exit,
        WindowSignal::EscapePressed => LoopAction::Exit,
        WindowSignal::Resized { width, height } => {
            let extent: (u32, u32) = surface_extent(width, height);
            LoopAction::Reconfigure { width: extent.0, height: extent.1 }
        },
        WindowSignal::RedrawRequested => LoopAction::DrawFrame,
        WindowSignal::Other => LoopAction::Ignore,
    }
}

/// Why the surface gave no image to draw to.
#[derive(Clone, Copy, Debug, PartialEq, Eq)]
pub enum AcquireFailure {
    /// The image did not come in time.
    Timeout,
    /// The surface changed and has to be configured again.
    Outdated,
    /// The surface was lost and has to be configured again.
    Lost,
    /// The device has no memory left for a frame.
    OutOfMemory,
    /// Any other failure.
    Other,
}

/// What the frame loop does about a frame it could not draw. Such a frame is
/// never handed to the telemetry.
#[derive(Clone, Copy, Debug, PartialEq, Eq)]
pub enum Recovery {
    /// Drop the frame and go on.
    SkipFrame,
    /// Configure the surface again, then go on.
    Reconfigure,
    /// Give up: the device is gone.
    Terminate,
}

/// The recovery that a failure calls for: a surface that is outdated or lost
/// is configured again, a device out of memory ends the process, and any
/// other failure costs only the frame.
pub open spec fn recovery_for(failure: AcquireFailure) -> Recovery {
    match failure {
        AcquireFailure::Outdated => Recovery::Reconfigure,
        AcquireFailure::Lost => Recovery::Reconfigure,
        AcquireFailure::OutOfMemory => Recovery::Terminate,
        AcquireFailure::Timeout => Recovery::SkipFrame,
        AcquireFailure::Other => Recovery::SkipFrame,
    }
}

/// Computes [`recovery_for`].
pub fn recover(failure: AcquireFailure) -> (recovery: Recovery)
    ensures
        recovery == recovery_for(failure),
{
    match failure {
        AcquireFailure::Outdated => Recovery::Reconfigure,
        AcquireFailure::Lost => Recovery::Reconfigure,
        AcquireFailure::OutOfMemory => Recovery::Terminate,
        AcquireFailure::Timeout => Recovery::SkipFrame,
        AcquireFailure::Other => Recovery::SkipFrame,
    }
}

/// The instances to draw for a frame that starts `elapsed_millis`
/// milliseconds into the session. The shading stage has no clock: it reads
/// the time of a frame off the index of the one instance drawn, a count of
/// milliseconds that wraps at 2^32. The range holds that one index; in the
/// one millisecond before the count wraps it is empty and the frame draws
/// nothing.
pub fn time_instances(elapsed_millis: u128) -> (range: (u32, u32))
    ensures
        range.0 == elapsed_millis % 0x1_0000_0000,
        range.1 == (range.0 + 1) % 0x1_0000_0000,
{
    let first: u32 = (elapsed_millis % 0x1_0000_0000) as u32;
    let end: u32 = if first == u32::MAX {
        0
    } else {
        first + 1
    };
    (first, end)
}

} // verus!
