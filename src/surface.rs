//! Size bookkeeping of the host window's swap surface, and the decisions
//! around making the GPU context current and presenting a frame.

use vstd::prelude::*;

verus! {

/// Outcome of one render attempt, as reported to the compositor.
#[derive(Debug, Clone, Copy, PartialEq, Eq, Structural)]
pub enum RenderResult {
    /// The frame was submitted to the backend for presentation.
    Submitted,
    /// Rendering succeeded, but there was no damage.
    NoDamage,
    /// The frame was not rendered and submitted, due to an error or otherwise.
    Skipped,
}

/// The size after a resize request: a request with a zero dimension is
/// ignored.
pub open spec fn spec_resized(cur: (u32, u32), w: u32, h: u32) -> (u32, u32) {
    if w > 0 && h > 0 {
        (w, h)
    } else {
        cur
    }
}

/// The size after a sequence of resize requests.
pub open spec fn spec_resize_all(start: (u32, u32), events: Seq<(u32, u32)>) -> (u32, u32)
    decreases events.len(),
{
    if events.len() == 0 {
        start
    } else {
        let prev = spec_resize_all(start, events.drop_last());
        spec_resized(prev, events.last().0, events.last().1)
    }
}

/// Last known size of the swap surface.
#[derive(Debug, Clone, Copy, PartialEq, Eq, Structural)]
pub struct SurfaceState {
    pub width: u32,
    pub height: u32,
}

impl SurfaceState {
    pub fn new(width: u32, height: u32) -> (r: SurfaceState)
        ensures
            r.width == width,
            r.height == height,
    {
        SurfaceState { width, height }
    }

    /// Records a resize of the host window. Returns whether the size was
    /// taken, in which case the swap surface must be told; a request with a
    /// zero dimension changes nothing.
    pub fn resize(&mut self, width: u32, height: u32) -> (r: bool)
        ensures
            r == (width > 0 && height > 0),
            (final(self).width, final(self).height) == spec_resized(
                (old(self).width, old(self).height),
                width,
                height,
            ),
    {
        if width > 0 && height > 0 {
            self.width = width;
            self.height = height;
            true
        } else {
            false
        }
    }

    /// Whether a frame may be rendered and presented at the current size.
    pub fn can_present(&self) -> (r: bool)
        ensures
            r == (self.width > 0 && self.height > 0),
    {
        self.width > 0 && self.height > 0
    }
}

/// After any sequence of resize requests the size is that of the last
/// request when both its dimensions are positive; a request with a zero
/// dimension leaves the size as it was before it.
pub proof fn lemma_resize_sequence(start: (u32, u32), events: Seq<(u32, u32)>)
    requires
        events.len() > 0,
    ensures
        events.last().0 > 0 && events.last().1 > 0 ==> spec_resize_all(start, events)
            == events.last(),
        !(events.last().0 > 0 && events.last().1 > 0) ==> spec_resize_all(start, events)
            == spec_resize_all(start, events.drop_last()),
{
}

/// Whether the native make-current call is needed: only when the context is
/// not already current.
pub fn needs_make_current(is_current: bool) -> (r: bool)
    ensures
        r == !is_current,
{
    !is_current
}

/// Why a frame could not be presented.
#[derive(Debug, Clone, Copy, PartialEq, Eq, Structural)]
pub enum FrameError {
    /// The compositor failed to render the frame.
    Render,
    /// Making the GPU context current failed.
    Context,
    /// The buffer swap failed.
    Present,
}

/// The outside steps of presenting one frame, in order.
#[derive(Debug, Clone, Copy, PartialEq, Eq, Structural)]
pub enum FrameStage {
    /// Render the compositor's elements into the window's framebuffer.
    Render,
    /// Make the GPU context current, where it is not already.
    MakeCurrent,
    /// Flush and swap buffers.
    Swap,
}

/// What to do next while presenting a frame.
#[derive(Debug, Clone, Copy, PartialEq, Eq, Structural)]
pub enum FrameAction {
    /// Perform a step and report whether it succeeded.
    Run(FrameStage),
    /// The frame is over: report this result, and the failure if any.
    Finish(RenderResult, Option<FrameError>),
}

/// The first action of a frame: render, unless the surface has a zero
/// dimension, in which case the frame is skipped.
pub fn start_frame(surface: &SurfaceState) -> (r: FrameAction)
    ensures
        surface.width > 0 && surface.height > 0 ==> r == FrameAction::Run(FrameStage::Render),
        !(surface.width > 0 && surface.height > 0) ==> r == FrameAction::Finish(
            RenderResult::Skipped,
            None,
        ),
{
    if surface.can_present() {
        FrameAction::Run(FrameStage::Render)
    } else {
        FrameAction::Finish(RenderResult::Skipped, None)
    }
}

/// The action after a step: each success leads to the next step and the
/// last one submits the frame; any failure skips the frame, which is never
/// fatal.
pub fn frame_step(stage: FrameStage, ok: bool) -> (r: FrameAction)
    ensures
        ok && stage == FrameStage::Render ==> r == FrameAction::Run(FrameStage::MakeCurrent),
        ok && stage == FrameStage::MakeCurrent ==> r == FrameAction::Run(FrameStage::Swap),
        ok && stage == FrameStage::Swap ==> r == FrameAction::Finish(RenderResult::Submitted, None),
        !ok && stage == FrameStage::Render ==> r == FrameAction::Finish(
            RenderResult::Skipped,
            Some(FrameError::Render),
        ),
        !ok && stage == FrameStage::MakeCurrent ==> r == FrameAction::Finish(
            RenderResult::Skipped,
            Some(FrameError::Context),
        ),
        !ok && stage == FrameStage::Swap ==> r == FrameAction::Finish(
            RenderResult::Skipped,
            Some(FrameError::Present),
        ),
{
    match stage {
        FrameStage::Render => if ok {
            FrameAction::Run(FrameStage::MakeCurrent)
        } else {
            FrameAction::Finish(RenderResult::Skipped, Some(FrameError::Render))
        },
        FrameStage::MakeCurrent => if ok {
            FrameAction::Run(FrameStage::Swap)
        } else {
            FrameAction::Finish(RenderResult::Skipped, Some(FrameError::Context))
        },
        FrameStage::Swap => if ok {
            FrameAction::Finish(RenderResult::Submitted, None)
        } else {
            FrameAction::Finish(RenderResult::Skipped, Some(FrameError::Present))
        },
    }
}

} // verus!
