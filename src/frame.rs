use vstd::prelude::*;

verus! {

/// A size in physical pixels.
#[derive(Clone, Copy, Debug, PartialEq, Eq, Structural)]
pub struct Size {
    pub width: u32,
    pub height: u32,
}

#[derive(Clone, Copy, Debug, PartialEq, Eq, Structural)]
pub enum LoopPhase {
    Running,
    /// Terminal: the loop has been told to stop and reacts to nothing more.
    Exiting,
}

/// An event of the window system, as the loop sees it.
#[derive(Clone, Copy, Debug, PartialEq, Eq, Structural)]
pub enum LoopEvent {
    /// The window asks to be redrawn.
    RedrawRequested,
    /// Presenting the framebuffer failed.
    PresentFailed,
    /// A primitive event went to the input aggregator without closing a batch.
    InputPending,
    /// The input aggregator closed a batch of primitive events; `resized` holds
    /// the new physical size where the batch held a resize.
    InputBatch { resized: Option<Size> },
    /// The update callback asked the loop to stop.
    ExitRequested,
}

/// What the driver is to do, in order.
#[derive(Clone, Copy, Debug, PartialEq, Eq, Structural)]
pub enum LoopAction {
    /// Call the draw callback on a framebuffer surface of this size.
    Draw(Size),
    /// Present the framebuffer.
    Present,
    /// Resize the framebuffer's surface.
    ResizeSurface(Size),
    /// Call the update callback once.
    Update,
    /// Ask the window for the next redraw.
    RequestRedraw,
    /// Stop the loop.
    Exit,
}

/// The state of the frame loop: the surface size of the framebuffer and
/// whether the loop still runs.
#[derive(Clone, Copy, Debug, PartialEq, Eq, Structural)]
pub struct FrameLoop {
    pub surface: Size,
    pub phase: LoopPhase,
}

/// One transition of the frame loop, with the actions it issues in order.
pub open spec fn frame_step(s: FrameLoop, e: LoopEvent) -> (FrameLoop, Seq<LoopAction>) {
    if s.phase == LoopPhase::Exiting {
        (s, Seq::empty())
    } else {
        match e {
            LoopEvent::RedrawRequested => (s, seq![LoopAction::Draw(s.surface), LoopAction::Present]),
            LoopEvent::PresentFailed => (FrameLoop { phase: LoopPhase::Exiting, ..s }, seq![LoopAction::Exit]),
            LoopEvent::ExitRequested => (FrameLoop { phase: LoopPhase::Exiting, ..s }, seq![LoopAction::Exit]),
            LoopEvent::InputPending => (s, Seq::empty()),
            LoopEvent::InputBatch { resized: Some(size) } => (
                FrameLoop { surface: size, ..s },
                seq![LoopAction::ResizeSurface(size), LoopAction::Update, LoopAction::RequestRedraw],
            ),
            LoopEvent::InputBatch { resized: None } => (s, seq![LoopAction::Update, LoopAction::RequestRedraw]),
        }
    }
}

/// The state after a sequence of events.
pub open spec fn run_frames(s: FrameLoop, events: Seq<LoopEvent>) -> FrameLoop
    decreases events.len(),
{
    if events.len() == 0 {
        s
    } else {
        run_frames(frame_step(s, events[0]).0, events.drop_first())
    }
}

/// The size given by the last resize among `events`, or `initial` if none.
pub open spec fn latest_size(initial: Size, events: Seq<LoopEvent>) -> Size
    decreases events.len(),
{
    if events.len() == 0 {
        initial
    } else {
        match events[0] {
            LoopEvent::InputBatch { resized: Some(size) } => latest_size(size, events.drop_first()),
            _ => latest_size(initial, events.drop_first()),
        }
    }
}

impl FrameLoop {
    /// A running loop whose framebuffer surface has the window's physical size.
    pub fn new(width: u32, height: u32) -> (r: FrameLoop)
        ensures
            r.surface == (Size { width, height }),
            r.phase == LoopPhase::Running,
    {
        FrameLoop { surface: Size { width, height }, phase: LoopPhase::Running }
    }

    pub fn is_running(&self) -> (r: bool)
        ensures
            r == (self.phase == LoopPhase::Running),
    {
        match self.phase {
            LoopPhase::Running => true,
            LoopPhase::Exiting => false,
        }
    }

    /// Takes one event and returns the actions to perform, in order. A resize
    /// is applied to the surface before the update callback and before the
    /// redraw it asks for.
    pub fn step(&mut self, e: LoopEvent) -> (r: Vec<LoopAction>)
        ensures
            (*final(self), r@) == frame_step(*old(self), e),
    {
        let mut out: Vec<LoopAction> = Vec::new();
        if let LoopPhase::Exiting = self.phase {
            return out;
        }
        match e {
            LoopEvent::RedrawRequested => {
                out.push(LoopAction::Draw(self.surface));
                out.push(LoopAction::Present);
            },
            LoopEvent::PresentFailed | LoopEvent::ExitRequested => {
                self.phase = LoopPhase::Exiting;
                out.push(LoopAction::Exit);
            },
            LoopEvent::InputPending => {},
            LoopEvent::InputBatch { resized } => {
                if let Some(size) = resized {
                    self.surface = size;
                    out.push(LoopAction::ResizeSurface(size));
                }
                out.push(LoopAction::Update);
                out.push(LoopAction::RequestRedraw);
            },
        }
        assert(out@ =~= frame_step(*old(self), e).1);
        out
    }
}

/// Once exiting, the loop stays so.
pub proof fn lemma_exiting_is_final(s: FrameLoop, events: Seq<LoopEvent>)
    requires
        s.phase == LoopPhase::Exiting,
    ensures
        run_frames(s, events) == s,
    decreases events.len(),
{
    if events.len() > 0 {
        lemma_exiting_is_final(s, events.drop_first());
    }
}

/// After any sequence of events, a redraw of a loop that still runs draws on
/// a surface of the size given by the most recent resize (or the initial size
/// if there was none): every resize reaches the surface before the next draw.
pub proof fn lemma_draw_sees_latest_resize(s: FrameLoop, events: Seq<LoopEvent>)
    ensures
        run_frames(s, events).phase == LoopPhase::Running ==> run_frames(s, events).surface
            == latest_size(s.surface, events) && frame_step(
            run_frames(s, events),
            LoopEvent::RedrawRequested,
        ).1 == seq![LoopAction::Draw(latest_size(s.surface, events)), LoopAction::Present],
    decreases events.len(),
{
    if events.len() > 0 {
        let next = frame_step(s, events[0]).0;
        let rest = events.drop_first();
        lemma_draw_sees_latest_resize(next, rest);
        if s.phase == LoopPhase::Exiting || next.phase == LoopPhase::Exiting {
            if s.phase == LoopPhase::Exiting {
                lemma_exiting_is_final(s, events);
            } else {
                lemma_exiting_is_final(next, rest);
            }
        }
    }
}

} // verus!
