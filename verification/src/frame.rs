//! The decisions of the frame loop: what the program does on each window
//! event, and on the outcome of acquiring and presenting a swapchain image.
//! The caller does the work that each action names and reports back.
use vstd::prelude::*;

verus! {

/// What the frame loop remembers between events.
#[derive(Clone, Copy, Debug, PartialEq, Eq, Structural)]
pub struct FrameState {
    /// The swapchain no longer fits the window and must be recreated before
    /// the next image is acquired.
    pub recreate_swapchain: bool,
}

/// A window event, as far as the frame loop reads it.
#[derive(Clone, Copy, Debug, PartialEq, Eq, Structural)]
pub enum WindowInput {
    CloseRequested,
    Resized,
    /// The window asks to be redrawn; it now has this inner size.
    RedrawRequested { width: u32, height: u32 },
    /// A key was pressed or released; `escape` tells whether it is the Escape key.
    KeyboardInput { escape: bool },
    /// Any other window event.
    Other,
}

/// What to do on a window event.
#[derive(Clone, Copy, Debug, PartialEq, Eq, Structural)]
pub enum WindowAction {
    /// Leave the event loop.
    Exit,
    /// Nothing to do.
    Nothing,
    /// Release the resources of finished frames; where `recreate_swapchain`
    /// holds, recreate the swapchain with the extent `width` × `height` and
    /// rebuild the framebuffers; then acquire the next swapchain image and
    /// report the outcome.
    BeginFrame { recreate_swapchain: bool, width: u32, height: u32 },
}

/// How acquiring the next swapchain image went.
#[derive(Clone, Copy, Debug, PartialEq, Eq, Structural)]
pub enum AcquireOutcome {
    /// An image was acquired; `suboptimal` tells that the swapchain no longer
    /// matches the surface exactly.
    Acquired { image_index: u32, suboptimal: bool },
    /// The swapchain is out of date.
    OutOfDate,
    /// Any other error.
    Failed,
}

/// What to do after acquiring.
#[derive(Clone, Copy, Debug, PartialEq, Eq, Structural)]
pub enum AcquireAction {
    /// Record and submit the commands that draw into this image, present it,
    /// and report how flushing went.
    DrawAndPresent { image_index: u32 },
    /// Give up this frame.
    SkipFrame,
    /// Stop the program: the error cannot be handled.
    Abort,
}

/// How submitting, presenting and flushing the frame went.
#[derive(Clone, Copy, Debug, PartialEq, Eq, Structural)]
pub enum FlushOutcome {
    Flushed,
    OutOfDate,
    Failed,
}

/// What to do after flushing.
#[derive(Clone, Copy, Debug, PartialEq, Eq, Structural)]
pub enum FlushAction {
    /// Keep the flushed frame as the one to wait for next time.
    KeepFrame,
    /// Start over from a frame that is already done.
    ResetFrame,
    /// Report the error, then start over from a frame that is already done.
    ReportAndResetFrame,
}

/// The frame state and the action that follow a window event.
pub open spec fn window_step(s: FrameState, input: WindowInput) -> (FrameState, WindowAction) {
    match input {
        WindowInput::CloseRequested => (s, WindowAction::Exit),
        WindowInput::Resized => (FrameState { recreate_swapchain: true }, WindowAction::Nothing),
        WindowInput::RedrawRequested { width, height } => if width == 0 || height == 0 {
            (s, WindowAction::Nothing)
        } else {
            (
                FrameState { recreate_swapchain: false },
                WindowAction::BeginFrame {
                    recreate_swapchain: s.recreate_swapchain,
                    width,
                    height,
                },
            )
        },
        WindowInput::KeyboardInput { escape } => (
            s,
            if escape {
                WindowAction::Exit
            } else {
                WindowAction::Nothing
            },
        ),
        WindowInput::Other => (s, WindowAction::Nothing),
    }
}

/// The frame state and the action that follow acquiring an image.
pub open spec fn acquire_step(s: FrameState, outcome: AcquireOutcome) -> (
    FrameState,
    AcquireAction,
) {
    match outcome {
        AcquireOutcome::Acquired { image_index, suboptimal } => (
            FrameState { recreate_swapchain: s.recreate_swapchain || suboptimal },
            AcquireAction::DrawAndPresent { image_index },
        ),
        AcquireOutcome::OutOfDate => (
            FrameState { recreate_swapchain: true },
            AcquireAction::SkipFrame,
        ),
        AcquireOutcome::Failed => (s, AcquireAction::Abort),
    }
}

/// The frame state and the action that follow flushing a frame.
pub open spec fn flush_step(s: FrameState, outcome: FlushOutcome) -> (FrameState, FlushAction) {
    match outcome {
        FlushOutcome::Flushed => (s, FlushAction::KeepFrame),
        FlushOutcome::OutOfDate => (FrameState { recreate_swapchain: true }, FlushAction::ResetFrame),
        FlushOutcome::Failed => (s, FlushAction::ReportAndResetFrame),
    }
}

impl FrameState {
    /// The state when the window has just been set up: the swapchain fits.
    pub fn new() -> (r: FrameState)
        ensures
            !r.recreate_swapchain,
    {
        FrameState { recreate_swapchain: false }
    }

    /// Decides what to do on a window event: leave on a close request or the
    /// Escape key, remember a resize, and on a redraw of a window with no
    /// zero side begin a frame, recreating the swapchain first where needed.
    pub fn on_window_event(&mut self, input: WindowInput) -> (r: WindowAction)
        ensures
            (*final(self), r) == window_step(*old(self), input),
            r == WindowAction::Exit <==> (input == WindowInput::CloseRequested || input
                == (WindowInput::KeyboardInput { escape: true })),
            input == WindowInput::Resized ==> r == WindowAction::Nothing
                && final(self).recreate_swapchain,
    {
        match input {
            WindowInput::CloseRequested => WindowAction::Exit,
            WindowInput::Resized => {
                self.recreate_swapchain = true;
                WindowAction::Nothing
            },
            WindowInput::RedrawRequested { width, height } => {
                if width == 0 || height == 0 {
                    WindowAction::Nothing
                } else {
                    let recreate: bool = self.recreate_swapchain;
                    self.recreate_swapchain = false;
                    WindowAction::BeginFrame { recreate_swapchain: recreate, width, height }
                }
            },
            WindowInput::KeyboardInput { escape } => {
                if escape {
                    WindowAction::Exit
                } else {
                    WindowAction::Nothing
                }
            },
            WindowInput::Other => WindowAction::Nothing,
        }
    }

    /// Decides what to do once the next image was asked for: draw into it
    /// (remembering to recreate a suboptimal swapchain), skip the frame and
    /// recreate an out-of-date swapchain, or stop on any other error.
    pub fn on_acquire(&mut self, outcome: AcquireOutcome) -> (r: AcquireAction)
        ensures
            (*final(self), r) == acquire_step(*old(self), outcome),
            outcome matches AcquireOutcome::Acquired { image_index, suboptimal } ==> {
                &&& r == (AcquireAction::DrawAndPresent { image_index })
                &&& final(self).recreate_swapchain == (old(self).recreate_swapchain || suboptimal)
            },
    {
        match outcome {
            AcquireOutcome::Acquired { image_index, suboptimal } => {
                if suboptimal {
                    self.recreate_swapchain = true;
                }
                AcquireAction::DrawAndPresent { image_index }
            },
            AcquireOutcome::OutOfDate => {
                self.recreate_swapchain = true;
                AcquireAction::SkipFrame
            },
            AcquireOutcome::Failed => AcquireAction::Abort,
        }
    }

    /// Decides what to do once the frame was flushed: keep it, or start over
    /// (recreating an out-of-date swapchain, reporting any other error).
    pub fn on_flush(&mut self, outcome: FlushOutcome) -> (r: FlushAction)
        ensures
            (*final(self), r) == flush_step(*old(self), outcome),
            outcome == FlushOutcome::Flushed ==> r == FlushAction::KeepFrame && *final(self)
                == *old(self),
    {
        match outcome {
            FlushOutcome::Flushed => FlushAction::KeepFrame,
            FlushOutcome::OutOfDate => {
                self.recreate_swapchain = true;
                FlushAction::ResetFrame
            },
            FlushOutcome::Failed => FlushAction::ReportAndResetFrame,
        }
    }
}

} // verus!

verus! {

/// Anything the frame loop is told: a window event or the outcome of work it asked for.
#[derive(Clone, Copy, Debug, PartialEq, Eq, Structural)]
pub enum FrameEvent {
    Window(WindowInput),
    Acquire(AcquireOutcome),
    Flush(FlushOutcome),
}

/// The frame state after one event.
pub open spec fn event_step(s: FrameState, e: FrameEvent) -> FrameState {
    match e {
        FrameEvent::Window(w) => window_step(s, w).0,
        FrameEvent::Acquire(a) => acquire_step(s, a).0,
        FrameEvent::Flush(f) => flush_step(s, f).0,
    }
}

/// The frame state after a sequence of events, the first one first.
pub open spec fn run(s: FrameState, events: Seq<FrameEvent>) -> FrameState
    decreases events.len(),
{
    if events.len() == 0 {
        s
    } else {
        run(event_step(s, events[0]), events.drop_first())
    }
}

/// A request to redraw a window that has no zero side: the only event that
/// begins a frame.
pub open spec fn is_drawable_redraw(e: FrameEvent) -> bool {
    e matches FrameEvent::Window(WindowInput::RedrawRequested { width, height }) && width != 0
        && height != 0
}

/// An event that tells that the swapchain no longer fits the window: a
/// resize, a suboptimal image, or an out-of-date swapchain on acquiring or
/// presenting.
pub open spec fn signals_unfit(e: FrameEvent) -> bool {
    ||| e == FrameEvent::Window(WindowInput::Resized)
    ||| e matches FrameEvent::Acquire(AcquireOutcome::Acquired { suboptimal, .. }) && suboptimal
    ||| e == FrameEvent::Acquire(AcquireOutcome::OutOfDate)
    ||| e == FrameEvent::Flush(FlushOutcome::OutOfDate)
}

/// None of `events` begins a frame.
pub open spec fn no_drawable_redraw(events: Seq<FrameEvent>) -> bool {
    forall|i: int| 0 <= i < events.len() ==> !is_drawable_redraw(#[trigger] events[i])
}

/// None of `events` tells that the swapchain no longer fits.
pub open spec fn none_signals_unfit(events: Seq<FrameEvent>) -> bool {
    forall|i: int| 0 <= i < events.len() ==> !signals_unfit(#[trigger] events[i])
}

/// A close request and the Escape key leave the event loop, whatever the
/// state, and change nothing.
pub proof fn lemma_exit_requests_leave(s: FrameState)
    ensures
        window_step(s, WindowInput::CloseRequested) == (s, WindowAction::Exit),
        window_step(s, WindowInput::KeyboardInput { escape: true }) == (s, WindowAction::Exit),
{
}

/// A redraw of a window with a zero side does nothing and changes nothing.
pub proof fn lemma_zero_extent_redraw_does_nothing(s: FrameState, width: u32, height: u32)
    requires
        width == 0 || height == 0,
    ensures
        window_step(s, WindowInput::RedrawRequested { width, height }) == (s, WindowAction::Nothing),
{
}

/// A redraw of a window with no zero side always begins a frame at the
/// window's size, and the swapchain fits afterwards: it is recreated exactly
/// when it was marked unfit.
pub proof fn lemma_drawable_redraw_begins_frame(s: FrameState, width: u32, height: u32)
    requires
        width != 0,
        height != 0,
    ensures
        window_step(s, WindowInput::RedrawRequested { width, height }) == (
            FrameState { recreate_swapchain: false },
            WindowAction::BeginFrame { recreate_swapchain: s.recreate_swapchain, width, height },
        ),
{
}

/// Once the swapchain is marked unfit, it stays so until a frame begins.
pub proof fn lemma_unfit_mark_kept_until_frame(s: FrameState, events: Seq<FrameEvent>)
    requires
        s.recreate_swapchain,
        no_drawable_redraw(events),
    ensures
        run(s, events).recreate_swapchain,
    decreases events.len(),
{
    if events.len() > 0 {
        assert(!is_drawable_redraw(events[0]));
        let s1 = event_step(s, events[0]);
        assert(s1.recreate_swapchain);
        assert forall|i: int| 0 <= i < events.drop_first().len() implies !is_drawable_redraw(
            #[trigger] events.drop_first()[i],
        ) by {
            assert(events.drop_first()[i] == events[i + 1]);
        }
        lemma_unfit_mark_kept_until_frame(s1, events.drop_first());
    }
}

/// The swapchain is never marked unfit without an event that tells so.
pub proof fn lemma_no_unfit_mark_without_cause(s: FrameState, events: Seq<FrameEvent>)
    requires
        !s.recreate_swapchain,
        none_signals_unfit(events),
    ensures
        !run(s, events).recreate_swapchain,
    decreases events.len(),
{
    if events.len() > 0 {
        assert(!signals_unfit(events[0]));
        let s1 = event_step(s, events[0]);
        assert(!s1.recreate_swapchain);
        assert forall|i: int| 0 <= i < events.drop_first().len() implies !signals_unfit(
            #[trigger] events.drop_first()[i],
        ) by {
            assert(events.drop_first()[i] == events[i + 1]);
        }
        lemma_no_unfit_mark_without_cause(s1, events.drop_first());
    }
}

/// After any event that tells that the swapchain no longer fits, the next
/// frame that begins recreates the swapchain, at the size of the window
/// that asked for the redraw.
pub proof fn lemma_unfit_swapchain_recreated_next_frame(
    s: FrameState,
    cause: FrameEvent,
    events: Seq<FrameEvent>,
    width: u32,
    height: u32,
)
    requires
        signals_unfit(cause),
        no_drawable_redraw(events),
        width != 0,
        height != 0,
    ensures
        window_step(
            run(event_step(s, cause), events),
            WindowInput::RedrawRequested { width, height },
        ).1 == (WindowAction::BeginFrame { recreate_swapchain: true, width, height }),
{
    lemma_unfit_mark_kept_until_frame(event_step(s, cause), events);
}

/// Where the swapchain fits and no event tells otherwise, the next frame
/// that begins does not recreate it.
pub proof fn lemma_fitting_swapchain_kept(
    s: FrameState,
    events: Seq<FrameEvent>,
    width: u32,
    height: u32,
)
    requires
        !s.recreate_swapchain,
        none_signals_unfit(events),
        width != 0,
        height != 0,
    ensures
        window_step(run(s, events), WindowInput::RedrawRequested { width, height }).1 == (
        WindowAction::BeginFrame { recreate_swapchain: false, width, height }),
{
    lemma_no_unfit_mark_without_cause(s, events);
}

} // verus!

verus! {

/// Only a close request and the Escape key leave the event loop.
pub proof fn lemma_only_close_and_escape_exit(s: FrameState, input: WindowInput)
    ensures
        window_step(s, input).1 == WindowAction::Exit <==> (input == WindowInput::CloseRequested
            || input == (WindowInput::KeyboardInput { escape: true })),
{
}

/// A resize, in any state, does nothing at once and marks the swapchain
/// unfit; other keys and other events do nothing and change nothing.
pub proof fn lemma_resize_and_other_events(s: FrameState)
    ensures
        window_step(s, WindowInput::Resized) == (
            FrameState { recreate_swapchain: true },
            WindowAction::Nothing,
        ),
        window_step(s, WindowInput::KeyboardInput { escape: false }) == (s, WindowAction::Nothing),
        window_step(s, WindowInput::Other) == (s, WindowAction::Nothing),
{
}

/// The frame draws into and presents the very image that was acquired; a
/// suboptimal image marks the swapchain unfit and otherwise the mark is kept
/// as it was.
pub proof fn lemma_acquired_image_is_drawn(s: FrameState, image_index: u32, suboptimal: bool)
    ensures
        acquire_step(s, AcquireOutcome::Acquired { image_index, suboptimal }).1
            == (AcquireAction::DrawAndPresent { image_index }),
        acquire_step(s, AcquireOutcome::Acquired { image_index, suboptimal }).0.recreate_swapchain
            == (s.recreate_swapchain || suboptimal),
{
}

/// An out-of-date swapchain skips the frame and marks the swapchain unfit;
/// any other acquire error stops the program and changes nothing.
pub proof fn lemma_acquire_errors(s: FrameState)
    ensures
        acquire_step(s, AcquireOutcome::OutOfDate) == (
            FrameState { recreate_swapchain: true },
            AcquireAction::SkipFrame,
        ),
        acquire_step(s, AcquireOutcome::Failed) == (s, AcquireAction::Abort),
        forall|o: AcquireOutcome|
            acquire_step(s, o).1 == AcquireAction::Abort <==> o == AcquireOutcome::Failed,
{
}

/// A successful flush keeps the flushed frame and changes nothing; an
/// out-of-date swapchain starts over and marks the swapchain unfit; any other
/// error is reported, starts over, and changes nothing.
pub proof fn lemma_flush_outcomes(s: FrameState)
    ensures
        flush_step(s, FlushOutcome::Flushed) == (s, FlushAction::KeepFrame),
        flush_step(s, FlushOutcome::OutOfDate) == (
            FrameState { recreate_swapchain: true },
            FlushAction::ResetFrame,
        ),
        flush_step(s, FlushOutcome::Failed) == (s, FlushAction::ReportAndResetFrame),
{
}

} // verus!
