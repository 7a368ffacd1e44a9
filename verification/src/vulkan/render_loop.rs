//! The render loop as a state machine: what the loop does next, given its
//! state and what happened.

use vstd::prelude::*;
use crate::rendering::RendererLoop;

verus! {

/// The state of the loop.
#[derive(Clone, Copy, Debug, PartialEq, Eq, Structural)]
pub enum LoopState {
    /// Set up, not started.
    Idle,
    /// Rendering frames.
    Running,
    /// The window changed its size; the swapchain is renewed at the next
    /// tick.
    ResizeRequested,
    /// The window is to be closed; the resources are being disposed of.
    CloseRequested,
    /// Everything is disposed of. The loop does nothing any more.
    Terminated,
}

/// What acquiring or presenting an image said of the swapchain.
#[derive(Clone, Copy, Debug, PartialEq, Eq, Structural)]
pub enum FrameStatus {
    /// The swapchain matches the surface.
    Optimal,
    /// The swapchain can still be used but no longer matches the surface.
    Suboptimal,
    /// The swapchain cannot be used any more.
    OutOfDate,
}

/// What happened.
#[derive(Clone, Copy, Debug, PartialEq, Eq, Structural)]
pub enum LoopEvent {
    /// The loop was started.
    Started,
    /// All pending window events were handled.
    Tick,
    /// The window wants to be drawn.
    RedrawRequested,
    /// The window changed its size.
    Resized,
    /// The user asked for the window to be closed.
    CloseRequested,
    /// An image was asked of the swapchain, with this outcome.
    ImageAcquired(FrameStatus),
    /// A frame was rendered and presented, with this outcome.
    FramePresented(FrameStatus),
    /// The shutdown has come to its end.
    Disposed,
}

/// What the loop asks of its driver.
#[derive(Clone, Copy, Debug, PartialEq, Eq, Structural)]
pub enum LoopAction {
    Nothing,
    /// Ask the window for a redraw.
    RequestRedraw,
    /// Wait for the device, renew the swapchain and what depends on its
    /// size, then ask the window for a redraw.
    RecreateThenRedraw,
    /// Ask the swapchain for its next image and report the outcome.
    AcquireImage,
    /// Record and submit the frame, present it and report the outcome.
    RenderAndPresent,
    /// Leave this frame out.
    SkipFrame,
    /// Wait for the device, dispose of every resource in the reverse order
    /// of creation and report the end.
    Shutdown,
}

/// The render loop: its state, and whether the swapchain is due to be
/// renewed at the next tick.
#[derive(Clone, Copy, Debug, PartialEq, Eq, Structural)]
pub struct VkRendererLoop {
    pub state: LoopState,
    pub recreate_swapchain: bool,
}

/// Whether a status calls for the swapchain to be renewed.
pub open spec fn calls_for_recreation(status: FrameStatus) -> bool {
    status != FrameStatus::Optimal
}

/// What a running loop makes of an event.
pub open spec fn running_transition(recreate: bool, event: LoopEvent) -> (
    VkRendererLoop,
    LoopAction,
) {
    let running = VkRendererLoop { state: LoopState::Running, recreate_swapchain: recreate };
    let due = VkRendererLoop { state: LoopState::Running, recreate_swapchain: true };
    match event {
        LoopEvent::Tick => if recreate {
            (
                VkRendererLoop { state: LoopState::Running, recreate_swapchain: false },
                LoopAction::RecreateThenRedraw,
            )
        } else {
            (running, LoopAction::RequestRedraw)
        },
        LoopEvent::RedrawRequested => if recreate {
            (running, LoopAction::SkipFrame)
        } else {
            (running, LoopAction::AcquireImage)
        },
        LoopEvent::Resized => (
            VkRendererLoop { state: LoopState::ResizeRequested, recreate_swapchain: recreate },
            LoopAction::Nothing,
        ),
        LoopEvent::ImageAcquired(status) => match status {
            FrameStatus::Optimal => (running, LoopAction::RenderAndPresent),
            FrameStatus::Suboptimal => (due, LoopAction::RenderAndPresent),
            FrameStatus::OutOfDate => (due, LoopAction::SkipFrame),
        },
        LoopEvent::FramePresented(status) => if calls_for_recreation(status) {
            (due, LoopAction::Nothing)
        } else {
            (running, LoopAction::Nothing)
        },
        LoopEvent::CloseRequested => (
            VkRendererLoop { state: LoopState::CloseRequested, recreate_swapchain: recreate },
            LoopAction::Shutdown,
        ),
        LoopEvent::Started | LoopEvent::Disposed => (running, LoopAction::Nothing),
    }
}

/// The state after an event and what the loop asks of its driver.
pub open spec fn transition(current: VkRendererLoop, event: LoopEvent) -> (
    VkRendererLoop,
    LoopAction,
) {
    match current.state {
        LoopState::Idle => match event {
            LoopEvent::Started => (
                VkRendererLoop { state: LoopState::Running, ..current },
                LoopAction::Nothing,
            ),
            LoopEvent::CloseRequested => (
                VkRendererLoop { state: LoopState::CloseRequested, ..current },
                LoopAction::Shutdown,
            ),
            _ => (current, LoopAction::Nothing),
        },
        LoopState::Running => running_transition(current.recreate_swapchain, event),
        LoopState::ResizeRequested => match event {
            LoopEvent::Tick => (
                VkRendererLoop { state: LoopState::Running, recreate_swapchain: false },
                LoopAction::RecreateThenRedraw,
            ),
            LoopEvent::RedrawRequested | LoopEvent::ImageAcquired(_) => (
                current,
                LoopAction::SkipFrame,
            ),
            LoopEvent::CloseRequested => (
                VkRendererLoop { state: LoopState::CloseRequested, ..current },
                LoopAction::Shutdown,
            ),
            _ => (current, LoopAction::Nothing),
        },
        LoopState::CloseRequested => match event {
            LoopEvent::Disposed => (
                VkRendererLoop { state: LoopState::Terminated, ..current },
                LoopAction::Nothing,
            ),
            _ => (current, LoopAction::Nothing),
        },
        LoopState::Terminated => (current, LoopAction::Nothing),
    }
}

impl VkRendererLoop {
    /// A loop that is set up and not started.
    pub fn init() -> (fresh: VkRendererLoop)
        ensures
            fresh == (VkRendererLoop { state: LoopState::Idle, recreate_swapchain: false }),
    {
        VkRendererLoop { state: LoopState::Idle, recreate_swapchain: false }
    }

    fn running_step(&mut self, event: LoopEvent) -> (action: LoopAction)
        requires
            old(self).state == LoopState::Running,
        ensures
            (*final(self), action) == running_transition(old(self).recreate_swapchain, event),
    {
        match event {
            LoopEvent::Tick => {
                if self.recreate_swapchain {
                    self.recreate_swapchain = false;
                    LoopAction::RecreateThenRedraw
                } else {
                    LoopAction::RequestRedraw
                }
            },
            LoopEvent::RedrawRequested => {
                if self.recreate_swapchain {
                    LoopAction::SkipFrame
                } else {
                    LoopAction::AcquireImage
                }
            },
            LoopEvent::Resized => {
                self.state = LoopState::ResizeRequested;
                LoopAction::Nothing
            },
            LoopEvent::ImageAcquired(status) => match status {
                FrameStatus::Optimal => LoopAction::RenderAndPresent,
                FrameStatus::Suboptimal => {
                    self.recreate_swapchain = true;
                    LoopAction::RenderAndPresent
                },
                FrameStatus::OutOfDate => {
                    self.recreate_swapchain = true;
                    LoopAction::SkipFrame
                },
            },
            LoopEvent::FramePresented(status) => {
                match status {
                    FrameStatus::Optimal => {},
                    _ => {
                        self.recreate_swapchain = true;
                    },
                }
                LoopAction::Nothing
            },
            LoopEvent::CloseRequested => {
                self.state = LoopState::CloseRequested;
                LoopAction::Shutdown
            },
            LoopEvent::Started => LoopAction::Nothing,
            LoopEvent::Disposed => LoopAction::Nothing,
        }
    }

    /// Takes an event: moves to the next state and says what the driver
    /// has to do.
    pub fn step(&mut self, event: LoopEvent) -> (action: LoopAction)
        ensures
            (*final(self), action) == transition(*old(self), event),
    {
        match self.state {
            LoopState::Idle => match event {
                LoopEvent::Started => {
                    self.state = LoopState::Running;
                    LoopAction::Nothing
                },
                LoopEvent::CloseRequested => {
                    self.state = LoopState::CloseRequested;
                    LoopAction::Shutdown
                },
                _ => LoopAction::Nothing,
            },
            LoopState::Running => self.running_step(event),
            LoopState::ResizeRequested => match event {
                LoopEvent::Tick => {
                    self.state = LoopState::Running;
                    self.recreate_swapchain = false;
                    LoopAction::RecreateThenRedraw
                },
                LoopEvent::RedrawRequested => LoopAction::SkipFrame,
                LoopEvent::ImageAcquired(_) => LoopAction::SkipFrame,
                LoopEvent::CloseRequested => {
                    self.state = LoopState::CloseRequested;
                    LoopAction::Shutdown
                },
                _ => LoopAction::Nothing,
            },
            LoopState::CloseRequested => match event {
                LoopEvent::Disposed => {
                    self.state = LoopState::Terminated;
                    LoopAction::Nothing
                },
                _ => LoopAction::Nothing,
            },
            LoopState::Terminated => LoopAction::Nothing,
        }
    }

    /// Takes note that the window wants to be drawn.
    pub fn render(&mut self) -> (action: LoopAction)
        ensures
            (*final(self), action) == transition(*old(self), LoopEvent::RedrawRequested),
    {
        self.step(LoopEvent::RedrawRequested)
    }

    /// Takes note that the window changed its size.
    pub fn resize(&mut self)
        ensures
            *final(self) == transition(*old(self), LoopEvent::Resized).0,
    {
        let _ = self.step(LoopEvent::Resized);
    }
}

impl RendererLoop for VkRendererLoop {
    fn init() -> (fresh: VkRendererLoop)
        ensures
            fresh == (VkRendererLoop { state: LoopState::Idle, recreate_swapchain: false }),
    {
        VkRendererLoop::init()
    }

    fn render(&mut self) -> (action: LoopAction)
        ensures
            (*final(self), action) == transition(*old(self), LoopEvent::RedrawRequested),
    {
        VkRendererLoop::render(self)
    }

    fn resize(&mut self)
        ensures
            *final(self) == transition(*old(self), LoopEvent::Resized).0,
    {
        VkRendererLoop::resize(self)
    }
}

/// Whether the loop renders no more: it is shutting down or has ended.
pub open spec fn closing(state: LoopState) -> bool {
    state == LoopState::CloseRequested || state == LoopState::Terminated
}

/// A loop that is shutting down never renders again: it asks for nothing,
/// stays as it is until the shutdown has come to its end, and is terminated
/// from then on.
pub proof fn lemma_close_is_final(current: VkRendererLoop, event: LoopEvent)
    requires
        closing(current.state),
    ensures
        closing(transition(current, event).0.state),
        transition(current, event).1 == LoopAction::Nothing,
        current.state == LoopState::Terminated ==> transition(current, event).0 == current,
        transition(current, event).0.state == LoopState::Terminated <==> current.state
            == LoopState::Terminated || event == LoopEvent::Disposed,
{
}

/// A close request is heeded in every state that still holds resources: the
/// loop asks for the shutdown, once.
pub proof fn lemma_close_request_starts_shutdown(current: VkRendererLoop)
    ensures
        !closing(current.state) ==> transition(current, LoopEvent::CloseRequested).0.state
            == LoopState::CloseRequested && transition(current, LoopEvent::CloseRequested).1
            == LoopAction::Shutdown,
{
}

/// Work on a frame is asked for only by a running loop that is not due to
/// renew its swapchain, and the loop goes on running.
pub proof fn lemma_frames_only_while_running(current: VkRendererLoop, event: LoopEvent)
    requires
        transition(current, event).1 == LoopAction::AcquireImage || transition(current, event).1
            == LoopAction::RenderAndPresent,
    ensures
        current.state == LoopState::Running,
        transition(current, event).0.state == LoopState::Running,
        transition(current, event).1 == LoopAction::AcquireImage ==> !current.recreate_swapchain,
{
}

/// After the window changed its size, or the swapchain was found out of
/// date or suboptimal, the next tick renews the swapchain before any image
/// is acquired, and the loop runs on with nothing due.
pub proof fn lemma_stale_swapchain_is_renewed(current: VkRendererLoop, event: LoopEvent)
    requires
        current.state == LoopState::Running,
        event == LoopEvent::Resized || (event matches LoopEvent::ImageAcquired(status)
            && calls_for_recreation(status)) || (event matches LoopEvent::FramePresented(status)
            && calls_for_recreation(status)),
    ensures
        ({
            let stale = transition(current, event).0;
            &&& transition(stale, LoopEvent::RedrawRequested).1 == LoopAction::SkipFrame
            &&& transition(stale, LoopEvent::Tick).1 == LoopAction::RecreateThenRedraw
            &&& transition(stale, LoopEvent::Tick).0 == (VkRendererLoop {
                state: LoopState::Running,
                recreate_swapchain: false,
            })
        }),
        event == LoopEvent::ImageAcquired(FrameStatus::OutOfDate) ==> transition(current, event).1
            == LoopAction::SkipFrame,
        event == LoopEvent::ImageAcquired(FrameStatus::Suboptimal) ==> transition(
            current,
            event,
        ).1 == LoopAction::RenderAndPresent,
{
}

} // verus!
