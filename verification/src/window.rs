//! The window: what it is created with and how its events drive the render
//! loop.

use vstd::prelude::*;
use crate::ini::{WindowIniData, WindowMode};
use crate::vulkan::render_loop::{transition, LoopAction, LoopEvent, VkRendererLoop};
use crate::vulkan::renderer::VkRenderer;
use crate::vulkan::swapchain::Extent2D;

verus! {

/// What a window is created with.
#[derive(Debug, PartialEq, Eq)]
pub struct WindowRequest {
    pub title: String,
    pub width: u32,
    pub height: u32,
    pub fullscreen: bool,
    pub resizable: bool,
    pub always_on_top: bool,
    pub transparent: bool,
}

/// What the window system tells of a window.
#[derive(Clone, Copy, Debug, PartialEq, Eq, Structural)]
pub enum WindowEvent {
    /// The user asked for the window to be closed.
    CloseRequested,
    /// All pending events were handled.
    MainEventsCleared,
    /// The window wants to be drawn.
    RedrawRequested,
    /// The window has a new size.
    Resized(Extent2D),
    /// Anything else.
    Other,
}

/// A window with its renderer and its render loop.
#[derive(Debug, PartialEq, Eq)]
pub struct ResaWindow {
    pub width: u32,
    pub height: u32,
    pub title: String,
    pub mode: WindowMode,
    pub renderer: VkRenderer,
    pub render_loop: VkRendererLoop,
    pub os: String,
}

/// What an event of the window means to the render loop, if anything.
pub open spec fn loop_event_of(event: WindowEvent) -> Option<LoopEvent> {
    match event {
        WindowEvent::CloseRequested => Some(LoopEvent::CloseRequested),
        WindowEvent::MainEventsCleared => Some(LoopEvent::Tick),
        WindowEvent::RedrawRequested => Some(LoopEvent::RedrawRequested),
        WindowEvent::Resized(_) => Some(LoopEvent::Resized),
        WindowEvent::Other => None,
    }
}

impl ResaWindow {
    /// Whether the window is `earlier` but for its size and its render
    /// loop: title, mode, renderer and system are the same.
    pub open spec fn same_window_as(&self, earlier: &ResaWindow) -> bool {
        &&& self.title == earlier.title
        &&& self.mode == earlier.mode
        &&& self.renderer == earlier.renderer
        &&& self.os == earlier.os
    }
}

/// The size of a window after an event.
pub open spec fn size_after(width: u32, height: u32, event: WindowEvent) -> (u32, u32) {
    match event {
        WindowEvent::Resized(extent) => (extent.width, extent.height),
        _ => (width, height),
    }
}

/// What a window is created with for the given settings: their title and
/// size, resizable, on top of other windows and opaque. The window is never
/// made fullscreen, whatever the settings ask for.
pub fn window_request(ini_data: &WindowIniData) -> (request: WindowRequest)
    ensures
        request.title@ == ini_data.window_title@,
        request.width == ini_data.window_width,
        request.height == ini_data.window_height,
        !request.fullscreen,
        request.resizable,
        request.always_on_top,
        !request.transparent,
{
    WindowRequest {
        title: ini_data.window_title.clone(),
        width: ini_data.window_width,
        height: ini_data.window_height,
        fullscreen: false,
        resizable: true,
        always_on_top: true,
        transparent: false,
    }
}

/// Whether the settings ask for a mode that the window is not given: the
/// caller is to warn of it.
pub fn ignores_window_mode(ini_data: &WindowIniData) -> (ignored: bool)
    ensures
        ignored == (ini_data.window_mode == WindowMode::Fullscreen),
{
    match ini_data.window_mode {
        WindowMode::Windowed => false,
        WindowMode::Fullscreen => true,
    }
}

impl ResaWindow {
    /// A window of the given settings on the given system, with its
    /// renderer and a render loop that is not started.
    pub fn init(ini_data: &WindowIniData, os_name: &str, renderer: VkRenderer) -> (window:
        ResaWindow)
        ensures
            window.width == ini_data.window_width,
            window.height == ini_data.window_height,
            window.title@ == ini_data.window_title@,
            window.mode == ini_data.window_mode,
            window.os@ == os_name@,
            window.renderer == renderer,
            window.render_loop == (VkRendererLoop {
                state: crate::vulkan::render_loop::LoopState::Idle,
                recreate_swapchain: false,
            }),
    {
        ResaWindow {
            width: ini_data.window_width,
            height: ini_data.window_height,
            title: ini_data.window_title.clone(),
            mode: ini_data.window_mode,
            renderer,
            render_loop: VkRendererLoop::init(),
            os: os_name.to_owned(),
        }
    }

    /// The name of the graphics device the window is drawn with.
    pub fn get_gpu_name(&self) -> (name: String)
        ensures
            name@ == self.renderer.gpu_name@,
    {
        self.renderer.get_gpu_name().to_owned()
    }

    /// Starts the render loop.
    pub fn run_window_loop(&mut self)
        ensures
            final(self).render_loop == transition(old(self).render_loop, LoopEvent::Started).0,
            final(self).width == old(self).width,
            final(self).height == old(self).height,
            final(self).same_window_as(old(self)),
    {
        let _ = self.render_loop.step(LoopEvent::Started);
    }

    /// Takes an event of the window: keeps the new size where the window
    /// has one, hands the event on to the render loop and says what is to
    /// be done. An event that means nothing to the loop asks for nothing.
    pub fn handle_event(&mut self, event: WindowEvent) -> (action: LoopAction)
        ensures
            final(self).same_window_as(old(self)),
            (final(self).width, final(self).height) == size_after(
                old(self).width,
                old(self).height,
                event,
            ),
            match loop_event_of(event) {
                Some(loop_event) => (final(self).render_loop, action) == transition(
                    old(self).render_loop,
                    loop_event,
                ),
                None => final(self).render_loop == old(self).render_loop && action
                    == LoopAction::Nothing,
            },
    {
        match event {
            WindowEvent::CloseRequested => self.render_loop.step(LoopEvent::CloseRequested),
            WindowEvent::MainEventsCleared => self.render_loop.step(LoopEvent::Tick),
            WindowEvent::RedrawRequested => self.render_loop.step(LoopEvent::RedrawRequested),
            WindowEvent::Resized(extent) => {
                self.width = extent.width;
                self.height = extent.height;
                self.render_loop.step(LoopEvent::Resized)
            },
            WindowEvent::Other => LoopAction::Nothing,
        }
    }
}

} // verus!
