use resa::device_info::{DiskInfo, SystemSnapshot};
use resa::error::{ResaError, ResaResult, RESOLVE_ERROR_MESSAGE};
use resa::ini::{setup_default_ini, WindowIniData, WindowMode};
use resa::layer::System;
use resa::log_flags::{LogFlags, WRITE_MESSAGE};
use resa::sys_log::Log;
use resa::vulkan::physical_device::{
    DeviceClass, DeviceFeatures, PhysicalDeviceCandidate, QueueFamily,
};
use resa::vulkan::render_loop::{LoopAction, LoopState};
use resa::vulkan::instance::VkInstance;
use resa::vulkan::renderer::VkRenderer;
use resa::vulkan::swapchain::{Extent2D, SurfaceCapabilities, SurfaceFormat, UNDEFINED_EXTENT};
use resa::window::{ignores_window_mode, window_request, ResaWindow, WindowEvent};

fn renderer() -> VkRenderer {
    let candidates = vec![PhysicalDeviceCandidate {
        physical_device: 1,
        name: "Some GPU".to_string(),
        device_type: DeviceClass::DiscreteGpu,
        extensions: vec![],
        features: DeviceFeatures { geometry_shader: false, shader_clip_distance: true },
        queue_families: vec![QueueFamily { graphics: true, compute: true, present: true }],
    }];
    let caps = SurfaceCapabilities {
        min_image_count: 1,
        max_image_count: 0,
        current_extent: Extent2D { width: UNDEFINED_EXTENT, height: 0 },
        min_image_extent: Extent2D { width: 1, height: 1 },
        max_image_extent: Extent2D { width: 4096, height: 4096 },
        supported_transforms: 1,
        current_transform: 1,
        supported_usage_flags: 0x10,
    };
    VkRenderer::new(
        VkInstance::new(&candidates, None).unwrap(),
        &caps,
        &vec![SurfaceFormat { format: 44, color_space: 0 }],
        &vec![],
        Extent2D { width: 640, height: 480 },
        &Log { output_path: "./Log.md".to_string(), flags: LogFlags::all() },
    )
    .0
    .unwrap()
}

fn snapshot() -> SystemSnapshot {
    SystemSnapshot {
        os_name: "Linux".to_string(),
        os_version: "6.1".to_string(),
        cpu_name: "Some CPU".to_string(),
        cpu_cores: 4,
        cpu_frequency: 2400,
        total_memory: 1024,
        disks: vec![DiskInfo { holds_program: true, available_space: 2048 }],
    }
}

#[test]
fn success_resolves_to_its_value() {
    let log = Log { output_path: "./Log.md".to_string(), flags: LogFlags::all() };
    assert_eq!(ResaResult::Success(5).resolve(&log), (Some(5), None));
    assert_eq!(ResaResult::Success("text").resolve(&log), (Some("text"), None));
}

#[test]
fn failure_resolves_to_nothing() {
    let log = Log { output_path: "./Log.md".to_string(), flags: LogFlags::all() };
    let (value, record) = ResaResult::<u32>::Failure().resolve(&log);
    assert_eq!(value, None);
    let record = record.unwrap();
    let line = record.file_line.unwrap();
    assert!(line.starts_with('['));
    assert_eq!(&line[9..], "] ERR: Action resolved in an Error!\n");
    assert_eq!(record.console_line.unwrap(), format!("\u{1b}[1;31m{}\u{1b}[0m", line));
    assert_eq!(RESOLVE_ERROR_MESSAGE, "Action resolved in an Error!");
}

#[test]
fn failure_is_written_where_the_log_writes_errors() {
    let silent = Log { output_path: "./Log.md".to_string(), flags: LogFlags::from_bits(WRITE_MESSAGE) };
    let (value, record) = ResaResult::<u32>::Failure().resolve(&silent);
    assert_eq!(value, None);
    let record = record.unwrap();
    assert_eq!(record.file_line, None);
    assert_eq!(record.console_line, None);
}

#[test]
fn errors_are_told_apart() {
    assert_ne!(ResaError::InitFailed, ResaError::CallFailed);
    assert_ne!(ResaError::CallFailed, ResaError::NonCriticalError);
}

#[test]
fn window_is_requested_with_the_settings() {
    let settings = setup_default_ini();
    let request = window_request(&settings.window_data);
    assert_eq!(request.title, "RESA by Sebastian Borsch");
    assert_eq!(request.width, 640);
    assert_eq!(request.height, 480);
    assert!(!request.fullscreen);
    assert!(request.resizable);
    assert!(request.always_on_top);
    assert!(!request.transparent);
    assert!(!ignores_window_mode(&settings.window_data));
}

#[test]
fn fullscreen_is_accepted_and_not_given() {
    let settings = WindowIniData {
        window_mode: WindowMode::Fullscreen,
        window_width: 1920,
        window_height: 1080,
        window_title: "full".to_string(),
    };
    assert!(!window_request(&settings).fullscreen);
    assert!(ignores_window_mode(&settings));
}

#[test]
fn window_keeps_its_settings_and_its_renderer() {
    let settings = setup_default_ini();
    let window = ResaWindow::init(&settings.window_data, "Linux", renderer());
    assert_eq!(window.width, 640);
    assert_eq!(window.height, 480);
    assert_eq!(window.title, "RESA by Sebastian Borsch");
    assert_eq!(window.mode, WindowMode::Windowed);
    assert_eq!(window.os, "Linux");
    assert_eq!(window.get_gpu_name(), "Some GPU");
    assert_eq!(window.render_loop.state, LoopState::Idle);
    assert!(!window.render_loop.recreate_swapchain);
}

#[test]
fn window_events_drive_the_render_loop() {
    let settings = setup_default_ini();
    let mut window = ResaWindow::init(&settings.window_data, "Linux", renderer());
    assert_eq!(window.handle_event(WindowEvent::MainEventsCleared), LoopAction::Nothing);
    window.run_window_loop();
    assert_eq!(window.render_loop.state, LoopState::Running);
    assert_eq!(window.handle_event(WindowEvent::MainEventsCleared), LoopAction::RequestRedraw);
    assert_eq!(window.handle_event(WindowEvent::RedrawRequested), LoopAction::AcquireImage);
    assert_eq!(window.handle_event(WindowEvent::Other), LoopAction::Nothing);
    assert_eq!(window.render_loop.state, LoopState::Running);
    assert_eq!(
        window.handle_event(WindowEvent::Resized(Extent2D { width: 800, height: 600 })),
        LoopAction::Nothing
    );
    assert_eq!((window.width, window.height), (800, 600));
    assert_eq!(window.render_loop.state, LoopState::ResizeRequested);
    assert_eq!(window.handle_event(WindowEvent::RedrawRequested), LoopAction::SkipFrame);
    assert_eq!(
        window.handle_event(WindowEvent::MainEventsCleared),
        LoopAction::RecreateThenRedraw
    );
    assert_eq!(window.handle_event(WindowEvent::CloseRequested), LoopAction::Shutdown);
    assert_eq!(window.render_loop.state, LoopState::CloseRequested);
    assert_eq!(window.handle_event(WindowEvent::RedrawRequested), LoopAction::Nothing);
    assert_eq!((window.width, window.height), (800, 600));
    assert_eq!(window.title, "RESA by Sebastian Borsch");
    assert_eq!(window.mode, WindowMode::Windowed);
    assert_eq!(window.os, "Linux");
    assert_eq!(window.renderer, renderer());
}

#[test]
fn system_knows_the_machine_and_its_graphics_device() {
    let system = System::init(&setup_default_ini(), &snapshot(), renderer());
    assert_eq!(system.device_info.os_name, "Linux");
    assert_eq!(system.device_info.os_version, "6.1");
    assert_eq!(system.device_info.cpu_name, "Some CPU");
    assert_eq!(system.device_info.cpu_cores, 4);
    assert_eq!(system.device_info.cpu_frequency, 2400);
    assert_eq!(system.device_info.ram_size, 1024);
    assert_eq!(system.device_info.storage_left, 2048);
    assert_eq!(system.device_info.gpu_vendor, "Some GPU");
    assert_eq!(system.device_info.gpu_ram, 0);
    assert_eq!(system.window.os, "Linux");
    assert_eq!(system.window.width, 640);
    assert_eq!(system.window.title, "RESA by Sebastian Borsch");
    assert_eq!(system.window.render_loop.state, LoopState::Idle);
    assert!(!system.window.render_loop.recreate_swapchain);
}

#[test]
fn system_tells_the_log_of_the_machine() {
    let system = System::init(&setup_default_ini(), &snapshot(), renderer());
    let log = Log { output_path: "./Log.md".to_string(), flags: LogFlags::from_bits(WRITE_MESSAGE) };
    let record = system.init_logging(&log);
    let line = record.file_line.unwrap();
    assert!(line.ends_with(&format!("] MSG: {}\n", system.device_info.log_text())));
    assert!(line.contains("\tAvailable: 1.024 (KB)\n"));
    assert!(line.contains("\tAvailable: 2.048 (Bytes)"));
    assert_eq!(record.console_line, None);
}
