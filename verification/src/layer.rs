//! The program as a whole: what is known of the machine, and the window.

use vstd::prelude::*;
use crate::device_info::{device_text, storage_after, DeviceInfo, DeviceInfoModel, SystemSnapshot};
use crate::ini::IniFileData;
use crate::sys_log::{record_for, Log, LogLevel, LogRecord};
use crate::vulkan::render_loop::{LoopState, VkRendererLoop};
use crate::vulkan::renderer::VkRenderer;
use crate::window::ResaWindow;

verus! {

/// The program: what is known of the machine, and the window.
#[derive(Debug, PartialEq, Eq)]
pub struct System {
    pub device_info: DeviceInfo,
    pub window: ResaWindow,
}

/// What is known of a machine that reports `snapshot` and draws with the
/// graphics device `gpu_name`.
pub open spec fn known_of(snapshot: SystemSnapshot, gpu_name: Seq<char>) -> DeviceInfoModel {
    DeviceInfoModel {
        os_name: snapshot.os_name@,
        os_version: snapshot.os_version@,
        cpu_name: snapshot.cpu_name@,
        cpu_cores: snapshot.cpu_cores,
        cpu_frequency: snapshot.cpu_frequency,
        ram_size: snapshot.total_memory,
        storage_left: storage_after(0, snapshot.disks@),
        gpu_vendor: gpu_name,
        gpu_ram: 0,
    }
}

impl System {
    /// Puts the program together: collects what the machine reports, sets
    /// up the window of the given settings with its renderer and notes the
    /// graphics device the renderer runs on.
    pub fn init(ini_data: &IniFileData, snapshot: &SystemSnapshot, renderer: VkRenderer) -> (sys:
        System)
        ensures
            sys.device_info@ == known_of(*snapshot, renderer.gpu_name@),
            sys.window.renderer == renderer,
            sys.window.width == ini_data.window_data.window_width,
            sys.window.height == ini_data.window_data.window_height,
            sys.window.title@ == ini_data.window_data.window_title@,
            sys.window.mode == ini_data.window_data.window_mode,
            sys.window.os@ == snapshot.os_name@,
            sys.window.render_loop == (VkRendererLoop {
                state: LoopState::Idle,
                recreate_swapchain: false,
            }),
    {
        let mut device_info = DeviceInfo::new();
        device_info.collect_data(snapshot);
        let window = ResaWindow::init(&ini_data.window_data, device_info.os_name.as_str(), renderer);
        let mut sys = System { device_info, window };
        let gpu_name = sys.window.get_gpu_name();
        sys.device_info.set_gpu_data(gpu_name.as_str(), 0);
        sys
    }

    /// What the log is to write when logging begins: what is known of the
    /// machine, as a message made now.
    pub fn init_logging(&self, log: &Log) -> (record: LogRecord)
        ensures
            exists|timestamp: Seq<char>|
                record@ == #[trigger] record_for(
                    log.flags,
                    LogLevel::Message,
                    timestamp,
                    device_text(self.device_info@),
                ),
    {
        self.device_info.write_to_log(log)
    }
}

} // verus!
