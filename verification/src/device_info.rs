//! What is known of the machine the program runs on, and the text that
//! tells it in the log.

use vstd::prelude::*;
use crate::sys_log::{record_for, Log, LogLevel, LogRecord};
use crate::text::{append_decimal, decimal, digit_char};

verus! {

/// What is known of the machine.
#[derive(Debug, PartialEq, Eq)]
pub struct DeviceInfo {
    pub os_name: String,
    pub os_version: String,
    pub cpu_name: String,
    pub cpu_cores: usize,
    /// In MHz.
    pub cpu_frequency: u64,
    /// In KB.
    pub ram_size: u64,
    /// What is free on the disk that holds the program, in bytes.
    pub storage_left: u64,
    pub gpu_vendor: String,
    pub gpu_ram: u64,
}

/// What is known of the machine, as a mathematical value.
pub ghost struct DeviceInfoModel {
    pub os_name: Seq<char>,
    pub os_version: Seq<char>,
    pub cpu_name: Seq<char>,
    pub cpu_cores: usize,
    pub cpu_frequency: u64,
    pub ram_size: u64,
    pub storage_left: u64,
    pub gpu_vendor: Seq<char>,
    pub gpu_ram: u64,
}

impl View for DeviceInfo {
    type V = DeviceInfoModel;

    open spec fn view(&self) -> DeviceInfoModel {
        DeviceInfoModel {
            os_name: self.os_name@,
            os_version: self.os_version@,
            cpu_name: self.cpu_name@,
            cpu_cores: self.cpu_cores,
            cpu_frequency: self.cpu_frequency,
            ram_size: self.ram_size,
            storage_left: self.storage_left,
            gpu_vendor: self.gpu_vendor@,
            gpu_ram: self.gpu_ram,
        }
    }
}

/// A disk of the machine.
#[derive(Clone, Copy, Debug, PartialEq, Eq, Structural)]
pub struct DiskInfo {
    /// Whether the program lies on the disk.
    pub holds_program: bool,
    /// What is free on the disk, in bytes.
    pub available_space: u64,
}

/// What the machine reports of itself at one moment.
#[derive(Debug, PartialEq, Eq)]
pub struct SystemSnapshot {
    pub os_name: String,
    pub os_version: String,
    pub cpu_name: String,
    pub cpu_cores: usize,
    pub cpu_frequency: u64,
    pub total_memory: u64,
    pub disks: Vec<DiskInfo>,
}

/// What stands for a text that is not known yet.
pub open spec fn not_initialized() -> Seq<char> {
    "Not Initialized"@
}

/// What is known before anything was collected.
pub open spec fn unknown_device() -> DeviceInfoModel {
    DeviceInfoModel {
        os_name: not_initialized(),
        os_version: not_initialized(),
        cpu_name: not_initialized(),
        cpu_cores: 0,
        cpu_frequency: 0,
        ram_size: 0,
        storage_left: 0,
        gpu_vendor: not_initialized(),
        gpu_ram: 0,
    }
}

/// Whether `i` is the first disk that holds the program.
pub open spec fn is_program_disk(disks: Seq<DiskInfo>, i: int) -> bool {
    &&& 0 <= i < disks.len()
    &&& disks[i].holds_program
    &&& forall|j: int| 0 <= j < i ==> !disks[j].holds_program
}

/// What is free on the first disk that holds the program, or `before`
/// where no disk does.
pub open spec fn storage_after(before: u64, disks: Seq<DiskInfo>) -> u64 {
    if exists|i: int| is_program_disk(disks, i) {
        disks[choose|i: int| is_program_disk(disks, i)].available_space
    } else {
        before
    }
}

/// The free storage is that of the first disk that holds the program.
pub proof fn lemma_storage_of_program_disk(before: u64, disks: Seq<DiskInfo>, i: int)
    requires
        is_program_disk(disks, i),
    ensures
        storage_after(before, disks) == disks[i].available_space,
{
    let c = choose|c: int| is_program_disk(disks, c);
    assert(c == i);
}

/// Three decimal digits of a number below a thousand, zeros included.
pub open spec fn three_digits(n: nat) -> Seq<char> {
    seq![
        digit_char((n / 100) as int),
        digit_char((n / 10 % 10) as int),
        digit_char((n % 10) as int),
    ]
}

/// A number in decimal digits, in groups of three from the right with a
/// full stop between the groups.
pub open spec fn grouped(n: nat) -> Seq<char>
    decreases n,
{
    if n < 1000 {
        decimal(n)
    } else {
        grouped(n / 1000) + seq!['.'] + three_digits(n % 1000)
    }
}

/// The text that tells in the log what is known of the machine.
pub open spec fn device_text(info: DeviceInfoModel) -> Seq<char> {
    "\n## System Info\n---\n"@ + info.os_name + " (Version: "@ + info.os_version
        + ")\n### CPU\n\t"@ + info.cpu_name + "\n\tCores: "@ + decimal(info.cpu_cores as nat)
        + "\n\tFrequency: "@ + decimal(info.cpu_frequency as nat) + "(Mhz)\n"@
        + "### RAM\n\tAvailable: "@ + grouped(info.ram_size as nat) + " (KB)\n"@ + "### GPU\n\t"@
        + info.gpu_vendor + "\n\tGraphics RAM: "@ + grouped(info.gpu_ram as nat)
        + "\n### Storage\n\tAvailable: "@ + grouped(info.storage_left as nat) + " (Bytes)"@
}

/// Formats a number with `num_format`: `Buffer::write_formatted` with a
/// `CustomFormat` of standard grouping and a full stop as separator.
///
/// Trusted: the result holds the decimal digits of the number in groups
/// of three from the right, with a full stop between the groups.
#[verifier::external_body]
fn format_big_num(number: u64) -> (text: String)
    ensures
        text@ == grouped(number as nat),
{
    let format = num_format::CustomFormat::builder().grouping(
        num_format::Grouping::Standard,
    ).separator(".").build().unwrap();
    let mut buf = num_format::Buffer::new();
    buf.write_formatted(&number, &format);
    buf.as_str().to_string()
}

impl DeviceInfo {
    /// What is known before anything was collected.
    pub fn new() -> (info: DeviceInfo)
        ensures
            info@ == unknown_device(),
    {
        DeviceInfo {
            storage_left: 0,
            gpu_vendor: "Not Initialized".to_owned(),
            gpu_ram: 0,
            ram_size: 0,
            cpu_cores: 0,
            cpu_name: "Not Initialized".to_owned(),
            cpu_frequency: 0,
            os_name: "Not Initialized".to_owned(),
            os_version: "Not Initialized".to_owned(),
        }
    }

    /// Takes over what the machine reports of itself. What is known of the
    /// graphics device stays; so does the free storage where no disk holds
    /// the program.
    pub fn collect_data(&mut self, snapshot: &SystemSnapshot)
        ensures
            final(self)@ == (DeviceInfoModel {
                os_name: snapshot.os_name@,
                os_version: snapshot.os_version@,
                cpu_name: snapshot.cpu_name@,
                cpu_cores: snapshot.cpu_cores,
                cpu_frequency: snapshot.cpu_frequency,
                ram_size: snapshot.total_memory,
                storage_left: storage_after(old(self).storage_left, snapshot.disks@),
                ..old(self)@
            }),
    {
        self.get_operating_system_info(snapshot);
        self.get_cpu_info(snapshot);
        self.get_ram_data(snapshot);
        self.get_storage_data(snapshot);
    }

    /// Sets what is known of the graphics device.
    pub fn set_gpu_data(&mut self, vendor: &str, g_ram: u64)
        ensures
            final(self)@ == (DeviceInfoModel {
                gpu_vendor: vendor@,
                gpu_ram: g_ram,
                ..old(self)@
            }),
    {
        self.gpu_vendor = vendor.to_owned();
        self.gpu_ram = g_ram;
    }

    /// Computes `device_text`.
    pub fn log_text(&self) -> (text: String)
        ensures
            text@ == device_text(self@),
    {
        let mut log_string = String::new();
        log_string.append("\n## System Info\n---\n");
        log_string.append(self.os_name.as_str());
        log_string.append(" (Version: ");
        log_string.append(self.os_version.as_str());
        log_string.append(")\n### CPU\n\t");
        log_string.append(self.cpu_name.as_str());
        log_string.append("\n\tCores: ");
        append_decimal(&mut log_string, self.cpu_cores as u64);
        log_string.append("\n\tFrequency: ");
        append_decimal(&mut log_string, self.cpu_frequency);
        log_string.append("(Mhz)\n");
        log_string.append("### RAM\n\tAvailable: ");
        log_string.append(format_big_num(self.ram_size).as_str());
        log_string.append(" (KB)\n");
        log_string.append("### GPU\n\t");
        log_string.append(self.gpu_vendor.as_str());
        log_string.append("\n\tGraphics RAM: ");
        log_string.append(format_big_num(self.gpu_ram).as_str());
        log_string.append("\n### Storage\n\tAvailable: ");
        log_string.append(format_big_num(self.storage_left).as_str());
        log_string.append(" (Bytes)");
        assert(log_string@ =~= device_text(self@));
        log_string
    }

    /// What the log is to write to tell what is known of the machine: the
    /// text of `device_text`, as a message made now.
    pub fn write_to_log(&self, log: &Log) -> (record: LogRecord)
        ensures
            exists|timestamp: Seq<char>|
                record@ == #[trigger] record_for(
                    log.flags,
                    LogLevel::Message,
                    timestamp,
                    device_text(self@),
                ),
    {
        let text = self.log_text();
        log.write(text.as_str())
    }

    fn get_operating_system_info(&mut self, snapshot: &SystemSnapshot)
        ensures
            final(self)@ == (DeviceInfoModel {
                os_name: snapshot.os_name@,
                os_version: snapshot.os_version@,
                ..old(self)@
            }),
    {
        self.os_name = snapshot.os_name.clone();
        self.os_version = snapshot.os_version.clone();
    }

    fn get_cpu_info(&mut self, snapshot: &SystemSnapshot)
        ensures
            final(self)@ == (DeviceInfoModel {
                cpu_name: snapshot.cpu_name@,
                cpu_frequency: snapshot.cpu_frequency,
                cpu_cores: snapshot.cpu_cores,
                ..old(self)@
            }),
    {
        self.cpu_name = snapshot.cpu_name.clone();
        self.cpu_frequency = snapshot.cpu_frequency;
        self.cpu_cores = snapshot.cpu_cores;
    }

    fn get_ram_data(&mut self, snapshot: &SystemSnapshot)
        ensures
            final(self)@ == (DeviceInfoModel { ram_size: snapshot.total_memory, ..old(self)@ }),
    {
        self.ram_size = snapshot.total_memory;
    }

    fn get_storage_data(&mut self, snapshot: &SystemSnapshot)
        ensures
            final(self)@ == (DeviceInfoModel {
                storage_left: storage_after(old(self).storage_left, snapshot.disks@),
                ..old(self)@
            }),
    {
        let mut i: usize = 0;
        while i < snapshot.disks.len()
            invariant
                i <= snapshot.disks.len(),
                *self == *old(self),
                forall|j: int| 0 <= j < i ==> !snapshot.disks@[j].holds_program,
            decreases snapshot.disks.len() - i,
        {
            if snapshot.disks[i].holds_program {
                proof {
                    let disks = snapshot.disks@;
                    assert(is_program_disk(disks, i as int));
                    let c = choose|c: int| is_program_disk(disks, c);
                    assert(c == i);
                }
                self.storage_left = snapshot.disks[i].available_space;
                return ;
            }
            i += 1;
        }
    }
}

} // verus!
