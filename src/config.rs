use vstd::prelude::*;

verus! {

/// Board configuration: memory layout and the device set.
pub struct RuntimeConfig {
    pub mbase: u32,
    pub msize: u32,
    pub pc_reset_offset: u32,
    pub mem_random: bool,
    pub trace_start: u64,
    pub trace_end: u64,
    pub has_serial: bool,
    pub serial_mmio: u32,
    pub has_timer: bool,
    pub rtc_mmio: u32,
    pub has_keyboard: bool,
    pub i8042_data_mmio: u32,
    pub has_vga: bool,
    pub fb_addr: u32,
    pub vga_ctl_mmio: u32,
    pub vga_show_screen: bool,
    pub has_audio: bool,
    pub sb_addr: u32,
    pub sb_size: u32,
    pub audio_ctl_mmio: u32,
    pub has_disk: bool,
    pub disk_ctl_mmio: u32,
    pub disk_img_path: String,
    pub has_clint: bool,
    pub has_plic: bool,
}

pub const MBASE: u32 = 0x8000_0000;

pub const MSIZE: u32 = 0x0800_0000;

pub const PC_RESET_OFFSET: u32 = 0;

pub const SERIAL_MMIO: u32 = 0xa000_03f8;

pub const RTC_MMIO: u32 = 0xa000_0048;

pub const I8042_DATA_MMIO: u32 = 0xa000_0060;

pub const FB_ADDR: u32 = 0xa100_0000;

pub const VGA_CTL_MMIO: u32 = 0xa000_0100;

pub const SB_ADDR: u32 = 0xa120_0000;

pub const SB_SIZE: u32 = 0x1_0000;

pub const AUDIO_CTL_MMIO: u32 = 0xa000_0200;

pub const DISK_CTL_MMIO: u32 = 0xa000_0300;

pub const CLINT_MMIO: u32 = 0x0200_0000;

pub const PLIC_MMIO: u32 = 0x0c00_0000;

impl RuntimeConfig {
    /// The configuration holds a usable memory layout.
    pub open spec fn wf(&self) -> bool {
        &&& self.msize > 0
        &&& crate::pmem::ram_placeable(self.mbase, self.msize as int)
        &&& self.mbase as int + self.msize as int <= 0x1_0000_0000
        &&& self.pc_reset_offset < self.msize
    }
}

impl Default for RuntimeConfig {
    fn default() -> (r: Self)
        ensures
            r.mbase == MBASE,
            r.msize == MSIZE,
            r.pc_reset_offset == PC_RESET_OFFSET,
            r.wf(),
            r.mem_random,
            r.trace_start == 0 && r.trace_end == 10000,
            r.has_serial && r.serial_mmio == SERIAL_MMIO,
            r.has_timer && r.rtc_mmio == RTC_MMIO,
            r.has_keyboard && r.i8042_data_mmio == I8042_DATA_MMIO,
            r.has_vga && r.fb_addr == FB_ADDR && r.vga_ctl_mmio == VGA_CTL_MMIO && r.vga_show_screen,
            r.has_audio && r.sb_addr == SB_ADDR && r.sb_size == SB_SIZE && r.audio_ctl_mmio
                == AUDIO_CTL_MMIO,
            r.has_disk && r.disk_ctl_mmio == DISK_CTL_MMIO && r.disk_img_path@.len() == 0,
            r.has_clint && r.has_plic,
    {
        RuntimeConfig {
            mbase: MBASE,
            msize: MSIZE,
            pc_reset_offset: PC_RESET_OFFSET,
            mem_random: true,
            trace_start: 0,
            trace_end: 10000,
            has_serial: true,
            serial_mmio: SERIAL_MMIO,
            has_timer: true,
            rtc_mmio: RTC_MMIO,
            has_keyboard: true,
            i8042_data_mmio: I8042_DATA_MMIO,
            has_vga: true,
            fb_addr: FB_ADDR,
            vga_ctl_mmio: VGA_CTL_MMIO,
            vga_show_screen: true,
            has_audio: true,
            sb_addr: SB_ADDR,
            sb_size: SB_SIZE,
            audio_ctl_mmio: AUDIO_CTL_MMIO,
            has_disk: true,
            disk_ctl_mmio: DISK_CTL_MMIO,
            disk_img_path: String::new(),
            has_clint: true,
            has_plic: true,
        }
    }
}

/// Reset vector: `mbase + pc_reset_offset`.
pub fn reset_vector(cfg: &RuntimeConfig) -> (r: u32)
    requires
        cfg.wf(),
    ensures
        r as int == cfg.mbase as int + cfg.pc_reset_offset as int,
{
    cfg.mbase + cfg.pc_reset_offset
}

} // verus!
