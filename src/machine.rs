use vstd::prelude::*;
use crate::common::{PAddr, PrivMode, RemuState, VAddr, Word};
use crate::config::{reset_vector, RuntimeConfig, CLINT_MMIO, PLIC_MMIO};
use crate::device::{
    audio_ctl_callback, audio_sbuf_callback, clint_mip, disk_callback, plic_callback, rtc_callback,
    Clint, DeviceKind, IntrState, Keyboard, SerialDevice, VgaState,
};
use crate::mmio::{map_covers, MmioRegistry};
use crate::mmu::{isa_mmu_check, isa_mmu_translate, paging_on, translate_spec, MMU_DIRECT};
use crate::pmem::{le_write, PhysicalMemory};
use crate::state::CpuState;
use crate::trace::Traces;

verus! {

/// Run state of the emulator and where and how it halted.
pub struct GlobalState {
    pub state: RemuState,
    pub halt_pc: u32,
    pub halt_ret: i32,
}

impl Default for GlobalState {
    fn default() -> (r: Self)
        ensures
            r.state == RemuState::Stop && r.halt_pc == 0 && r.halt_ret == 0,
    {
        GlobalState { state: RemuState::Stop, halt_pc: 0, halt_ret: 0 }
    }
}

impl GlobalState {
    pub fn new() -> (r: Self)
        ensures
            r.state == RemuState::Stop && r.halt_pc == 0 && r.halt_ret == 0,
    {
        GlobalState::default()
    }

    pub fn get_state(&self) -> (r: RemuState)
        ensures
            r == self.state,
    {
        self.state
    }

    pub fn set_state(&mut self, state: RemuState)
        ensures
            final(self).state == state,
            final(self).halt_pc == old(self).halt_pc,
            final(self).halt_ret == old(self).halt_ret,
    {
        self.state = state;
    }

    pub fn set_halt(&mut self, pc: u32, ret: i32)
        ensures
            final(self).state == old(self).state,
            final(self).halt_pc == pc,
            final(self).halt_ret == ret,
    {
        self.halt_pc = pc;
        self.halt_ret = ret;
    }
}

/// Where an access of the hart lands: its physical address, or a page fault.
pub open spec fn access_spec(cpu: CpuState, mem: PhysicalMemory, v: u32, len: usize, t: i32) -> Result<u32, u32> {
    if paging_on(cpu.csr@, cpu.mode) {
        translate_spec(cpu.csr@, cpu.mode, mem, v, len, t)
    } else {
        Ok(v)
    }
}

/// The whole machine: hart, memory, devices, traces and run state.
pub struct Emulator {
    pub cpu: CpuState,
    pub mem: PhysicalMemory,
    pub mmio: MmioRegistry,
    pub clint: Clint,
    pub intr: IntrState,
    pub serial: SerialDevice,
    pub keyboard: Keyboard,
    pub vga: VgaState,
    pub traces: Traces,
    pub state: GlobalState,
    pub reset_pc: u32,
    pub now_us: u64,
    pub inst_count: u64,
    pub exit_bad: bool,
}

impl Emulator {
    pub open spec fn wf(&self) -> bool {
        &&& self.cpu.wf()
        &&& self.mem.wf()
        &&& self.mmio.wf()
        &&& self.vga.wf()
        &&& self.traces.wf()
    }

    /// Interrupt lines that devices drive into MIP right now.
    pub open spec fn irq_lines(&self) -> u32 {
        clint_mip(self.clint, self.now_us) | self.intr.bits
    }

    /// A machine at reset: memory zeroed, devices registered as `cfg` says,
    /// the hart at the reset vector in Machine mode.
    pub fn new(cfg: &RuntimeConfig, trace: bool) -> (r: Self)
        requires
            cfg.wf(),
        ensures
            r.wf(),
            r.cpu.pc as int == cfg.mbase as int + cfg.pc_reset_offset as int,
            r.cpu.mode == PrivMode::Machine,
            r.mem.mbase == cfg.mbase,
            r.mem.msize == cfg.msize,
            r.state.state == RemuState::Stop,
            r.now_us == 0,
            r.reset_pc as int == cfg.mbase as int + cfg.pc_reset_offset as int,
    {
        let mut cpu = CpuState::new();
        cpu.init(cfg);
        let mut emu = Emulator {
            cpu,
            mem: PhysicalMemory::new(cfg.mbase, cfg.msize as usize),
            mmio: MmioRegistry::init_mmio(),
            clint: Clint::new(),
            intr: IntrState::new(),
            serial: SerialDevice::new(),
            keyboard: Keyboard::new(),
            vga: VgaState::new(),
            traces: Traces::new(trace),
            state: GlobalState::new(),
            reset_pc: reset_vector(cfg),
            now_us: 0,
            inst_count: 0,
            exit_bad: false,
        };
        emu.init_device(cfg);
        emu
    }

    /// Registers the devices that `cfg` enables; a range that would overlap
    /// one already registered is left out.
    pub fn init_device(&mut self, cfg: &RuntimeConfig)
        requires
            old(self).wf(),
        ensures
            final(self).wf(),
            final(self).cpu == old(self).cpu,
            final(self).mem == old(self).mem,
            final(self).state == old(self).state,
            final(self).now_us == old(self).now_us,
            final(self).reset_pc == old(self).reset_pc,
    {
        if cfg.has_clint {
            self.init_clint();
        }
        if cfg.has_plic {
            self.init_plic();
        }
        if cfg.has_serial {
            self.init_serial(cfg);
        }
        if cfg.has_timer {
            self.init_timer(cfg);
        }
        if cfg.has_keyboard {
            self.init_keyboard(cfg);
        }
        if cfg.has_vga {
            self.init_vga(cfg);
        }
        if cfg.has_audio {
            self.init_audio(cfg);
        }
        if cfg.has_disk {
            self.init_disk(cfg);
        }
    }

    /// CLINT: 64 KiB at its fixed base.
    pub fn init_clint(&mut self) -> (r: bool)
        requires
            old(self).wf(),
        ensures
            final(self).wf(),
            final(self).cpu == old(self).cpu,
            final(self).mem == old(self).mem,
            final(self).state == old(self).state,
            final(self).now_us == old(self).now_us,
            final(self).reset_pc == old(self).reset_pc,
            r == old(self).mmio.is_free(CLINT_MMIO, 0x1_0000),
            r ==> final(self).mmio.maps@.last().kind == DeviceKind::Clint,
            !r ==> final(self).mmio.maps@ == old(self).mmio.maps@,
    {
        self.mmio.register_checked("clint", CLINT_MMIO, 0x1_0000, DeviceKind::Clint)
    }

    /// PLIC: 4 MiB at its fixed base.
    pub fn init_plic(&mut self) -> (r: bool)
        requires
            old(self).wf(),
        ensures
            final(self).wf(),
            final(self).cpu == old(self).cpu,
            final(self).mem == old(self).mem,
            final(self).state == old(self).state,
            final(self).now_us == old(self).now_us,
            final(self).reset_pc == old(self).reset_pc,
            r == old(self).mmio.is_free(PLIC_MMIO, 0x40_0000),
            r ==> final(self).mmio.maps@.last().kind == DeviceKind::Plic,
            !r ==> final(self).mmio.maps@ == old(self).mmio.maps@,
    {
        self.mmio.register_checked("plic", PLIC_MMIO, 0x40_0000, DeviceKind::Plic)
    }

    /// UART: 8 bytes.
    pub fn init_serial(&mut self, cfg: &RuntimeConfig) -> (r: bool)
        requires
            old(self).wf(),
        ensures
            final(self).wf(),
            final(self).cpu == old(self).cpu,
            final(self).mem == old(self).mem,
            final(self).state == old(self).state,
            final(self).now_us == old(self).now_us,
            final(self).reset_pc == old(self).reset_pc,
            !r ==> final(self).mmio.maps@.len() >= old(self).mmio.maps@.len(),
            r ==> final(self).mmio.maps@.len() == old(self).mmio.maps@.len() + 1,
    {
        let a = self.mmio.register_checked("serial", cfg.serial_mmio, 8, DeviceKind::Serial);
        a
    }

    /// RTC: two words.
    pub fn init_timer(&mut self, cfg: &RuntimeConfig) -> (r: bool)
        requires
            old(self).wf(),
        ensures
            final(self).wf(),
            final(self).cpu == old(self).cpu,
            final(self).mem == old(self).mem,
            final(self).state == old(self).state,
            final(self).now_us == old(self).now_us,
            final(self).reset_pc == old(self).reset_pc,
            !r ==> final(self).mmio.maps@.len() >= old(self).mmio.maps@.len(),
            r ==> final(self).mmio.maps@.len() == old(self).mmio.maps@.len() + 1,
    {
        let a = self.mmio.register_checked("rtc", cfg.rtc_mmio, 8, DeviceKind::Rtc);
        a
    }

    /// Keyboard data port.
    pub fn init_keyboard(&mut self, cfg: &RuntimeConfig) -> (r: bool)
        requires
            old(self).wf(),
        ensures
            final(self).wf(),
            final(self).cpu == old(self).cpu,
            final(self).mem == old(self).mem,
            final(self).state == old(self).state,
            final(self).now_us == old(self).now_us,
            final(self).reset_pc == old(self).reset_pc,
            !r ==> final(self).mmio.maps@.len() >= old(self).mmio.maps@.len(),
            r ==> final(self).mmio.maps@.len() == old(self).mmio.maps@.len() + 1,
    {
        let a = self.mmio.register_checked("i8042", cfg.i8042_data_mmio, 4, DeviceKind::Keyboard);
        a
    }

    /// Framebuffer (2 MiB window) and display control.
    pub fn init_vga(&mut self, cfg: &RuntimeConfig) -> (r: bool)
        requires
            old(self).wf(),
        ensures
            final(self).wf(),
            final(self).cpu == old(self).cpu,
            final(self).mem == old(self).mem,
            final(self).state == old(self).state,
            final(self).now_us == old(self).now_us,
            final(self).reset_pc == old(self).reset_pc,
            !r ==> final(self).mmio.maps@.len() >= old(self).mmio.maps@.len(),
            r ==> final(self).mmio.maps@.len() == old(self).mmio.maps@.len() + 2,
    {
        let a = self.mmio.register_checked("vmem", cfg.fb_addr, 0x20_0000, DeviceKind::Vmem);
        let b = self.mmio.register_checked("vga_ctl", cfg.vga_ctl_mmio, 8, DeviceKind::VgaCtl);
        a && b
    }

    /// Audio control and stream buffer.
    pub fn init_audio(&mut self, cfg: &RuntimeConfig) -> (r: bool)
        requires
            old(self).wf(),
        ensures
            final(self).wf(),
            final(self).cpu == old(self).cpu,
            final(self).mem == old(self).mem,
            final(self).state == old(self).state,
            final(self).now_us == old(self).now_us,
            final(self).reset_pc == old(self).reset_pc,
            !r ==> final(self).mmio.maps@.len() >= old(self).mmio.maps@.len(),
            r ==> final(self).mmio.maps@.len() == old(self).mmio.maps@.len() + 2,
    {
        let a = self.mmio.register_checked("audio", cfg.audio_ctl_mmio, 24, DeviceKind::AudioCtl);
        let b = self.mmio.register_checked("audio-sbuf", cfg.sb_addr, cfg.sb_size, DeviceKind::AudioSbuf);
        a && b
    }

    /// Disk control.
    pub fn init_disk(&mut self, cfg: &RuntimeConfig) -> (r: bool)
        requires
            old(self).wf(),
        ensures
            final(self).wf(),
            final(self).cpu == old(self).cpu,
            final(self).mem == old(self).mem,
            final(self).state == old(self).state,
            final(self).now_us == old(self).now_us,
            final(self).reset_pc == old(self).reset_pc,
            !r ==> final(self).mmio.maps@.len() >= old(self).mmio.maps@.len(),
            r ==> final(self).mmio.maps@.len() == old(self).mmio.maps@.len() + 1,
    {
        let a = self.mmio.register_checked("disk", cfg.disk_ctl_mmio, 8, DeviceKind::Disk);
        a
    }

    /// The hart, memory map, run state and clock are as in `o`.
    pub open spec fn frame_same(&self, o: &Emulator) -> bool {
        &&& self.cpu == o.cpu
        &&& self.mmio == o.mmio
        &&& self.state == o.state
        &&& self.now_us == o.now_us
        &&& self.reset_pc == o.reset_pc
    }

    /// Every device is as in `o`.
    pub open spec fn devices_same(&self, o: &Emulator) -> bool {
        &&& self.serial == o.serial
        &&& self.vga == o.vga
        &&& self.clint == o.clint
        &&& self.keyboard == o.keyboard
        &&& self.intr == o.intr
    }

    /// Device read at `offset` into the device's window.
    pub fn device_read(&mut self, kind: DeviceKind, offset: u32, len: usize) -> (r: Word)
        requires
            old(self).wf(),
            len <= 8,
        ensures
            final(self).wf(),
            device_read_post(*old(self), *final(self), kind, offset, len, r),
    {
        match kind {
            DeviceKind::Serial => self.serial.read(offset),
            DeviceKind::Rtc => rtc_callback(offset, false, self.now_us),
            DeviceKind::Keyboard => self.keyboard.i8042_callback(false),
            DeviceKind::VgaCtl => self.vga.vga_ctl_callback(offset, false, 0),
            DeviceKind::Vmem => self.vga.vmem_callback(offset, len, false, 0),
            DeviceKind::AudioCtl => audio_ctl_callback(offset, false, 0),
            DeviceKind::AudioSbuf => audio_sbuf_callback(offset, false, 0),
            DeviceKind::Disk => disk_callback(offset, false, 0),
            DeviceKind::Clint => self.clint.clint_callback(offset, false, 0, self.now_us),
            DeviceKind::Plic => plic_callback(offset, false, self.intr.bits),
        }
    }

    /// Device write at `offset` into the device's window.
    pub fn device_write(&mut self, kind: DeviceKind, offset: u32, len: usize, data: Word)
        requires
            old(self).wf(),
            len <= 8,
        ensures
            final(self).wf(),
            device_write_post(*old(self), *final(self), kind, offset, len, data),
    {
        match kind {
            DeviceKind::Serial => self.serial.write(offset, data),
            DeviceKind::Rtc => {
                rtc_callback(offset, true, self.now_us);
            },
            DeviceKind::Keyboard => {
                self.keyboard.i8042_callback(true);
            },
            DeviceKind::VgaCtl => {
                self.vga.vga_ctl_callback(offset, true, data);
            },
            DeviceKind::Vmem => {
                self.vga.vmem_callback(offset, len, true, data);
            },
            DeviceKind::AudioCtl => {
                audio_ctl_callback(offset, true, data);
            },
            DeviceKind::AudioSbuf => {
                audio_sbuf_callback(offset, true, data);
            },
            DeviceKind::Disk => {
                disk_callback(offset, true, data);
            },
            DeviceKind::Clint => {
                self.clint.clint_callback(offset, true, data, self.now_us);
            },
            DeviceKind::Plic => {
                plic_callback(offset, true, self.intr.bits);
            },
        }
    }

    /// Read from the device whose range holds `addr`; 0 when none does.
    pub fn mmio_read(&mut self, addr: PAddr, len: usize) -> (r: Word)
        requires
            old(self).wf(),
            len <= 8,
        ensures
            final(self).wf(),
            mmio_read_post(*old(self), *final(self), addr, len, r),
    {
        match self.mmio.find(addr) {
            Some(i) => {
                proof {
                    self.mmio.lemma_unique_cover(i as int, addr);
                }
                let kind = self.mmio.maps[i].kind;
                let off = addr - self.mmio.maps[i].start;
                let r = self.device_read(kind, off, len);
                self.traces.trace_dtrace(addr, len, r, false, kind);
                r
            },
            None => 0,
        }
    }

    /// Write to the device whose range holds `addr`; dropped when none does.
    pub fn mmio_write(&mut self, addr: PAddr, len: usize, data: Word)
        requires
            old(self).wf(),
            len <= 8,
        ensures
            final(self).wf(),
            mmio_write_post(*old(self), *final(self), addr, len, data),
    {
        match self.mmio.find(addr) {
            Some(i) => {
                proof {
                    self.mmio.lemma_unique_cover(i as int, addr);
                }
                let kind = self.mmio.maps[i].kind;
                let off = addr - self.mmio.maps[i].start;
                self.device_write(kind, off, len, data);
                self.traces.trace_dtrace(addr, len, data, true, kind);
            },
            None => {},
        }
    }

    /// Physical read: backing memory, else the covering device, else 0.
    pub fn paddr_read(&mut self, addr: PAddr, len: usize) -> (r: Word)
        requires
            old(self).wf(),
            len <= 8,
        ensures
            final(self).wf(),
            phys_read_post(*old(self), *final(self), addr, len, r),
    {
        if self.mem.guest_to_host(addr, len).is_some() {
            let r = self.mem.read(addr, len);
            self.traces.trace_read(addr, len, r);
            r
        } else {
            self.mmio_read(addr, len)
        }
    }

    /// Physical write: backing memory, else the covering device, else dropped.
    pub fn paddr_write(&mut self, addr: PAddr, len: usize, data: Word)
        requires
            old(self).wf(),
            len <= 8,
        ensures
            final(self).wf(),
            phys_write_post(*old(self), *final(self), addr, len, data),
    {
        self.traces.trace_write(addr, len, data);
        if self.mem.guest_to_host(addr, len).is_some() {
            self.mem.write(addr, len, data);
        } else {
            self.mmio_write(addr, len, data);
        }
    }

    /// Translates an access of the hart, recording the walk when paging is on.
    pub fn translate(&mut self, vaddr: VAddr, len: usize, t: i32) -> (r: Result<PAddr, Word>)
        requires
            old(self).wf(),
            len <= 8,
        ensures
            final(self).wf(),
            final(self).frame_same(old(self)),
            final(self).mem == old(self).mem,
            final(self).devices_same(old(self)),
            r == access_spec(old(self).cpu, old(self).mem, vaddr, len, t),
    {
        if isa_mmu_check(&self.cpu, vaddr, len, t) == MMU_DIRECT {
            Ok(vaddr)
        } else {
            let r = isa_mmu_translate(&self.cpu, &self.mem, vaddr, len, t);
            match r {
                Ok(p) => self.traces.trace_mmu(vaddr, p, t, true),
                Err(_) => self.traces.trace_mmu(vaddr, 0, t, false),
            }
            r
        }
    }

    /// Load through translation: the value, or the page-fault cause, in
    /// which case nothing but the traces changed.
    pub fn vaddr_read(&mut self, vaddr: VAddr, len: usize, t: i32) -> (r: Result<Word, Word>)
        requires
            old(self).wf(),
            len <= 8,
        ensures
            final(self).wf(),
            ({
                let a = access_spec(old(self).cpu, old(self).mem, vaddr, len, t);
                &&& a is Err ==> r == Err::<Word, Word>(a->Err_0) && final(self).frame_same(old(self))
                    && final(self).mem == old(self).mem && final(self).devices_same(old(self))
                &&& a is Ok ==> r is Ok && phys_read_post(*old(self), *final(self), a->Ok_0, len, r->Ok_0)
            }),
    {
        match self.translate(vaddr, len, t) {
            Ok(p) => Ok(self.paddr_read(p, len)),
            Err(c) => Err(c),
        }
    }

    /// Store through translation; `Err` holds the page-fault cause and then
    /// nothing but the traces changed.
    pub fn vaddr_write(&mut self, vaddr: VAddr, len: usize, data: Word) -> (r: Result<(), Word>)
        requires
            old(self).wf(),
            len <= 8,
        ensures
            final(self).wf(),
            ({
                let a = access_spec(old(self).cpu, old(self).mem, vaddr, len, 2);
                &&& a is Err ==> r == Err::<(), Word>(a->Err_0) && final(self).frame_same(old(self))
                    && final(self).mem == old(self).mem && final(self).devices_same(old(self))
                &&& a is Ok ==> r is Ok && phys_write_post(*old(self), *final(self), a->Ok_0, len, data)
            }),
    {
        match self.translate(vaddr, len, 2) {
            Ok(p) => {
                self.paddr_write(p, len, data);
                Ok(())
            },
            Err(c) => Err(c),
        }
    }

    /// Instruction fetch of `len` bytes at `vaddr`.
    pub fn vaddr_ifetch(&mut self, vaddr: VAddr, len: usize) -> (r: Result<Word, Word>)
        requires
            old(self).wf(),
            len <= 8,
        ensures
            final(self).wf(),
            ({
                let a = access_spec(old(self).cpu, old(self).mem, vaddr, len, 0);
                &&& a is Err ==> r == Err::<Word, Word>(a->Err_0) && final(self).frame_same(old(self))
                    && final(self).mem == old(self).mem && final(self).devices_same(old(self))
                &&& a is Ok ==> r is Ok && phys_read_post(*old(self), *final(self), a->Ok_0, len, r->Ok_0)
            }),
    {
        self.vaddr_read(vaddr, len, 0)
    }
}

/// Result and device effects of a device read: the addressed device answers
/// as its own function states; the others, the hart, memory and map stay.
pub open spec fn device_read_post(a: Emulator, b: Emulator, kind: DeviceKind, offset: u32, len: usize, r: u32) -> bool {
    &&& b.frame_same(&a)
    &&& b.mem == a.mem
    &&& b.serial == a.serial
    &&& b.vga == a.vga
    &&& b.clint == a.clint
    &&& b.intr == a.intr
    &&& kind != DeviceKind::Keyboard ==> b.keyboard == a.keyboard
    &&& kind == DeviceKind::Plic ==> r == plic_callback_spec(offset, a.intr.bits)
    &&& kind == DeviceKind::Serial ==> r == (if offset == 5 { 0x20u32 } else { 0u32 })
    &&& kind == DeviceKind::Rtc ==> r == (if offset == 0 {
        crate::device::time_word(a.now_us, 0)
    } else if offset == 4 {
        crate::device::time_word(a.now_us, 1)
    } else {
        0
    })
    &&& kind == DeviceKind::AudioCtl || kind == DeviceKind::AudioSbuf || kind == DeviceKind::Disk ==> r == 0
    &&& kind == DeviceKind::Keyboard ==> (if a.keyboard.queue@.len() == 0 {
        r == 0 && b.keyboard.queue@ == a.keyboard.queue@
    } else {
        r == a.keyboard.queue@[0] && b.keyboard.queue@ == a.keyboard.queue@.drop_first()
    })
    &&& kind == DeviceKind::Clint ==> r == (if offset == crate::device::CLINT_MSIP {
        a.clint.msip
    } else if offset == crate::device::CLINT_MTIME {
        crate::device::time_word(a.now_us, 0)
    } else if offset == crate::device::CLINT_MTIME + 4 {
        crate::device::time_word(a.now_us, 1)
    } else if offset == crate::device::CLINT_MTIMECMP {
        (a.clint.mtimecmp & 0xffff_ffff) as u32
    } else if offset == crate::device::CLINT_MTIMECMP + 4 {
        (a.clint.mtimecmp >> 32) as u32
    } else {
        0
    })
    &&& kind == DeviceKind::VgaCtl ==> r == (if offset == crate::device::VGA_CTL_SIZE {
        (a.vga.width << 16) | a.vga.height
    } else if offset == crate::device::VGA_CTL_SYNC {
        a.vga.sync
    } else {
        0
    })
    &&& kind == DeviceKind::Vmem ==> r == (if offset as int + len <= a.vga.vmem@.len() {
        crate::pmem::le_read(a.vga.vmem@, offset as int, len)
    } else {
        0
    })
}

/// Device effects of a device write: the addressed device changes as its own
/// function states; the others, the hart, memory and map stay.
pub open spec fn device_write_post(a: Emulator, b: Emulator, kind: DeviceKind, offset: u32, len: usize, data: u32) -> bool {
    &&& b.frame_same(&a)
    &&& b.mem == a.mem
    &&& b.keyboard == a.keyboard
    &&& b.intr == a.intr
    &&& kind != DeviceKind::Serial ==> b.serial == a.serial
    &&& kind != DeviceKind::Clint ==> b.clint == a.clint
    &&& kind != DeviceKind::VgaCtl && kind != DeviceKind::Vmem ==> b.vga == a.vga
    &&& kind == DeviceKind::Serial ==> b.serial.out@ == (if offset == 0 {
        a.serial.out@.push((data & 0xff) as u8)
    } else {
        a.serial.out@
    })
    &&& kind == DeviceKind::Clint ==> (if offset == crate::device::CLINT_MSIP {
        b.clint.msip == data && b.clint.mtimecmp == a.clint.mtimecmp
    } else if offset == crate::device::CLINT_MTIMECMP {
        b.clint.msip == a.clint.msip && b.clint.mtimecmp == (a.clint.mtimecmp & 0xffff_ffff_0000_0000) | (
        data as u64)
    } else if offset == crate::device::CLINT_MTIMECMP + 4 {
        b.clint.msip == a.clint.msip && b.clint.mtimecmp == (a.clint.mtimecmp & 0xffff_ffff) | ((data as u64)
            << 32)
    } else {
        b.clint == a.clint
    })
    &&& kind == DeviceKind::VgaCtl ==> b.vga.vmem == a.vga.vmem && (if offset == crate::device::VGA_CTL_SYNC
        && data != 0 {
        b.vga.frame_pending && b.vga.sync == 0
    } else {
        b.vga.frame_pending == a.vga.frame_pending && b.vga.sync == a.vga.sync
    })
    &&& kind == DeviceKind::Vmem ==> b.vga.sync == a.vga.sync && b.vga.frame_pending == a.vga.frame_pending
        && b.vga.vmem@ == (if offset as int + len <= a.vga.vmem@.len() {
        le_write(a.vga.vmem@, offset as int, len, data)
    } else {
        a.vga.vmem@
    })
}

/// An MMIO read: the device whose range holds `addr` answers at its offset;
/// where none does the result is 0 and nothing changes.
pub open spec fn mmio_read_post(a: Emulator, b: Emulator, addr: u32, len: usize, r: u32) -> bool {
    &&& forall|i: int|
        0 <= i < a.mmio.maps@.len() && map_covers(#[trigger] a.mmio.maps@[i], addr) ==> device_read_post(
            a,
            b,
            a.mmio.maps@[i].kind,
            (addr - a.mmio.maps@[i].start) as u32,
            len,
            r,
        )
    &&& (forall|i: int| 0 <= i < a.mmio.maps@.len() ==> !map_covers(#[trigger] a.mmio.maps@[i], addr)) ==> r
        == 0 && b.frame_same(&a) && b.mem == a.mem && b.devices_same(&a)
}

/// An MMIO write: the device whose range holds `addr` takes it at its
/// offset; where none does nothing changes.
pub open spec fn mmio_write_post(a: Emulator, b: Emulator, addr: u32, len: usize, data: u32) -> bool {
    &&& forall|i: int|
        0 <= i < a.mmio.maps@.len() && map_covers(#[trigger] a.mmio.maps@[i], addr) ==> device_write_post(
            a,
            b,
            a.mmio.maps@[i].kind,
            (addr - a.mmio.maps@[i].start) as u32,
            len,
            data,
        )
    &&& (forall|i: int| 0 <= i < a.mmio.maps@.len() ==> !map_covers(#[trigger] a.mmio.maps@[i], addr))
        ==> b.frame_same(&a) && b.mem == a.mem && b.devices_same(&a)
}

/// A physical read: from backing memory when a region holds the access
/// (devices untouched), else through MMIO.
pub open spec fn phys_read_post(a: Emulator, b: Emulator, addr: u32, len: usize, r: u32) -> bool {
    if a.mem.region_spec(addr, len) is Some {
        r == a.mem.read_spec(addr, len) && b.frame_same(&a) && b.mem == a.mem && b.devices_same(&a)
    } else {
        mmio_read_post(a, b, addr, len, r)
    }
}

/// A physical write: into backing memory when a region holds the access
/// (devices untouched), else through MMIO (memory untouched).
pub open spec fn phys_write_post(a: Emulator, b: Emulator, addr: u32, len: usize, data: u32) -> bool {
    if a.mem.region_spec(addr, len) is Some {
        crate::pmem::written(a.mem, b.mem, addr, len, data) && b.frame_same(&a) && b.devices_same(&a)
    } else {
        mmio_write_post(a, b, addr, len, data)
    }
}

pub open spec fn plic_callback_spec(offset: u32, bits: u32) -> u32 {
    if offset == crate::device::PLIC_CLAIM && bits & crate::device::SEIP_BIT != 0 {
        crate::device::UART_IRQ
    } else {
        0
    }
}

} // verus!
