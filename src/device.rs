use vstd::prelude::*;
use std::collections::VecDeque;
use crate::common::Word;
use crate::pmem::{le_read, le_write};

verus! {

/// The devices that MMIO ranges can be routed to.
#[derive(Debug, Clone, Copy, PartialEq, Eq, Structural)]
pub enum DeviceKind {
    Serial,
    Rtc,
    Keyboard,
    VgaCtl,
    Vmem,
    AudioCtl,
    AudioSbuf,
    Disk,
    Clint,
    Plic,
}

pub const CLINT_MSIP: u32 = 0x0000;

pub const CLINT_MTIMECMP: u32 = 0x4000;

pub const CLINT_MTIME: u32 = 0xbff8;

pub const PLIC_CLAIM: u32 = 0x20_1004;

pub const UART_IRQ: u32 = 10;

pub const SEIP_BIT: u32 = 1 << 9;

pub const VGA_WIDTH: u32 = 400;

pub const VGA_HEIGHT: u32 = 300;

pub const VGA_CTL_SIZE: u32 = 0;

pub const VGA_CTL_SYNC: u32 = 4;

pub const KEYDOWN_MASK: u32 = 0x8000;

/// Name under which a device is registered and traced.
pub open spec fn device_name_spec(k: DeviceKind) -> Seq<char> {
    match k {
        DeviceKind::Serial => "serial"@,
        DeviceKind::Rtc => "rtc"@,
        DeviceKind::Keyboard => "i8042"@,
        DeviceKind::VgaCtl => "vga_ctl"@,
        DeviceKind::Vmem => "vmem"@,
        DeviceKind::AudioCtl => "audio"@,
        DeviceKind::AudioSbuf => "audio-sbuf"@,
        DeviceKind::Disk => "disk"@,
        DeviceKind::Clint => "clint"@,
        DeviceKind::Plic => "plic"@,
    }
}

pub fn device_name(k: DeviceKind) -> (r: &'static str)
    ensures
        r@ == device_name_spec(k),
{
    match k {
        DeviceKind::Serial => "serial",
        DeviceKind::Rtc => "rtc",
        DeviceKind::Keyboard => "i8042",
        DeviceKind::VgaCtl => "vga_ctl",
        DeviceKind::Vmem => "vmem",
        DeviceKind::AudioCtl => "audio",
        DeviceKind::AudioSbuf => "audio-sbuf",
        DeviceKind::Disk => "disk",
        DeviceKind::Clint => "clint",
        DeviceKind::Plic => "plic",
    }
}

/// Low (`idx == 0`) or high word of the microsecond clock.
pub open spec fn time_word(us: u64, idx: usize) -> u32 {
    if idx == 0 {
        (us & 0xffff_ffff) as u32
    } else {
        (us >> 32) as u32
    }
}

pub fn get_time_u32(us: u64, idx: usize) -> (r: u32)
    ensures
        r == time_word(us, idx),
{
    if idx == 0 {
        (us & 0xffff_ffff) as u32
    } else {
        (us >> 32) as u32
    }
}

/// RTC: two read-only words, microseconds since reset (low, high).
pub fn rtc_callback(offset: u32, is_write: bool, now_us: u64) -> (r: Word)
    ensures
        r == (if !is_write && offset == 0 {
            time_word(now_us, 0)
        } else if !is_write && offset == 4 {
            time_word(now_us, 1)
        } else {
            0
        }),
{
    if is_write {
        0
    } else if offset == 0 {
        get_time_u32(now_us, 0)
    } else if offset == 4 {
        get_time_u32(now_us, 1)
    } else {
        0
    }
}

/// Core-local interruptor: software-interrupt word and timer compare.
pub struct Clint {
    pub mtimecmp: u64,
    pub msip: u32,
}

/// MIP bits that the CLINT drives: MTIP when the clock reached MTIMECMP,
/// MSIP when bit 0 of the MSIP word is set.
pub open spec fn clint_mip(c: Clint, now_us: u64) -> u32 {
    (if now_us >= c.mtimecmp { 0x80u32 } else { 0u32 }) | (if c.msip & 1 != 0 { 0x8u32 } else { 0u32 })
}

impl Clint {
    pub fn new() -> (r: Self)
        ensures
            r.mtimecmp == 0 && r.msip == 0,
    {
        Clint { mtimecmp: 0, msip: 0 }
    }

    pub fn get_mip_status(&self, now_us: u64) -> (r: Word)
        ensures
            r == clint_mip(*self, now_us),
    {
        let mtip: u32 = if now_us >= self.mtimecmp { 0x80 } else { 0 };
        let msip: u32 = if self.msip & 1 != 0 { 0x8 } else { 0 };
        mtip | msip
    }

    /// Register access at `offset` into the CLINT window.
    pub fn clint_callback(&mut self, offset: u32, is_write: bool, data: Word, now_us: u64) -> (r: Word)
        ensures
            is_write ==> r == 0,
            is_write && offset == CLINT_MSIP ==> final(self).msip == data && final(self).mtimecmp
                == old(self).mtimecmp,
            is_write && offset == CLINT_MTIMECMP ==> final(self).msip == old(self).msip
                && final(self).mtimecmp == (old(self).mtimecmp & 0xffff_ffff_0000_0000) | (data as u64),
            is_write && offset == CLINT_MTIMECMP + 4 ==> final(self).msip == old(self).msip
                && final(self).mtimecmp == (old(self).mtimecmp & 0xffff_ffff) | ((data as u64) << 32),
            is_write && offset != CLINT_MSIP && offset != CLINT_MTIMECMP && offset != CLINT_MTIMECMP + 4
                ==> *final(self) == *old(self),
            !is_write ==> *final(self) == *old(self),
            !is_write ==> r == (if offset == CLINT_MSIP {
                old(self).msip
            } else if offset == CLINT_MTIME {
                time_word(now_us, 0)
            } else if offset == CLINT_MTIME + 4 {
                time_word(now_us, 1)
            } else if offset == CLINT_MTIMECMP {
                (old(self).mtimecmp & 0xffff_ffff) as u32
            } else if offset == CLINT_MTIMECMP + 4 {
                (old(self).mtimecmp >> 32) as u32
            } else {
                0
            }),
    {
        if is_write {
            if offset == CLINT_MSIP {
                self.msip = data;
            } else if offset == CLINT_MTIMECMP {
                self.mtimecmp = (self.mtimecmp & 0xffff_ffff_0000_0000) | (data as u64);
            } else if offset == CLINT_MTIMECMP + 4 {
                self.mtimecmp = (self.mtimecmp & 0xffff_ffff) | ((data as u64) << 32);
            }
            0
        } else if offset == CLINT_MSIP {
            self.msip
        } else if offset == CLINT_MTIME {
            get_time_u32(now_us, 0)
        } else if offset == CLINT_MTIME + 4 {
            get_time_u32(now_us, 1)
        } else if offset == CLINT_MTIMECMP {
            (self.mtimecmp & 0xffff_ffff) as u32
        } else if offset == CLINT_MTIMECMP + 4 {
            (self.mtimecmp >> 32) as u32
        } else {
            0
        }
    }
}

/// External interrupt lines raised by devices (bit 9: SEIP).
pub struct IntrState {
    pub bits: u32,
}

impl IntrState {
    pub fn new() -> (r: Self)
        ensures
            r.bits == 0,
    {
        IntrState { bits: 0 }
    }

    pub fn set_seip(&mut self, val: bool)
        ensures
            final(self).bits == (if val {
                old(self).bits | SEIP_BIT
            } else {
                old(self).bits & !SEIP_BIT
            }),
    {
        if val {
            self.bits = self.bits | SEIP_BIT;
        } else {
            self.bits = self.bits & !SEIP_BIT;
        }
    }

    pub fn get_intr_state(&self) -> (r: u32)
        ensures
            r == self.bits,
    {
        self.bits
    }
}

/// PLIC: the claim register yields the UART interrupt id while SEIP is up.
pub fn plic_callback(offset: u32, is_write: bool, intr_bits: u32) -> (r: Word)
    ensures
        r == (if !is_write && offset == PLIC_CLAIM && intr_bits & SEIP_BIT != 0 {
            UART_IRQ
        } else {
            0
        }),
{
    if !is_write && offset == PLIC_CLAIM && intr_bits & SEIP_BIT != 0 {
        UART_IRQ
    } else {
        0
    }
}

/// UART: byte 0 transmits, byte 5 reports the transmitter empty.
pub struct SerialDevice {
    pub out: Vec<u8>,
}

impl SerialDevice {
    pub fn new() -> (r: Self)
        ensures
            r.out@.len() == 0,
    {
        SerialDevice { out: Vec::new() }
    }

    pub fn read(&self, offset: u32) -> (r: Word)
        ensures
            r == (if offset == 5 { 0x20u32 } else { 0u32 }),
    {
        if offset == 5 {
            0x20
        } else {
            0
        }
    }

    /// A write to byte 0 queues its low byte for output.
    pub fn write(&mut self, offset: u32, data: Word)
        ensures
            final(self).out@ == (if offset == 0 {
                old(self).out@.push((data & 0xff) as u8)
            } else {
                old(self).out@
            }),
    {
        if offset == 0 {
            self.out.push((data & 0xff) as u8);
        }
    }

    /// Hands out the queued output and empties the queue.
    pub fn take_output(&mut self) -> (r: Vec<u8>)
        ensures
            r@ == old(self).out@,
            final(self).out@.len() == 0,
    {
        let mut empty = Vec::new();
        std::mem::swap(&mut empty, &mut self.out);
        empty
    }
}

/// Keyboard: a queue of key codes, bit 15 set on key-down.
pub struct Keyboard {
    pub queue: VecDeque<u32>,
}

impl Keyboard {
    pub fn new() -> (r: Self)
        ensures
            r.queue@.len() == 0,
    {
        Keyboard { queue: VecDeque::new() }
    }

    pub fn send_key(&mut self, scancode: u32, is_keydown: bool)
        ensures
            final(self).queue@ == old(self).queue@.push(
                if is_keydown { scancode | KEYDOWN_MASK } else { scancode },
            ),
    {
        let code = if is_keydown { scancode | KEYDOWN_MASK } else { scancode };
        self.queue.push_back(code);
    }

    /// A read takes the oldest key code, or 0 when none is queued.
    pub fn i8042_callback(&mut self, is_write: bool) -> (r: Word)
        ensures
            is_write ==> r == 0 && *final(self) == *old(self),
            !is_write && old(self).queue@.len() == 0 ==> r == 0 && final(self).queue@ == old(
                self).queue@,
            !is_write && old(self).queue@.len() > 0 ==> r == old(self).queue@[0]
                && final(self).queue@ == old(self).queue@.drop_first(),
    {
        if is_write {
            0
        } else {
            match self.queue.pop_front() {
                Some(k) => k,
                None => 0,
            }
        }
    }
}

/// Display controller and its framebuffer.
pub struct VgaState {
    pub width: u32,
    pub height: u32,
    pub sync: u32,
    pub vmem: Vec<u8>,
    pub frame_pending: bool,
}

impl VgaState {
    pub open spec fn wf(&self) -> bool {
        self.vmem@.len() == self.width * self.height * 4 && self.width == VGA_WIDTH
            && self.height == VGA_HEIGHT
    }

    /// A 400x300 screen filled with opaque purple.
    pub fn new() -> (r: Self)
        ensures
            r.wf(),
            !r.frame_pending,
            r.sync == 0,
    {
        let n: usize = (VGA_WIDTH * VGA_HEIGHT) as usize;
        let mut vmem: Vec<u8> = Vec::new();
        let mut i: usize = 0;
        while i < n
            invariant
                i <= n,
                n == VGA_WIDTH * VGA_HEIGHT,
                vmem@.len() == 4 * i,
            decreases n - i,
        {
            vmem.push(0xAA);
            vmem.push(0x00);
            vmem.push(0xAA);
            vmem.push(0xFF);
            i = i + 1;
        }
        VgaState { width: VGA_WIDTH, height: VGA_HEIGHT, sync: 0, vmem, frame_pending: false }
    }

    /// Framebuffer access; bytes beyond the screen read 0 and ignore writes.
    pub fn vmem_callback(&mut self, offset: u32, len: usize, is_write: bool, data: Word) -> (r: Word)
        requires
            old(self).wf(),
            len <= 8,
        ensures
            final(self).wf(),
            final(self).width == old(self).width && final(self).height == old(self).height,
            final(self).sync == old(self).sync,
            final(self).frame_pending == old(self).frame_pending,
            is_write ==> r == 0,
            !is_write ==> *final(self) == *old(self),
            is_write && offset as int + len <= old(self).vmem@.len() ==> final(self).vmem@
                == le_write(old(self).vmem@, offset as int, len, data),
            !(is_write && offset as int + len <= old(self).vmem@.len()) ==> final(self).vmem@
                == old(self).vmem@,
            !is_write ==> r == (if offset as int + len <= old(self).vmem@.len() {
                le_read(old(self).vmem@, offset as int, len)
            } else {
                0
            }),
    {
        let n = self.vmem.len();
        if (offset as usize) > n || len > n - offset as usize {
            return 0;
        }
        let off = offset as usize;
        if is_write {
            if len == 1 {
                self.vmem.set(off, (data & 0xff) as u8);
            } else if len == 2 {
                self.vmem.set(off, (data & 0xff) as u8);
                self.vmem.set(off + 1, ((data >> 8) & 0xff) as u8);
            } else if len == 4 {
                self.vmem.set(off, (data & 0xff) as u8);
                self.vmem.set(off + 1, ((data >> 8) & 0xff) as u8);
                self.vmem.set(off + 2, ((data >> 16) & 0xff) as u8);
                self.vmem.set(off + 3, ((data >> 24) & 0xff) as u8);
            }
            0
        } else if len == 1 {
            self.vmem[off] as u32
        } else if len == 2 {
            (self.vmem[off] as u32) | ((self.vmem[off + 1] as u32) << 8)
        } else if len == 4 {
            (self.vmem[off] as u32) | ((self.vmem[off + 1] as u32) << 8) | ((self.vmem[off + 2] as u32)
                << 16) | ((self.vmem[off + 3] as u32) << 24)
        } else {
            0
        }
    }

    /// Control registers: offset 0 reads `(width << 16) | height`; a
    /// non-zero write to offset 4 requests a frame.
    pub fn vga_ctl_callback(&mut self, offset: u32, is_write: bool, data: Word) -> (r: Word)
        requires
            old(self).wf(),
        ensures
            final(self).wf(),
            final(self).vmem == old(self).vmem,
            is_write ==> r == 0,
            !is_write ==> *final(self) == *old(self),
            is_write && offset == VGA_CTL_SYNC && data != 0 ==> final(self).frame_pending
                && final(self).sync == 0,
            !(is_write && offset == VGA_CTL_SYNC && data != 0) ==> final(self).frame_pending == old(
                self).frame_pending && final(self).sync == old(self).sync,
            !is_write ==> r == (if offset == VGA_CTL_SIZE {
                (old(self).width << 16) | old(self).height
            } else if offset == VGA_CTL_SYNC {
                old(self).sync
            } else {
                0
            }),
    {
        if is_write {
            if offset == VGA_CTL_SYNC && data != 0 {
                self.frame_pending = true;
                self.sync = 0;
            }
            0
        } else if offset == VGA_CTL_SIZE {
            (self.width << 16) | self.height
        } else if offset == VGA_CTL_SYNC {
            self.sync
        } else {
            0
        }
    }

    /// Reports whether a frame was requested since the last call, and clears it.
    pub fn take_frame_request(&mut self) -> (r: bool)
        ensures
            r == old(self).frame_pending,
            !final(self).frame_pending,
            final(self).vmem == old(self).vmem,
            final(self).width == old(self).width,
            final(self).height == old(self).height,
            final(self).sync == old(self).sync,
    {
        let r = self.frame_pending;
        self.frame_pending = false;
        r
    }
}

/// Audio controller: reserved, reads 0.
pub fn audio_ctl_callback(offset: u32, is_write: bool, data: Word) -> (r: Word)
    ensures
        r == 0,
{
    0
}

/// Audio stream buffer: reserved, reads 0.
pub fn audio_sbuf_callback(offset: u32, is_write: bool, data: Word) -> (r: Word)
    ensures
        r == 0,
{
    0
}

/// Disk controller: reserved, reads 0.
pub fn disk_callback(offset: u32, is_write: bool, data: Word) -> (r: Word)
    ensures
        r == 0,
{
    0
}

} // verus!
