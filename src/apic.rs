use vstd::prelude::*;
use crate::idt::{APIC_ERROR_VECTOR, KEYBOARD_VECTOR, SPURIOUS_VECTOR, TIMER_VECTOR};

verus! {

/// Local APIC base used when the firmware describes no APIC interrupt model.
pub const LOCAL_APIC_FALLBACK_BASE: u64 = 0xFEE0_0000;

/// I/O APIC base used when the firmware describes no APIC interrupt model.
pub const IO_APIC_FALLBACK_BASE: u64 = 0xFEC0_0000;

/// The I/O APIC maps its line 0 to this vector, line `n` to this plus `n`.
pub const IO_APIC_VECTOR_BASE: u8 = 0x23;

/// I/O APIC line of the PS/2 keyboard.
pub const KEYBOARD_IRQ: u8 = 1;

/// PIT reload value for a 10 ms one-shot countdown at 1.193182 MHz.
pub const PIT_RELOAD_10MS: u16 = 11931;

/// Legacy PIC data ports, PIT ports.
pub const PIC1_DATA_PORT: u16 = 0x21;
pub const PIC2_DATA_PORT: u16 = 0xA1;
pub const PIT_CHANNEL0_PORT: u16 = 0x40;
pub const PIT_COMMAND_PORT: u16 = 0x43;

/// PIT command: channel 0, low byte then high byte, mode 0 (one-shot).
pub const PIT_ONE_SHOT_COMMAND: u8 = 0x30;

/// PIT command: latch the channel 0 count for reading.
pub const PIT_LATCH_COMMAND: u8 = 0x00;

/// Local APIC register offsets from its base.
pub const LVT_TIMER_REGISTER: u32 = 0x320;
pub const TIMER_INITIAL_COUNT_REGISTER: u32 = 0x380;
pub const TIMER_CURRENT_COUNT_REGISTER: u32 = 0x390;
pub const TIMER_DIVIDE_REGISTER: u32 = 0x3E0;

/// Divide-configuration value that divides the APIC timer clock by 16.
pub const TIMER_DIVIDE_BY_16: u32 = 0x3;

/// LVT timer value that masks the timer interrupt.
pub const LVT_MASKED: u32 = 0x10000;

/// One I/O APIC that the firmware describes.
#[derive(Debug, Clone, Copy, PartialEq, Eq, Structural)]
pub struct IoApicInfo {
    pub id: u8,
    pub address: u32,
    pub global_system_interrupt_base: u32,
}

/// The interrupt model that the ACPI tables describe.
#[derive(Debug)]
pub enum InterruptModel {
    /// No model that the kernel knows.
    Unknown,
    /// A Local APIC with zero or more I/O APICs.
    Apic { local_apic_address: u64, io_apics: Vec<IoApicInfo> },
}

/// Physical base of the Local APIC: the one the firmware gives, else the
/// architectural default.
pub fn local_apic_base(model: &InterruptModel) -> (r: u64)
    ensures
        model matches InterruptModel::Apic { local_apic_address, .. } ==> r == local_apic_address,
        model is Unknown ==> r == LOCAL_APIC_FALLBACK_BASE,
{
    match model {
        InterruptModel::Apic { local_apic_address, .. } => *local_apic_address,
        InterruptModel::Unknown => LOCAL_APIC_FALLBACK_BASE,
    }
}

/// Physical base of the I/O APIC to use: the first one the firmware lists,
/// else the architectural default. An APIC model that lists no I/O APIC
/// gives `None`, and bring-up cannot go on.
pub fn io_apic_base(model: &InterruptModel) -> (r: Option<u64>)
    ensures
        model matches InterruptModel::Apic { io_apics, .. } ==> (if io_apics@.len() > 0 {
            r == Some(io_apics@[0].address as u64)
        } else {
            r is None
        }),
        model is Unknown ==> r == Some(IO_APIC_FALLBACK_BASE),
{
    match model {
        InterruptModel::Apic { io_apics, .. } => {
            if io_apics.len() > 0 {
                Some(io_apics[0].address as u64)
            } else {
                None
            }
        },
        InterruptModel::Unknown => Some(IO_APIC_FALLBACK_BASE),
    }
}

/// One write to the hardware during timer calibration.
#[derive(Debug, Clone, Copy, PartialEq, Eq, Structural)]
pub enum HardwareWrite {
    /// A byte to a legacy I/O port.
    Port { port: u16, byte: u8 },
    /// A 32-bit value to a Local APIC register, by offset from its base.
    Register { offset: u32, value: u32 },
}

/// The writes that start a calibration run, in the order they must happen:
/// mask both legacy PICs, divide the APIC timer clock by 16, arm the PIT for a
/// 10 ms one-shot countdown, then start the APIC timer at its largest count.
pub open spec fn calibration_setup_spec() -> Seq<HardwareWrite> {
    seq![
        HardwareWrite::Port { port: PIC2_DATA_PORT, byte: 0xFF },
        HardwareWrite::Port { port: PIC1_DATA_PORT, byte: 0xFF },
        HardwareWrite::Register { offset: TIMER_DIVIDE_REGISTER, value: TIMER_DIVIDE_BY_16 },
        HardwareWrite::Port { port: PIT_COMMAND_PORT, byte: PIT_ONE_SHOT_COMMAND },
        HardwareWrite::Port { port: PIT_CHANNEL0_PORT, byte: (PIT_RELOAD_10MS % 256) as u8 },
        HardwareWrite::Port { port: PIT_CHANNEL0_PORT, byte: (PIT_RELOAD_10MS / 256) as u8 },
        HardwareWrite::Register { offset: TIMER_INITIAL_COUNT_REGISTER, value: u32::MAX },
    ]
}

/// The low and high byte of a PIT reload value, in the order the PIT takes them.
pub fn reload_bytes(reload: u16) -> (r: (u8, u8))
    ensures
        r.0 == reload % 256,
        r.1 == reload / 256,
{
    ((reload % 256) as u8, (reload / 256) as u8)
}

/// The writes that start a calibration run (see `calibration_setup_spec`).
pub fn calibration_setup() -> (r: Vec<HardwareWrite>)
    ensures
        r@ == calibration_setup_spec(),
{
    let (low, high) = reload_bytes(PIT_RELOAD_10MS);
    let r = vec![
        HardwareWrite::Port { port: PIC2_DATA_PORT, byte: 0xFF },
        HardwareWrite::Port { port: PIC1_DATA_PORT, byte: 0xFF },
        HardwareWrite::Register { offset: TIMER_DIVIDE_REGISTER, value: TIMER_DIVIDE_BY_16 },
        HardwareWrite::Port { port: PIT_COMMAND_PORT, byte: PIT_ONE_SHOT_COMMAND },
        HardwareWrite::Port { port: PIT_CHANNEL0_PORT, byte: low },
        HardwareWrite::Port { port: PIT_CHANNEL0_PORT, byte: high },
        HardwareWrite::Register { offset: TIMER_INITIAL_COUNT_REGISTER, value: u32::MAX },
    ];
    assert(r@ =~= calibration_setup_spec());
    r
}

/// The write that ends a calibration run: mask the APIC timer interrupt.
pub fn calibration_stop() -> (r: HardwareWrite)
    ensures
        r == (HardwareWrite::Register { offset: LVT_TIMER_REGISTER, value: LVT_MASKED }),
{
    HardwareWrite::Register { offset: LVT_TIMER_REGISTER, value: LVT_MASKED }
}

/// The PIT count latched as a low and a high byte.
pub fn pit_count(low: u8, high: u8) -> (r: u16)
    ensures
        r == high * 256 + low,
{
    (high as u16) * 256 + (low as u16)
}

/// Whether the PIT countdown whose latched bytes are `low`, `high` has run out.
pub fn pit_countdown_done(low: u8, high: u8) -> (r: bool)
    ensures
        r <==> low == 0 && high == 0,
{
    pit_count(low, high) == 0
}

/// The APIC timer ticks that elapsed during the calibration window: the timer
/// started at the largest count and `remaining` is what it reads at the end.
pub fn calibrated_initial_count(remaining: u32) -> (r: u32)
    ensures
        r == u32::MAX - remaining,
{
    u32::MAX - remaining
}

/// Mode of the APIC timer.
#[derive(Debug, Clone, Copy, PartialEq, Eq, Structural)]
pub enum TimerMode {
    OneShot,
    Periodic,
}

/// Everything the Local APIC is built with.
#[derive(Debug, Clone, Copy, PartialEq, Eq, Structural)]
pub struct LocalApicConfig {
    pub timer_vector: u8,
    pub spurious_vector: u8,
    pub error_vector: u8,
    pub timer_mode: TimerMode,
    /// The divide-configuration value of the timer, the one used to calibrate.
    pub timer_divide: u32,
    /// Reload value of the periodic timer: the ticks of one 10 ms window.
    pub timer_initial: u32,
    pub xapic_base: u64,
}

/// The Local APIC configuration: the kernel's timer, spurious and error
/// vectors, a periodic timer with the calibration divider, reloaded with the
/// measured ticks so that it fires every 10 ms.
pub fn local_apic_config(apic_base: u64, ticks: u32) -> (r: LocalApicConfig)
    ensures
        r == (LocalApicConfig {
            timer_vector: TIMER_VECTOR,
            spurious_vector: SPURIOUS_VECTOR,
            error_vector: APIC_ERROR_VECTOR,
            timer_mode: TimerMode::Periodic,
            timer_divide: TIMER_DIVIDE_BY_16,
            timer_initial: ticks,
            xapic_base: apic_base,
        }),
{
    LocalApicConfig {
        timer_vector: TIMER_VECTOR,
        spurious_vector: SPURIOUS_VECTOR,
        error_vector: APIC_ERROR_VECTOR,
        timer_mode: TimerMode::Periodic,
        timer_divide: TIMER_DIVIDE_BY_16,
        timer_initial: ticks,
        xapic_base: apic_base,
    }
}

/// Which I/O APIC lines are unmasked and where they are delivered. Lines
/// are only ever unmasked, never masked again.
pub struct IoApicRouting {
    vector_base: u8,
    enabled: Vec<u8>,
}

impl IoApicRouting {
    /// The vector that line 0 is delivered to.
    pub closed spec fn base(&self) -> u8 {
        self.vector_base
    }

    /// The unmasked lines, in the order they were unmasked.
    pub closed spec fn enabled_lines(&self) -> Seq<u8> {
        self.enabled@
    }

    /// No line is recorded twice.
    pub closed spec fn wf(&self) -> bool {
        self.enabled@.no_duplicates()
    }

    /// Routing with every line masked and line 0 delivered to `vector_base`.
    pub fn new(vector_base: u8) -> (s: Self)
        ensures
            s.wf(),
            s.base() == vector_base,
            s.enabled_lines() == Seq::<u8>::empty(),
    {
        IoApicRouting { vector_base, enabled: Vec::new() }
    }

    /// The vector that line 0 is delivered to.
    pub fn vector_base(&self) -> (r: u8)
        ensures
            r == self.base(),
    {
        self.vector_base
    }

    /// The unmasked lines, in the order they were unmasked.
    pub fn enabled(&self) -> (r: Vec<u8>)
        ensures
            r@ == self.enabled_lines(),
    {
        let mut r: Vec<u8> = Vec::new();
        let mut i: usize = 0;
        while i < self.enabled.len()
            invariant
                i <= self.enabled@.len(),
                r@ == self.enabled@.subrange(0, i as int),
            decreases self.enabled@.len() - i,
        {
            r.push(self.enabled[i]);
            i = i + 1;
            assert(r@ =~= self.enabled@.subrange(0, i as int));
        }
        assert(self.enabled@.subrange(0, i as int) =~= self.enabled@);
        r
    }

    /// Whether `irq` is unmasked.
    pub fn is_enabled(&self, irq: u8) -> (r: bool)
        ensures
            r == self.enabled_lines().contains(irq),
    {
        let mut i: usize = 0;
        while i < self.enabled.len()
            invariant
                i <= self.enabled@.len(),
                forall|j: int| 0 <= j < i ==> self.enabled@[j] != irq,
            decreases self.enabled@.len() - i,
        {
            if self.enabled[i] == irq {
                return true;
            }
            i = i + 1;
        }
        false
    }

    /// Unmasks `irq`. Returns whether it was masked before, that is whether
    /// the hardware needs to be told.
    pub fn enable_irq(&mut self, irq: u8) -> (r: bool)
        requires
            old(self).wf(),
        ensures
            final(self).wf(),
            final(self).base() == old(self).base(),
            r == !old(self).enabled_lines().contains(irq),
            final(self).enabled_lines() == (if r {
                old(self).enabled_lines().push(irq)
            } else {
                old(self).enabled_lines()
            }),
    {
        if self.is_enabled(irq) {
            return false;
        }
        self.enabled.push(irq);
        true
    }

    /// The vector that `irq` is delivered to, if it is below 256.
    pub fn vector_of(&self, irq: u8) -> (r: Option<u8>)
        ensures
            self.base() + irq < 256 ==> r == Some((self.base() + irq) as u8),
            self.base() + irq >= 256 ==> r is None,
    {
        if irq > 255 - self.vector_base {
            None
        } else {
            Some(self.vector_base + irq)
        }
    }
}

/// Unmasking only ever adds lines: every line that was unmasked before a
/// call of `enable_irq` is unmasked after it, and so is the new one.
pub proof fn lemma_unmask_is_one_way(before: Seq<u8>, irq: u8)
    ensures
        forall|line: u8|
            before.contains(line) ==> (if before.contains(irq) {
                before
            } else {
                before.push(irq)
            }).contains(line),
        (if before.contains(irq) {
            before
        } else {
            before.push(irq)
        }).contains(irq),
{
    let after = before.push(irq);
    assert forall|line: u8| before.contains(line) implies after.contains(line) by {
        let j = choose|j: int| 0 <= j < before.len() && before[j] == line;
        assert(after[j] == line);
    }
    assert(after[after.len() - 1] == irq);
}

/// The kernel's I/O APIC routing: line 0 at the vector after the APIC
/// error vector, and the keyboard line unmasked, so that a key press arrives
/// at the keyboard vector.
pub fn io_apic_routing() -> (r: IoApicRouting)
    ensures
        r.wf(),
        r.base() == IO_APIC_VECTOR_BASE,
        r.enabled_lines() == seq![KEYBOARD_IRQ],
        r.base() + KEYBOARD_IRQ == KEYBOARD_VECTOR,
{
    let mut r = IoApicRouting::new(IO_APIC_VECTOR_BASE);
    r.enable_irq(KEYBOARD_IRQ);
    r
}

} // verus!
