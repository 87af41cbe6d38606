use vstd::prelude::*;

verus! {

/// Lowest address of the upper canonical half of the virtual address space.
pub const UPPER_HALF_START: u64 = 0xFFFF_8000_0000_0000;

/// One past the highest address of the lower canonical half.
pub const LOWER_HALF_END: u64 = 0x8000_0000_0000;

/// An address is canonical when bits 47 to 63 are all equal.
pub open spec fn is_canonical(addr: int) -> bool {
    (0 <= addr < LOWER_HALF_END) || (UPPER_HALF_START <= addr <= u64::MAX)
}

/// Reaches the firmware's ACPI tables through the kernel's mapping of all
/// physical memory at a fixed offset; nothing is mapped or unmapped per table.
#[derive(Debug, Clone, Copy, PartialEq, Eq, Structural)]
pub struct KernelAcpiHandler {
    phys_to_virt_offset: u64,
}

impl KernelAcpiHandler {
    /// The offset at which physical memory is mapped.
    pub closed spec fn offset(&self) -> u64 {
        self.phys_to_virt_offset
    }

    /// A handler for physical memory mapped at `phys_to_virt_offset`.
    pub fn new(phys_to_virt_offset: u64) -> (s: Self)
        ensures
            s.offset() == phys_to_virt_offset,
    {
        KernelAcpiHandler { phys_to_virt_offset }
    }

    /// The virtual address at which the physical address `physical_address`
    /// can be read: the two added, if the sum is a canonical 64-bit address.
    pub fn virtual_address(&self, physical_address: u64) -> (r: Option<u64>)
        ensures
            is_canonical(physical_address + self.offset()) ==> r == Some(
                (physical_address + self.offset()) as u64,
            ),
            !is_canonical(physical_address + self.offset()) ==> r is None,
    {
        if physical_address > u64::MAX - self.phys_to_virt_offset {
            return None;
        }
        let v = physical_address + self.phys_to_virt_offset;
        if v < LOWER_HALF_END || v >= UPPER_HALF_START {
            Some(v)
        } else {
            None
        }
    }
}

/// The sleep-type field of PM1 control for the S5 (soft-off) state.
pub const SLP_TYP_S5: u16 = 5 << 10;

/// The sleep-enable bit of PM1 control.
pub const SLP_EN: u16 = 1 << 13;

/// What the Fixed ACPI Description Table says about entering soft-off.
#[derive(Debug, Clone, Copy, PartialEq, Eq, Structural)]
pub struct FadtPowerInfo {
    pub smi_cmd_port: u32,
    pub acpi_enable: u8,
    pub pm1a_control_block: u64,
    pub pm1b_control_block: Option<u64>,
}

/// One write to a legacy I/O port.
#[derive(Debug, Clone, Copy, PartialEq, Eq, Structural)]
pub enum PortWrite {
    Byte { port: u16, byte: u8 },
    Word { port: u16, word: u16 },
}

/// The port writes that switch the machine off: hand ACPI control to the OS
/// where the firmware asks for it, then write S5 with sleep-enable to each
/// PM1 control block that is present.
pub open spec fn shutdown_writes_spec(f: FadtPowerInfo) -> Seq<PortWrite> {
    let enable = if f.smi_cmd_port > 0 && f.acpi_enable > 0 {
        seq![PortWrite::Byte { port: f.smi_cmd_port as u16, byte: f.acpi_enable }]
    } else {
        Seq::empty()
    };
    let pm1a = if f.pm1a_control_block > 0 {
        seq![PortWrite::Word { port: f.pm1a_control_block as u16, word: (SLP_TYP_S5 | SLP_EN) as u16 }]
    } else {
        Seq::empty()
    };
    let pm1b = match f.pm1b_control_block {
        Some(b) => if b > 0 {
            seq![PortWrite::Word { port: b as u16, word: (SLP_TYP_S5 | SLP_EN) as u16 }]
        } else {
            Seq::empty()
        },
        None => Seq::empty(),
    };
    enable + pm1a + pm1b
}

/// The port writes that switch the machine off (see `shutdown_writes_spec`).
pub fn acpi_shutdown(fadt: &FadtPowerInfo) -> (r: Vec<PortWrite>)
    ensures
        r@ == shutdown_writes_spec(*fadt),
{
    let sleep: u16 = SLP_TYP_S5 | SLP_EN;
    let mut r: Vec<PortWrite> = Vec::new();
    if fadt.smi_cmd_port > 0 && fadt.acpi_enable > 0 {
        r.push(PortWrite::Byte { port: fadt.smi_cmd_port as u16, byte: fadt.acpi_enable });
    }
    if fadt.pm1a_control_block > 0 {
        r.push(PortWrite::Word { port: fadt.pm1a_control_block as u16, word: sleep });
    }
    if let Some(b) = fadt.pm1b_control_block {
        if b > 0 {
            r.push(PortWrite::Word { port: b as u16, word: sleep });
        }
    }
    assert(r@ =~= shutdown_writes_spec(*fadt));
    r
}

} // verus!
