use vstd::prelude::*;

verus! {

/// Interrupt-stack-table slot of the stack reserved for double faults.
pub const DOUBLE_FAULT_IST_INDEX: u16 = 0;

/// Architectural exception vectors that the kernel handles.
pub const NMI_VECTOR: u8 = 2;
pub const BREAKPOINT_VECTOR: u8 = 3;
pub const DOUBLE_FAULT_VECTOR: u8 = 8;
pub const GENERAL_PROTECTION_VECTOR: u8 = 13;
pub const PAGE_FAULT_VECTOR: u8 = 14;

/// Vectors of the external interrupts that the kernel handles.
pub const TIMER_VECTOR: u8 = 0x20;
pub const SPURIOUS_VECTOR: u8 = 0x21;
pub const APIC_ERROR_VECTOR: u8 = 0x22;
pub const KEYBOARD_VECTOR: u8 = 0x24;

/// Number of vectors, and so of entries, in the dispatch table.
pub const VECTOR_COUNT: usize = 256;

/// The handlers that a entry can be bound to.
#[derive(Debug, Clone, Copy, PartialEq, Eq, Structural)]
pub enum Handler {
    DoubleFault,
    Breakpoint,
    PageFault,
    GeneralProtection,
    NonMaskable,
    Timer,
    Spurious,
    ApicError,
    Keyboard,
}

/// A bound entry: its handler and, where the handler needs a known-good
/// stack, the interrupt-stack-table slot that the CPU switches to.
#[derive(Debug, Clone, Copy, PartialEq, Eq, Structural)]
pub struct IdtEntry {
    pub handler: Handler,
    pub stack_index: Option<u16>,
}

/// How control continues after a vector has been raised.
#[derive(Debug, Clone, Copy, PartialEq, Eq, Structural)]
pub enum Outcome {
    /// Log and return to the interrupted instruction stream.
    Resume,
    /// Signal end-of-interrupt to the Local APIC, then return.
    AcknowledgeAndResume,
    /// Log and halt the CPU for good.
    Halt,
}

/// The entry that the kernel binds to each vector; `None` leaves it unbound.
pub open spec fn standard_entry(vector: int) -> Option<IdtEntry> {
    if vector == DOUBLE_FAULT_VECTOR {
        Some(IdtEntry { handler: Handler::DoubleFault, stack_index: Some(DOUBLE_FAULT_IST_INDEX) })
    } else if vector == BREAKPOINT_VECTOR {
        Some(IdtEntry { handler: Handler::Breakpoint, stack_index: None })
    } else if vector == PAGE_FAULT_VECTOR {
        Some(IdtEntry { handler: Handler::PageFault, stack_index: None })
    } else if vector == NMI_VECTOR {
        Some(IdtEntry { handler: Handler::NonMaskable, stack_index: None })
    } else if vector == GENERAL_PROTECTION_VECTOR {
        Some(IdtEntry { handler: Handler::GeneralProtection, stack_index: None })
    } else if vector == TIMER_VECTOR {
        Some(IdtEntry { handler: Handler::Timer, stack_index: None })
    } else if vector == SPURIOUS_VECTOR {
        Some(IdtEntry { handler: Handler::Spurious, stack_index: None })
    } else if vector == APIC_ERROR_VECTOR {
        Some(IdtEntry { handler: Handler::ApicError, stack_index: None })
    } else if vector == KEYBOARD_VECTOR {
        Some(IdtEntry { handler: Handler::Keyboard, stack_index: None })
    } else {
        None
    }
}

/// How each handler ends: faults that leave kernel state untrusted halt,
/// breakpoint and NMI resume, and external interrupts acknowledge first.
pub open spec fn handler_outcome(h: Handler) -> Outcome {
    match h {
        Handler::DoubleFault | Handler::PageFault | Handler::GeneralProtection => Outcome::Halt,
        Handler::Breakpoint | Handler::NonMaskable => Outcome::Resume,
        Handler::Timer | Handler::Spurious | Handler::ApicError | Handler::Keyboard => {
            Outcome::AcknowledgeAndResume
        },
    }
}

/// The outcome of a vector under a entry; an unbound vector is an unhandled
/// fault.
pub open spec fn entry_outcome(g: Option<IdtEntry>) -> Outcome {
    match g {
        Some(entry) => handler_outcome(entry.handler),
        None => Outcome::Halt,
    }
}

/// How a handler ends.
pub fn outcome_of(h: Handler) -> (r: Outcome)
    ensures
        r == handler_outcome(h),
{
    match h {
        Handler::DoubleFault | Handler::PageFault | Handler::GeneralProtection => Outcome::Halt,
        Handler::Breakpoint | Handler::NonMaskable => Outcome::Resume,
        Handler::Timer | Handler::Spurious | Handler::ApicError | Handler::Keyboard => {
            Outcome::AcknowledgeAndResume
        },
    }
}

/// The entry bound to one vector.
fn entry_for(vector: u8) -> (r: Option<IdtEntry>)
    ensures
        r == standard_entry(vector as int),
{
    match vector {
        DOUBLE_FAULT_VECTOR => Some(
            IdtEntry { handler: Handler::DoubleFault, stack_index: Some(DOUBLE_FAULT_IST_INDEX) },
        ),
        BREAKPOINT_VECTOR => Some(IdtEntry { handler: Handler::Breakpoint, stack_index: None }),
        PAGE_FAULT_VECTOR => Some(IdtEntry { handler: Handler::PageFault, stack_index: None }),
        NMI_VECTOR => Some(IdtEntry { handler: Handler::NonMaskable, stack_index: None }),
        GENERAL_PROTECTION_VECTOR => Some(
            IdtEntry { handler: Handler::GeneralProtection, stack_index: None },
        ),
        TIMER_VECTOR => Some(IdtEntry { handler: Handler::Timer, stack_index: None }),
        SPURIOUS_VECTOR => Some(IdtEntry { handler: Handler::Spurious, stack_index: None }),
        APIC_ERROR_VECTOR => Some(IdtEntry { handler: Handler::ApicError, stack_index: None }),
        KEYBOARD_VECTOR => Some(IdtEntry { handler: Handler::Keyboard, stack_index: None }),
        _ => None,
    }
}

/// The interrupt dispatch table: one entry, bound or not, per vector. It is
/// built once and offers no way to change it afterwards.
pub struct DispatchTable {
    entries: [Option<IdtEntry>; VECTOR_COUNT],
}

impl DispatchTable {
    /// The entries, indexed by vector.
    pub closed spec fn entries(&self) -> Seq<Option<IdtEntry>> {
        self.entries@
    }

    /// The entry of one vector.
    pub fn entry(&self, vector: u8) -> (r: Option<IdtEntry>)
        ensures
            r == self.entries()[vector as int],
    {
        self.entries[vector as usize]
    }

    /// How control continues when `vector` is raised.
    pub fn dispatch(&self, vector: u8) -> (r: Outcome)
        ensures
            r == entry_outcome(self.entries()[vector as int]),
    {
        match self.entries[vector as usize] {
            Some(g) => outcome_of(g.handler),
            None => Outcome::Halt,
        }
    }
}

/// Builds the kernel's dispatch table: the double fault on its own stack,
/// breakpoint, page fault, general protection and NMI at their architectural
/// vectors, and the timer, spurious, APIC-error and keyboard interrupts at
/// theirs. Every other vector stays unbound. Every external vector that is
/// bound acknowledges the interrupt before returning, and no exception does.
/// Only the double fault runs on an interrupt-stack-table stack, so that
/// stack is used for nothing else.
pub fn init_idt() -> (t: DispatchTable)
    ensures
        t.entries().len() == VECTOR_COUNT,
        forall|v: int| 0 <= v < VECTOR_COUNT ==> #[trigger] t.entries()[v] == standard_entry(v),
        forall|v: int|
            32 <= v < VECTOR_COUNT && (#[trigger] t.entries()[v]) is Some ==> entry_outcome(t.entries()[v])
                == Outcome::AcknowledgeAndResume,
        forall|v: int|
            0 <= v < 32 ==> entry_outcome(#[trigger] t.entries()[v]) != Outcome::AcknowledgeAndResume,
        forall|v: int|
            0 <= v < VECTOR_COUNT && (#[trigger] t.entries()[v]) is Some && t.entries()[v].unwrap().stack_index
                is Some ==> v == DOUBLE_FAULT_VECTOR && t.entries()[v].unwrap().stack_index == Some(
                DOUBLE_FAULT_IST_INDEX,
            ),
{
    let mut entries: [Option<IdtEntry>; VECTOR_COUNT] = [None; VECTOR_COUNT];
    let mut v: usize = 0;
    while v < VECTOR_COUNT
        invariant
            v <= VECTOR_COUNT,
            entries@.len() == VECTOR_COUNT,
            forall|i: int| 0 <= i < v ==> #[trigger] entries@[i] == standard_entry(i),
        decreases VECTOR_COUNT - v,
    {
        entries[v] = entry_for(v as u8);
        v = v + 1;
    }
    DispatchTable { entries }
}

} // verus!
