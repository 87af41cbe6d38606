use vstd::prelude::*;

verus! {

/// The bring-up steps, in the order they must run. The heap comes right
/// after memory, before any step that may allocate.
#[derive(Debug, Clone, Copy, PartialEq, Eq, Structural)]
pub enum BootStep {
    /// Take over the active page table and the memory map.
    InitMemory,
    /// Map and hand over the kernel heap.
    InitHeap,
    /// Load the descriptor table, reload the segment registers, load the task state segment.
    LoadDescriptorTables,
    /// Load the interrupt dispatch table.
    LoadDispatchTable,
    /// Parse the firmware's ACPI tables.
    ParseAcpi,
    /// Map, calibrate and enable the Local APIC.
    BringUpLocalApic,
    /// Map the I/O APIC, set its vector base, unmask the keyboard line.
    BringUpIoApic,
    /// Enable interrupts on the CPU.
    EnableInterrupts,
}

/// Number of bring-up steps.
pub const BOOT_STEPS: u8 = 8;

/// The step at position `i` of the bring-up order.
pub open spec fn step_at(i: int) -> BootStep {
    if i == 0 {
        BootStep::InitMemory
    } else if i == 1 {
        BootStep::InitHeap
    } else if i == 2 {
        BootStep::LoadDescriptorTables
    } else if i == 3 {
        BootStep::LoadDispatchTable
    } else if i == 4 {
        BootStep::ParseAcpi
    } else if i == 5 {
        BootStep::BringUpLocalApic
    } else if i == 6 {
        BootStep::BringUpIoApic
    } else {
        BootStep::EnableInterrupts
    }
}

/// What became of the step that ran last.
#[derive(Debug, Clone, Copy, PartialEq, Eq, Structural)]
pub enum StepResult {
    Succeeded,
    Failed,
}

/// What the boot code is to do next.
#[derive(Debug, Clone, Copy, PartialEq, Eq, Structural)]
pub enum BootAction {
    /// Run this step and report its result.
    Run(BootStep),
    /// A step failed: the kernel is unsafe to run, stop booting.
    Abort,
    /// Every step succeeded: idle, waiting for interrupts.
    Idle,
}

/// Progress of the bring-up: how many steps succeeded, and whether one failed.
pub ghost struct BootProgress {
    pub completed: nat,
    pub failed: bool,
}

/// Progress after one more result.
pub open spec fn advance(p: BootProgress, r: StepResult) -> BootProgress {
    if p.failed || p.completed >= BOOT_STEPS {
        p
    } else if r == StepResult::Succeeded {
        BootProgress { completed: p.completed + 1, failed: false }
    } else {
        BootProgress { completed: p.completed, failed: true }
    }
}

/// Progress after the given results, reported one by one from the start.
pub open spec fn progress_after(results: Seq<StepResult>) -> BootProgress
    decreases results.len(),
{
    if results.len() == 0 {
        BootProgress { completed: 0, failed: false }
    } else {
        advance(progress_after(results.drop_last()), results.last())
    }
}

/// The action that a state of progress calls for.
pub open spec fn action_for(p: BootProgress) -> BootAction {
    if p.failed {
        BootAction::Abort
    } else if p.completed < BOOT_STEPS {
        BootAction::Run(step_at(p.completed as int))
    } else {
        BootAction::Idle
    }
}

/// The bring-up order as a state machine: it names the next step, takes the
/// step's result, and aborts for good at the first failure.
pub struct BootSequence {
    completed: u8,
    failed: bool,
}

impl BootSequence {
    pub closed spec fn view(&self) -> BootProgress {
        BootProgress { completed: self.completed as nat, failed: self.failed }
    }

    pub closed spec fn wf(&self) -> bool {
        self.completed <= BOOT_STEPS
    }

    /// Nothing has run yet.
    pub fn new() -> (s: Self)
        ensures
            s.wf(),
            s.view() == progress_after(Seq::empty()),
    {
        BootSequence { completed: 0, failed: false }
    }

    /// The step at a position of the bring-up order.
    fn step(i: u8) -> (r: BootStep)
        ensures
            r == step_at(i as int),
    {
        match i {
            0 => BootStep::InitMemory,
            1 => BootStep::InitHeap,
            2 => BootStep::LoadDescriptorTables,
            3 => BootStep::LoadDispatchTable,
            4 => BootStep::ParseAcpi,
            5 => BootStep::BringUpLocalApic,
            6 => BootStep::BringUpIoApic,
            _ => BootStep::EnableInterrupts,
        }
    }

    /// What to do now.
    pub fn next_action(&self) -> (r: BootAction)
        requires
            self.wf(),
        ensures
            r == action_for(self.view()),
    {
        if self.failed {
            BootAction::Abort
        } else if self.completed < BOOT_STEPS {
            BootAction::Run(Self::step(self.completed))
        } else {
            BootAction::Idle
        }
    }

    /// Takes the result of the step that ran and says what to do next.
    pub fn report(&mut self, result: StepResult) -> (r: BootAction)
        requires
            old(self).wf(),
        ensures
            final(self).wf(),
            final(self).view() == advance(old(self).view(), result),
            r == action_for(final(self).view()),
    {
        if !self.failed && self.completed < BOOT_STEPS {
            match result {
                StepResult::Succeeded => {
                    self.completed = self.completed + 1;
                },
                StepResult::Failed => {
                    self.failed = true;
                },
            }
        }
        self.next_action()
    }
}

/// Without a failure, progress counts the results up to the number of steps,
/// and all of those succeeded; if all results succeeded, there is no failure.
proof fn lemma_progress_shape(results: Seq<StepResult>)
    ensures
        !progress_after(results).failed ==> progress_after(results).completed == (if results.len()
            < BOOT_STEPS {
            results.len()
        } else {
            BOOT_STEPS as nat
        }) && forall|i: int|
            0 <= i < progress_after(results).completed ==> results[i] == StepResult::Succeeded,
        (forall|i: int| 0 <= i < results.len() ==> results[i] == StepResult::Succeeded)
            ==> !progress_after(results).failed,
    decreases results.len(),
{
    if results.len() > 0 {
        let init = results.drop_last();
        lemma_progress_shape(init);
        assert forall|i: int| 0 <= i < init.len() implies init[i] == results[i] by {}
        if forall|i: int| 0 <= i < results.len() ==> results[i] == StepResult::Succeeded {
            assert(results[results.len() - 1] == StepResult::Succeeded);
        }
    }
}

/// Interrupts are enabled only after every other step has run and
/// succeeded, in order: the sequence asks for the last step exactly when
/// the seven steps before it all reported success.
pub proof fn lemma_interrupts_enabled_last(results: Seq<StepResult>)
    ensures
        action_for(progress_after(results)) == BootAction::Run(BootStep::EnableInterrupts) <==> (
        results.len() == 7 && forall|i: int| 0 <= i < 7 ==> results[i] == StepResult::Succeeded),
{
    lemma_progress_shape(results);
    let p = progress_after(results);
    if action_for(p) == BootAction::Run(BootStep::EnableInterrupts) {
        assert(!p.failed && p.completed < BOOT_STEPS);
        assert(p.completed == 7);
    }
}

/// Steps run strictly in order: the sequence asks for the step at position
/// `n` only once the `n` steps before it have all reported success. In
/// particular every step after the heap runs with the heap in place.
pub proof fn lemma_steps_run_in_order(results: Seq<StepResult>, step: BootStep)
    requires
        action_for(progress_after(results)) == BootAction::Run(step),
    ensures
        results.len() < BOOT_STEPS,
        step == step_at(results.len() as int),
        forall|i: int| 0 <= i < results.len() ==> results[i] == StepResult::Succeeded,
{
    lemma_progress_shape(results);
}

/// A failure is final: whatever is reported after it, the sequence aborts.
pub proof fn lemma_failure_is_final(results: Seq<StepResult>, more: Seq<StepResult>)
    requires
        progress_after(results).failed,
    ensures
        progress_after(results + more).failed,
        action_for(progress_after(results + more)) == BootAction::Abort,
    decreases more.len(),
{
    if more.len() > 0 {
        lemma_failure_is_final(results, more.drop_last());
        assert((results + more).drop_last() =~= results + more.drop_last());
    } else {
        assert(results + more =~= results);
    }
}

} // verus!
