use vstd::prelude::*;

verus! {

/// Size in bytes of the stack reserved for the double-fault handler.
pub const DOUBLE_FAULT_STACK_SIZE: u64 = 4096 * 5;

/// Alignment that the x86_64 ABI asks of a stack top.
pub const STACK_ALIGN: u64 = 16;

/// The stack top that the task state segment gives the double-fault handler
/// for a stack whose lowest byte is at `stack_start`: its end, rounded down
/// to 16 bytes. `None` if the stack would run past the address space.
pub fn double_fault_stack_top(stack_start: u64) -> (r: Option<u64>)
    ensures
        stack_start + DOUBLE_FAULT_STACK_SIZE <= u64::MAX ==> r == Some(
            ((stack_start + DOUBLE_FAULT_STACK_SIZE) - (stack_start + DOUBLE_FAULT_STACK_SIZE)
                % 16) as u64,
        ),
        stack_start + DOUBLE_FAULT_STACK_SIZE > u64::MAX ==> r is None,
        r matches Some(top) ==> top % 16 == 0 && stack_start < top <= stack_start
            + DOUBLE_FAULT_STACK_SIZE,
{
    if stack_start > u64::MAX - DOUBLE_FAULT_STACK_SIZE {
        return None;
    }
    let end = stack_start + DOUBLE_FAULT_STACK_SIZE;
    Some(end - end % STACK_ALIGN)
}

} // verus!
