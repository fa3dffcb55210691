//! Layout facts of the task state segment that the GDT points at.
use vstd::prelude::*;

verus! {

/// Slot of the interrupt stack table that holds the double-fault stack.
pub const DOUBLE_FAULT_IST_INDEX: u16 = 0;

/// Size in bytes of the stack reserved for the double-fault handler (five
/// pages).
pub const DOUBLE_FAULT_STACK_SIZE: usize = 4096 * 5;

} // verus!
