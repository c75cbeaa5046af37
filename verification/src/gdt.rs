//! The table of alternate stacks. A handler that is bound to one of its slots
//! runs on a stack of its own, so that it still runs when the interrupted
//! stack has overflowed.

use vstd::prelude::*;

verus! {

/// The slot reserved for the double fault handler.
pub const DOUBLE_FAULT_IST_INDEX: u16 = 0;

/// Number of slots that the processor offers.
pub const STACK_SLOTS: usize = 7;

/// Bytes of each stack that is installed.
pub const STACK_SIZE: usize = 20480;

/// The stack table: for each slot the size in bytes of the stack installed
/// there, zero where none is.
pub struct StackTable {
    sizes: Vec<usize>,
}

impl View for StackTable {
    type V = Seq<usize>;

    closed spec fn view(&self) -> Seq<usize> {
        self.sizes@
    }
}

/// Whether a slot of the table holds a stack.
pub open spec fn installed(table: Seq<usize>, index: int) -> bool {
    0 <= index < table.len() && table[index] > 0
}

/// The table as it is at boot: one stack, in the double fault slot.
pub open spec fn boot_stacks() -> Seq<usize> {
    Seq::new(
        STACK_SLOTS as nat,
        |i: int|
            if i == DOUBLE_FAULT_IST_INDEX {
                STACK_SIZE
            } else {
                0usize
            },
    )
}

impl StackTable {
    /// The size of the stack in a slot, zero where none is installed.
    pub fn stack_size(&self, index: u16) -> (size: usize)
        ensures
            0 <= index < self@.len() ==> size == self@[index as int],
            index >= self@.len() ==> size == 0,
    {
        if (index as usize) < self.sizes.len() {
            self.sizes[index as usize]
        } else {
            0
        }
    }
}

/// Builds the stack table and returns it with the selector of the double
/// fault stack.
pub fn init() -> (tables: (StackTable, u16))
    ensures
        tables.0@ == boot_stacks(),
        tables.1 == DOUBLE_FAULT_IST_INDEX,
        installed(tables.0@, tables.1 as int),
{
    let mut sizes: Vec<usize> = Vec::new();
    let mut slot: usize = 0;
    while slot < STACK_SLOTS
        invariant
            slot <= STACK_SLOTS,
            sizes.len() == slot,
            forall|i: int| 0 <= i < slot ==> sizes@[i] == 0,
        decreases STACK_SLOTS - slot,
    {
        sizes.push(0);
        slot += 1;
    }
    sizes.set(DOUBLE_FAULT_IST_INDEX as usize, STACK_SIZE);
    assert(sizes@ =~= boot_stacks());
    (StackTable { sizes }, DOUBLE_FAULT_IST_INDEX)
}

} // verus!
