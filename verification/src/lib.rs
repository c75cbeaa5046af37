//! Early bring-up logic of a small x86-64 kernel: the text screen, the
//! interrupt vector table, the interrupt handlers' decisions and the keyboard
//! scancode decoder, each with a machine-checked contract.

pub mod gdt;
pub mod interrupts;
pub mod keyboard;
pub mod vga_buffer;

use vstd::prelude::*;

verus! {

/// The port of the emulator's exit device.
pub const EXIT_PORT: u16 = 0xf4;

/// The codes with which a test run leaves the emulator.
#[derive(Debug, Clone, Copy, Eq, PartialEq, Structural)]
pub enum QemuExitCode {
    Success,
    Failure,
}

impl QemuExitCode {
    /// The number that stands for the code on the exit port.
    pub open spec fn value(self) -> u32 {
        match self {
            QemuExitCode::Success => 0x10,
            QemuExitCode::Failure => 0x11,
        }
    }
}

/// A value to write to an I/O port.
#[derive(Debug, Clone, Copy, Eq, PartialEq, Structural)]
pub struct PortWrite {
    pub port: u16,
    pub value: u32,
}

/// The port write that leaves the emulator with the given code.
pub fn exit_qemu(exit_code: QemuExitCode) -> (write: PortWrite)
    ensures
        write == (PortWrite { port: EXIT_PORT, value: exit_code.value() }),
{
    let value: u32 = match exit_code {
        QemuExitCode::Success => 0x10,
        QemuExitCode::Failure => 0x11,
    };
    PortWrite { port: EXIT_PORT, value }
}

/// The tables that are in place once the kernel is initialised.
pub struct BootTables {
    pub stacks: gdt::StackTable,
    pub idt: interrupts::InterruptDescriptorTable,
}

/// Builds the stack table, then the vector table. Every handler that is
/// bound to a stack of its own finds that stack installed.
pub fn init() -> (tables: BootTables)
    ensures
        tables.stacks@ == gdt::boot_stacks(),
        tables.idt@ == interrupts::boot_table(),
        forall|v: int|
            0 <= v < tables.idt@.len() && (#[trigger] tables.idt@[v]) is Some
                && tables.idt@[v]->Some_0.stack_index is Some ==> gdt::installed(
                tables.stacks@,
                tables.idt@[v]->Some_0.stack_index->Some_0 as int,
            ),
{
    let (stacks, _selector) = gdt::init();
    let idt = interrupts::init_idt();
    BootTables { stacks, idt }
}

/// Something that can be run as a test.
pub trait Testable {
    fn run(&self) -> ();
}

/// What a test run has to announce and how it ends.
#[derive(Debug, Clone, Copy, Eq, PartialEq, Structural)]
pub struct TestRun {
    /// Number of tests that were run.
    pub count: usize,
    /// Whether the announcement speaks of "tests" and not of one "test".
    pub plural: bool,
    pub exit_code: QemuExitCode,
}

/// Runs every test, first to last, and ends in success.
pub fn test_runner(tests: &[&dyn Testable]) -> (run: TestRun)
    ensures
        run == (TestRun {
            count: tests@.len() as usize,
            plural: tests@.len() != 1,
            exit_code: QemuExitCode::Success,
        }),
{
    let mut i: usize = 0;
    while i < tests.len()
        invariant
            i <= tests@.len(),
        decreases tests@.len() - i,
    {
        tests[i].run();
        i += 1;
    }
    TestRun { count: tests.len(), plural: tests.len() != 1, exit_code: QemuExitCode::Success }
}

} // verus!
