use my_blog_os::gdt;
use my_blog_os::interrupts::{
    banner, breakpoint_handler, double_fault_handler, init_idt, Continuation, Entry, Handler,
    InterruptDescriptorTable, InterruptIndex, Report, BREAKPOINT_VECTOR, DOUBLE_FAULT_VECTOR,
    KEYBOARD_DATA_PORT, PIC_1_OFFSET, PIC_2_OFFSET, VECTOR_COUNT,
};
use my_blog_os::{exit_qemu, init, test_runner, PortWrite, QemuExitCode, TestRun, Testable};
use std::cell::Cell;

#[test]
fn interrupt_index_values() {
    assert_eq!(PIC_1_OFFSET, 32);
    assert_eq!(PIC_2_OFFSET, 40);
    assert_eq!(InterruptIndex::Timer.as_u8(), 32);
    assert_eq!(InterruptIndex::Keyboard.as_u8(), 33);
    assert_eq!(InterruptIndex::Timer.as_usize(), 32);
    assert_eq!(InterruptIndex::Keyboard.as_usize(), 33);
    assert_eq!(KEYBOARD_DATA_PORT, 0x60);
}

#[test]
fn boot_table_binds_four_vectors() {
    let idt = init_idt();
    let mut bound = 0;
    for vector in 0..VECTOR_COUNT {
        let expected = match vector {
            3 => Some(Entry { handler: Handler::Breakpoint, stack_index: None }),
            8 => Some(Entry { handler: Handler::DoubleFault, stack_index: Some(0) }),
            32 => Some(Entry { handler: Handler::Timer, stack_index: None }),
            33 => Some(Entry { handler: Handler::Keyboard, stack_index: None }),
            _ => None,
        };
        assert_eq!(idt.entry(vector), expected);
        if expected.is_some() {
            bound += 1;
        }
    }
    assert_eq!(bound, 4);
    assert_eq!(idt.entry(256), None);
    assert_eq!(BREAKPOINT_VECTOR, 3);
    assert_eq!(DOUBLE_FAULT_VECTOR, 8);
}

#[test]
fn table_entries_can_be_rebound() {
    let mut idt = InterruptDescriptorTable::new();
    assert_eq!(idt.entry(14), None);
    idt.set_handler_fn(14, Handler::DoubleFault);
    assert_eq!(idt.entry(14), Some(Entry { handler: Handler::DoubleFault, stack_index: None }));
    idt.set_stack_index(14, 2);
    assert_eq!(idt.entry(14), Some(Entry { handler: Handler::DoubleFault, stack_index: Some(2) }));
    idt.set_handler_fn(14, Handler::Timer);
    assert_eq!(idt.entry(14), Some(Entry { handler: Handler::Timer, stack_index: None }));
}

#[test]
fn double_fault_stack_is_installed() {
    let (stacks, selector) = gdt::init();
    assert_eq!(selector, gdt::DOUBLE_FAULT_IST_INDEX);
    assert_eq!(stacks.stack_size(selector), gdt::STACK_SIZE);
    assert_eq!(stacks.stack_size(1), 0);
    assert_eq!(stacks.stack_size(7), 0);

    let tables = init();
    let entry = tables.idt.entry(DOUBLE_FAULT_VECTOR).unwrap();
    assert_eq!(entry.handler, Handler::DoubleFault);
    let index = entry.stack_index.unwrap();
    assert!(tables.stacks.stack_size(index) > 0);
}

#[test]
fn breakpoint_resumes() {
    let service = breakpoint_handler();
    assert_eq!(service.report, Report::Breakpoint);
    assert_eq!(service.end_of_interrupt, None);
    assert_eq!(service.outcome, Continuation::Resume);
    assert_eq!(banner(service.report), "EXCEPTION: BREAKPOINT");
}

#[test]
fn double_fault_halts() {
    let service = double_fault_handler(0);
    assert_eq!(service.report, Report::DoubleFault);
    assert_eq!(service.end_of_interrupt, None);
    assert_eq!(service.outcome, Continuation::Halt);
    assert_eq!(banner(service.report), "EXCEPTION: DOUBLE_FAULT");
}

#[test]
fn banners_of_the_other_reports() {
    assert_eq!(banner(Report::Tick), ".");
    assert_eq!(banner(Report::Nothing), "");
}

#[test]
fn exit_codes_on_the_exit_port() {
    assert_eq!(exit_qemu(QemuExitCode::Success), PortWrite { port: 0xf4, value: 0x10 });
    assert_eq!(exit_qemu(QemuExitCode::Failure), PortWrite { port: 0xf4, value: 0x11 });
}

struct Counting<'a> {
    runs: &'a Cell<u32>,
    order: &'a Cell<u32>,
    digit: u32,
}

impl<'a> Testable for Counting<'a> {
    fn run(&self) {
        self.runs.set(self.runs.get() + 1);
        self.order.set(self.order.get() * 10 + self.digit);
    }
}

#[test]
fn runner_runs_every_test_in_order() {
    let runs = Cell::new(0);
    let order = Cell::new(0);
    let a = Counting { runs: &runs, order: &order, digit: 1 };
    let b = Counting { runs: &runs, order: &order, digit: 2 };
    let c = Counting { runs: &runs, order: &order, digit: 3 };
    let tests: [&dyn Testable; 3] = [&a, &b, &c];
    let run = test_runner(&tests);
    assert_eq!(run, TestRun { count: 3, plural: true, exit_code: QemuExitCode::Success });
    assert_eq!(runs.get(), 3);
    assert_eq!(order.get(), 123);
}

#[test]
fn runner_announces_one_test_in_the_singular() {
    let runs = Cell::new(0);
    let order = Cell::new(0);
    let a = Counting { runs: &runs, order: &order, digit: 7 };
    let tests: [&dyn Testable; 1] = [&a];
    let run = test_runner(&tests);
    assert_eq!(run, TestRun { count: 1, plural: false, exit_code: QemuExitCode::Success });
    assert_eq!(runs.get(), 1);
}

#[test]
fn runner_with_no_tests_succeeds() {
    let tests: [&dyn Testable; 0] = [];
    let run = test_runner(&tests);
    assert_eq!(run, TestRun { count: 0, plural: true, exit_code: QemuExitCode::Success });
}
