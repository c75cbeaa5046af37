//! The interrupt vector table and what each handler decides: what it reports,
//! which interrupt it acknowledges and whether the interrupted code goes on.

use crate::gdt::DOUBLE_FAULT_IST_INDEX;
use crate::keyboard::{
    after_byte, after_event, decoded_of, event_of, key_bits, set1_key, us104_step, DecodedKey,
    KeyEvent, KeyState, KeyboardState, ScancodeDecoder, EXTENDED_KEY_CODE,
};
use vstd::prelude::*;

verus! {

/// First vector of the primary interrupt controller.
pub const PIC_1_OFFSET: u8 = 32;

/// First vector of the secondary interrupt controller.
pub const PIC_2_OFFSET: u8 = PIC_1_OFFSET + 8;

/// Number of vectors that the processor keeps for its own exceptions.
pub const RESERVED_VECTORS: u8 = 32;

/// Number of slots of the vector table.
pub const VECTOR_COUNT: usize = 256;

pub const BREAKPOINT_VECTOR: usize = 3;

pub const DOUBLE_FAULT_VECTOR: usize = 8;

/// The port from which a keyboard interrupt reads its one byte.
pub const KEYBOARD_DATA_PORT: u16 = 0x60;

/// The hardware interrupts that are handled, each on its line of the primary
/// interrupt controller.
#[derive(Debug, Clone, Copy)]
pub enum InterruptIndex {
    Timer,
    Keyboard,
}

impl InterruptIndex {
    /// The line of the interrupt on the primary controller.
    pub open spec fn line(self) -> u8 {
        match self {
            InterruptIndex::Timer => 0,
            InterruptIndex::Keyboard => 1,
        }
    }

    /// The vector of the interrupt: the controller's offset plus the line.
    pub open spec fn vector(self) -> u8 {
        (PIC_1_OFFSET + self.line()) as u8
    }

    pub fn as_u8(self) -> (vector: u8)
        ensures
            vector == self.vector(),
            RESERVED_VECTORS <= vector < PIC_2_OFFSET,
    {
        match self {
            InterruptIndex::Timer => PIC_1_OFFSET,
            InterruptIndex::Keyboard => PIC_1_OFFSET + 1,
        }
    }

    pub fn as_usize(self) -> (vector: usize)
        ensures
            vector == self.vector(),
            RESERVED_VECTORS <= vector < VECTOR_COUNT,
    {
        self.as_u8() as usize
    }
}

/// The handlers that a slot of the table can be bound to.
#[derive(Debug, Clone, Copy, PartialEq, Eq, Structural)]
pub enum Handler {
    Breakpoint,
    DoubleFault,
    Timer,
    Keyboard,
}

/// A bound slot: the handler and, if it runs on a stack of its own, the slot
/// of that stack in the stack table.
#[derive(Debug, Clone, Copy, PartialEq, Eq)]
pub struct Entry {
    pub handler: Handler,
    pub stack_index: Option<u16>,
}

/// The interrupt vector table: 256 slots, each empty or bound.
pub struct InterruptDescriptorTable {
    entries: Vec<Option<Entry>>,
}

impl View for InterruptDescriptorTable {
    type V = Seq<Option<Entry>>;

    closed spec fn view(&self) -> Seq<Option<Entry>> {
        self.entries@
    }
}

/// A slot bound to a handler that runs on the interrupted stack.
pub open spec fn bound(handler: Handler) -> Option<Entry> {
    Some(Entry { handler, stack_index: None })
}

/// The table as it is loaded at boot: breakpoint, double fault on its own
/// stack, timer and keyboard; every other slot empty.
pub open spec fn boot_table() -> Seq<Option<Entry>> {
    Seq::new(
        VECTOR_COUNT as nat,
        |v: int|
            if v == BREAKPOINT_VECTOR {
                bound(Handler::Breakpoint)
            } else if v == DOUBLE_FAULT_VECTOR {
                Some(
                    Entry {
                        handler: Handler::DoubleFault,
                        stack_index: Some(DOUBLE_FAULT_IST_INDEX),
                    },
                )
            } else if v == InterruptIndex::Timer.vector() {
                bound(Handler::Timer)
            } else if v == InterruptIndex::Keyboard.vector() {
                bound(Handler::Keyboard)
            } else {
                None
            },
    )
}

impl InterruptDescriptorTable {
    /// A table with every slot empty.
    pub fn new() -> (table: InterruptDescriptorTable)
        ensures
            table@.len() == VECTOR_COUNT,
            forall|v: int| 0 <= v < VECTOR_COUNT ==> table@[v] is None,
    {
        let mut entries: Vec<Option<Entry>> = Vec::new();
        let mut v: usize = 0;
        while v < VECTOR_COUNT
            invariant
                v <= VECTOR_COUNT,
                entries.len() == v,
                forall|k: int| 0 <= k < v ==> entries@[k] is None,
            decreases VECTOR_COUNT - v,
        {
            entries.push(None);
            v += 1;
        }
        InterruptDescriptorTable { entries }
    }

    /// Binds a slot to a handler that runs on the interrupted stack.
    pub fn set_handler_fn(&mut self, vector: usize, handler: Handler)
        requires
            old(self)@.len() == VECTOR_COUNT,
            vector < VECTOR_COUNT,
        ensures
            final(self)@ == old(self)@.update(vector as int, bound(handler)),
    {
        self.entries.set(vector, Some(Entry { handler, stack_index: None }));
    }

    /// Makes the handler of a bound slot run on the stack of the given slot
    /// of the stack table.
    pub fn set_stack_index(&mut self, vector: usize, index: u16)
        requires
            old(self)@.len() == VECTOR_COUNT,
            vector < VECTOR_COUNT,
            old(self)@[vector as int] is Some,
        ensures
            final(self)@ == old(self)@.update(
                vector as int,
                Some(
                    Entry {
                        handler: old(self)@[vector as int]->Some_0.handler,
                        stack_index: Some(index),
                    },
                ),
            ),
    {
        match self.entries[vector] {
            Some(entry) => {
                self.entries.set(
                    vector,
                    Some(Entry { handler: entry.handler, stack_index: Some(index) }),
                );
            },
            None => {},
        }
    }

    /// The entry of a slot; nothing for an empty slot and for a number that
    /// is no slot.
    pub fn entry(&self, vector: usize) -> (entry: Option<Entry>)
        ensures
            vector < self@.len() ==> entry == self@[vector as int],
            vector >= self@.len() ==> entry is None,
    {
        if vector < self.entries.len() {
            self.entries[vector]
        } else {
            None
        }
    }
}

/// Builds the vector table of this kernel. Loading it into the processor is
/// left to the caller.
pub fn init_idt() -> (idt: InterruptDescriptorTable)
    ensures
        idt@ == boot_table(),
{
    let mut idt = InterruptDescriptorTable::new();
    idt.set_handler_fn(BREAKPOINT_VECTOR, Handler::Breakpoint);
    idt.set_handler_fn(InterruptIndex::Timer.as_usize(), Handler::Timer);
    idt.set_handler_fn(InterruptIndex::Keyboard.as_usize(), Handler::Keyboard);
    idt.set_handler_fn(DOUBLE_FAULT_VECTOR, Handler::DoubleFault);
    idt.set_stack_index(DOUBLE_FAULT_VECTOR, DOUBLE_FAULT_IST_INDEX);
    assert(idt@ =~= boot_table());
    idt
}

/// What goes on once a handler is done.
#[derive(Debug, Clone, Copy, PartialEq, Eq, Structural)]
pub enum Continuation {
    /// The interrupted code goes on.
    Resume,
    /// The machine stops for good.
    Halt,
}

/// What a handler has to say on the diagnostic output.
#[derive(Debug, Clone, Copy, PartialEq, Eq)]
pub enum Report {
    Nothing,
    /// The breakpoint banner and the interrupted context.
    Breakpoint,
    /// The double fault banner and the interrupted context.
    DoubleFault,
    /// One tick of the timer.
    Tick,
    /// A key: its character, or the name of a key that has none.
    Key(DecodedKey),
}

/// What a handler decided. The caller writes the report, then sends the
/// end of interrupt if one is named, then resumes or halts.
#[derive(Debug, Clone, Copy, PartialEq, Eq)]
pub struct Service {
    pub report: Report,
    /// The vector to acknowledge at the interrupt controller, once.
    pub end_of_interrupt: Option<u8>,
    pub outcome: Continuation,
}

/// The banner of a report, for those that have one.
pub fn banner(report: Report) -> (text: &'static str)
    ensures
        report is Breakpoint ==> text@ == "EXCEPTION: BREAKPOINT"@,
        report is DoubleFault ==> text@ == "EXCEPTION: DOUBLE_FAULT"@,
        report is Tick ==> text@ == "."@,
        report is Nothing || report is Key ==> text@ == ""@,
{
    match report {
        Report::Breakpoint => "EXCEPTION: BREAKPOINT",
        Report::DoubleFault => "EXCEPTION: DOUBLE_FAULT",
        Report::Tick => ".",
        _ => "",
    }
}

/// A breakpoint is reported and the interrupted code goes on. It comes from
/// the processor, so no controller is acknowledged.
pub fn breakpoint_handler() -> (service: Service)
    ensures
        service == (Service {
            report: Report::Breakpoint,
            end_of_interrupt: None,
            outcome: Continuation::Resume,
        }),
{
    Service { report: Report::Breakpoint, end_of_interrupt: None, outcome: Continuation::Resume }
}

/// A double fault is reported and the machine halts.
pub fn double_fault_handler(_error_code: u64) -> (service: Service)
    ensures
        service == (Service {
            report: Report::DoubleFault,
            end_of_interrupt: None,
            outcome: Continuation::Halt,
        }),
{
    Service { report: Report::DoubleFault, end_of_interrupt: None, outcome: Continuation::Halt }
}

/// What the timer handler decides: one tick, the timer interrupt
/// acknowledged, the interrupted code resumed.
pub open spec fn timer_service() -> Service {
    Service {
        report: Report::Tick,
        end_of_interrupt: Some(InterruptIndex::Timer.vector()),
        outcome: Continuation::Resume,
    }
}

/// The timer ticks, its interrupt is acknowledged and the interrupted code
/// goes on.
pub fn timer_interrupt_handler() -> (service: Service)
    ensures
        service == timer_service(),
{
    Service {
        report: Report::Tick,
        end_of_interrupt: Some(InterruptIndex::Timer.as_u8()),
        outcome: Continuation::Resume,
    }
}

/// What the keyboard handler reports for a byte in a given decoder state:
/// the decoded key if the byte completes a key press that decodes to one,
/// nothing otherwise.
pub open spec fn keyboard_report(state: KeyboardState, scancode: u8) -> Report {
    match event_of(state, scancode) {
        Some(event) => match decoded_of(after_byte(state, scancode), event) {
            Some(key) => Report::Key(key),
            None => Report::Nothing,
        },
        None => Report::Nothing,
    }
}

/// The decoder state after the keyboard handler has taken a byte.
pub open spec fn keyboard_next(state: KeyboardState, scancode: u8) -> KeyboardState {
    match event_of(state, scancode) {
        Some(event) => after_event(after_byte(state, scancode), event),
        None => after_byte(state, scancode),
    }
}

/// What the keyboard handler decides for a byte in a given decoder state:
/// its report, the keyboard interrupt acknowledged, the interrupted code
/// resumed.
pub open spec fn keyboard_service(state: KeyboardState, scancode: u8) -> Service {
    Service {
        report: keyboard_report(state, scancode),
        end_of_interrupt: Some(InterruptIndex::Keyboard.vector()),
        outcome: Continuation::Resume,
    }
}

/// Takes the byte that was read from the keyboard data port, feeds it to the
/// decoder and reports the key it decodes to, if any. Whatever the byte, the
/// keyboard interrupt is acknowledged, once, and the interrupted code goes
/// on.
pub fn keyboard_interrupt_handler(keyboard: &mut ScancodeDecoder, scancode: u8) -> (service:
    Service)
    ensures
        service == keyboard_service(old(keyboard)@, scancode),
        final(keyboard)@ == keyboard_next(old(keyboard)@, scancode),
{
    let mut report = Report::Nothing;
    if let Some(key_event) = keyboard.add_byte(scancode) {
        if let Some(key) = keyboard.process_keyevent(key_event) {
            report = Report::Key(key);
        }
    }
    Service {
        report,
        end_of_interrupt: Some(InterruptIndex::Keyboard.as_u8()),
        outcome: Continuation::Resume,
    }
}

/// The reports of the keyboard handler for a run of bytes, one per byte, in
/// the order of the bytes.
pub open spec fn keyboard_reports(state: KeyboardState, bytes: Seq<u8>) -> Seq<Report>
    decreases bytes.len(),
{
    if bytes.len() == 0 {
        Seq::empty()
    } else {
        keyboard_reports(state, bytes.drop_last()).push(
            keyboard_report(keyboard_state_after(state, bytes.drop_last()), bytes.last()),
        )
    }
}

/// The decoder state after the keyboard handler has taken a run of bytes.
pub open spec fn keyboard_state_after(state: KeyboardState, bytes: Seq<u8>) -> KeyboardState
    decreases bytes.len(),
{
    if bytes.len() == 0 {
        state
    } else {
        keyboard_next(keyboard_state_after(state, bytes.drop_last()), bytes.last())
    }
}

/// A scancode of a printable key: a press, of a key that scancode set 1
/// knows, that decodes to a character whatever modifiers are held.
pub open spec fn printable_scancode(byte: u8) -> bool {
    &&& byte < 0x80
    &&& set1_key(false, byte) is Some
    &&& forall|state: KeyboardState|
        (#[trigger] us104_step(
            state,
            KeyEvent { code: set1_key(false, byte)->Some_0, state: KeyState::Down },
        )).0 matches Some(DecodedKey::Unicode(_))
}

/// The character that a scancode of a printable key decodes to in a state.
pub open spec fn character_of(state: KeyboardState, byte: u8) -> char {
    us104_step(
        state,
        KeyEvent { code: set1_key(false, byte)->Some_0, state: KeyState::Down },
    ).0->Some_0->Unicode_0
}

/// A run of scancodes of printable keys, fed to a decoder that has no byte
/// pending, gives one character per scancode: the character of the first
/// scancode first, and so on. No sequence is left open.
pub proof fn lemma_printable_run(state: KeyboardState, bytes: Seq<u8>)
    requires
        !state.awaiting_extension,
        forall|i: int| 0 <= i < bytes.len() ==> printable_scancode(#[trigger] bytes[i]),
    ensures
        keyboard_reports(state, bytes).len() == bytes.len(),
        !keyboard_state_after(state, bytes).awaiting_extension,
        forall|i: int|
            0 <= i < bytes.len() ==> (#[trigger] keyboard_reports(state, bytes)[i])
                == Report::Key(
                DecodedKey::Unicode(
                    character_of(keyboard_state_after(state, bytes.take(i)), bytes[i]),
                ),
            ),
    decreases bytes.len(),
{
    if bytes.len() > 0 {
        let front = bytes.drop_last();
        let last = bytes.last();
        lemma_printable_run(state, front);
        let before = keyboard_state_after(state, front);
        assert(printable_scancode(bytes[bytes.len() - 1]));
        lemma_printable_step(before, last);
        assert forall|i: int| 0 <= i < bytes.len() implies (#[trigger] keyboard_reports(
            state,
            bytes,
        )[i]) == Report::Key(
            DecodedKey::Unicode(
                character_of(keyboard_state_after(state, bytes.take(i)), bytes[i]),
            ),
        ) by {
            if i < front.len() {
                assert(front.take(i) =~= bytes.take(i));
                assert(keyboard_reports(state, front)[i] == keyboard_reports(state, bytes)[i]);
            } else {
                assert(bytes.take(i) =~= front);
            }
        }
    }
}

/// One scancode of a printable key, taken while no byte is pending, is
/// reported as its character and leaves no byte pending.
pub proof fn lemma_printable_step(state: KeyboardState, byte: u8)
    requires
        !state.awaiting_extension,
        printable_scancode(byte),
    ensures
        keyboard_report(state, byte) == Report::Key(
            DecodedKey::Unicode(character_of(state, byte)),
        ),
        !keyboard_next(state, byte).awaiting_extension,
{
    let event = KeyEvent { code: set1_key(false, byte)->Some_0, state: KeyState::Down };
    assert(event_of(state, byte) == Some(event));
    assert(after_byte(state, byte) == state);
    assert(us104_step(state, event).0 matches Some(DecodedKey::Unicode(_)));
}

/// An extended scancode that arrives as two bytes in two interrupts gives
/// one key event, not two: none after the prefix byte, which leaves the
/// sequence open, and after the second byte, which closes it, the event of
/// the extended key that the byte names, if it names one.
pub proof fn lemma_extended_sequence(state: KeyboardState, second: u8)
    requires
        !state.awaiting_extension,
    ensures
        event_of(state, EXTENDED_KEY_CODE) is None,
        keyboard_report(state, EXTENDED_KEY_CODE) == Report::Nothing,
        keyboard_next(state, EXTENDED_KEY_CODE) == (KeyboardState {
            awaiting_extension: true,
            ..state
        }),
        event_of(keyboard_next(state, EXTENDED_KEY_CODE), second) is Some <==> set1_key(
            true,
            key_bits(second),
        ) is Some,
        set1_key(true, key_bits(second)) is Some ==> event_of(
            keyboard_next(state, EXTENDED_KEY_CODE),
            second,
        ) == Some(
            KeyEvent {
                code: set1_key(true, key_bits(second))->Some_0,
                state: if second >= 0x80 {
                    KeyState::Up
                } else {
                    KeyState::Down
                },
            },
        ),
        !keyboard_next(keyboard_next(state, EXTENDED_KEY_CODE), second).awaiting_extension,
{
}

/// What the handler of a hardware interrupt decides, by the interrupt.
pub open spec fn hardware_service(
    index: InterruptIndex,
    state: KeyboardState,
    scancode: u8,
) -> Service {
    match index {
        InterruptIndex::Timer => timer_service(),
        InterruptIndex::Keyboard => keyboard_service(state, scancode),
    }
}

/// Whatever the interrupt, the decoder state and the byte read: the handler
/// of a hardware interrupt names one vector for acknowledgement, that of its
/// own interrupt, which lies above the vectors of the processor's exceptions
/// and on the primary controller; and the interrupted code goes on.
pub proof fn lemma_end_of_interrupt(index: InterruptIndex, state: KeyboardState, scancode: u8)
    ensures
        hardware_service(index, state, scancode).end_of_interrupt == Some(index.vector()),
        hardware_service(index, state, scancode).outcome == Continuation::Resume,
        RESERVED_VECTORS <= index.vector() < PIC_2_OFFSET,
        index.vector() == PIC_1_OFFSET + index.line(),
{
}

} // verus!
