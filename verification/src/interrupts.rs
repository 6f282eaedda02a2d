//! The trap-vector table and its handler routines.
//!
//! The table maps each architectural exception vector to an optional
//! handler routine. It is built once at startup, a small fixed set of
//! slots is populated, and it is then loaded exactly once; after the
//! load no slot ever changes. The platform layer performs the privileged
//! architectural bind; this module owns the table's contents and the
//! diagnostic text the handlers emit.

use crate::console::Console;
use crate::vga_buffer::{write_seq, Writer};
use vstd::prelude::*;
use vstd::string::StringExecFns;
use vstd::utf8::encode_utf8;

verus! {

/// Vector number of the divide-by-zero fault.
pub const DIVIDE_ERROR_VECTOR: u8 = 0;

/// Vector number of the breakpoint trap.
pub const BREAKPOINT_VECTOR: u8 = 3;

/// Number of slots of the architectural vector space.
pub const VECTOR_COUNT: usize = 256;

/// The handler routines this kernel registers.
///
/// Only the breakpoint trap is a debugging stop that safely resumes at
/// the next instruction. A divide-by-zero fault is not inherently
/// resumable, so its slot gets a routine of its own that only reports;
/// what recovery an arithmetic fault should get beyond that is left an
/// explicit open decision, and the two slots are configured
/// independently rather than sharing one routine.
#[derive(Debug, Clone, Copy, PartialEq, Eq, Structural)]
pub enum HandlerRoutine {
    BreakpointReport,
    DivideErrorReport,
}

/// The execution context the processor pushes automatically when a trap
/// fires, as plain values.
#[derive(Debug, Clone, Copy, PartialEq, Eq, Structural)]
pub struct TrapFrame {
    pub instruction_pointer: u64,
    pub code_segment: u64,
    pub cpu_flags: u64,
    pub stack_pointer: u64,
    pub stack_segment: u64,
}

/// The trap-vector table: one slot per vector of the architectural
/// range, a handler routine in a populated slot. Once loaded it is
/// immutable: every mutating operation demands an unloaded table.
pub struct TrapVectorTable {
    slots: Vec<Option<HandlerRoutine>>,
    loaded: bool,
}

impl TrapVectorTable {
    /// The table's slots, one per vector.
    pub closed spec fn spec_slots(self) -> Seq<Option<HandlerRoutine>> {
        self.slots@
    }

    /// Whether the table has been loaded into the processor.
    pub closed spec fn spec_loaded(self) -> bool {
        self.loaded
    }

    /// Well-formedness: the table covers the whole vector space.
    pub open spec fn wf(self) -> bool {
        self.spec_slots().len() == VECTOR_COUNT as int
    }

    /// An empty table: every slot unpopulated, not yet loaded.
    pub fn new() -> (t: TrapVectorTable)
        ensures
            t.wf(),
            !t.spec_loaded(),
            forall|v: int| 0 <= v < VECTOR_COUNT as int ==> t.spec_slots()[v] is None,
    {
        let mut slots: Vec<Option<HandlerRoutine>> = Vec::new();
        let mut k: usize = 0;
        while k < VECTOR_COUNT
            invariant
                k <= VECTOR_COUNT,
                slots@.len() == k as int,
                forall|v: int| 0 <= v < k as int ==> slots@[v] is None,
            decreases VECTOR_COUNT - k,
        {
            slots.push(None);
            k = k + 1;
        }
        TrapVectorTable { slots, loaded: false }
    }

    /// Populates one vector's slot. Only an unloaded table can be
    /// changed.
    pub fn set_handler(&mut self, vector: u8, routine: HandlerRoutine)
        requires
            old(self).wf(),
            !old(self).spec_loaded(),
        ensures
            final(self).wf(),
            !final(self).spec_loaded(),
            final(self).spec_slots() == old(self).spec_slots().update(
                vector as int,
                Some(routine),
            ),
    {
        self.slots[vector as usize] = Some(routine);
    }

    /// The routine bound to a vector, if its slot is populated.
    pub fn handler_for(&self, vector: u8) -> (r: Option<HandlerRoutine>)
        requires
            self.wf(),
        ensures
            r == self.spec_slots()[vector as int],
    {
        self.slots[vector as usize]
    }

    /// Marks the table loaded: from here on it is read-only for the
    /// life of the process. The privileged instruction that binds the
    /// table into the processor belongs to the platform layer; this
    /// records the one-time, irreversible transition the table makes.
    pub fn load(&mut self)
        requires
            old(self).wf(),
            !old(self).spec_loaded(),
        ensures
            final(self).wf(),
            final(self).spec_loaded(),
            final(self).spec_slots() == old(self).spec_slots(),
    {
        self.loaded = true;
    }
}

/// Builds and loads the default trap-vector table: the breakpoint trap
/// and the divide-by-zero fault each bound to their own reporting
/// routine, every other slot left unpopulated.
pub fn init_idt() -> (t: TrapVectorTable)
    ensures
        t.wf(),
        t.spec_loaded(),
        t.spec_slots()[BREAKPOINT_VECTOR as int] == Some(HandlerRoutine::BreakpointReport),
        t.spec_slots()[DIVIDE_ERROR_VECTOR as int] == Some(HandlerRoutine::DivideErrorReport),
        forall|v: int|
            0 <= v < VECTOR_COUNT as int && v != BREAKPOINT_VECTOR as int && v
                != DIVIDE_ERROR_VECTOR as int ==> t.spec_slots()[v] is None,
{
    let mut t = TrapVectorTable::new();
    t.set_handler(BREAKPOINT_VECTOR, HandlerRoutine::BreakpointReport);
    t.set_handler(DIVIDE_ERROR_VECTOR, HandlerRoutine::DivideErrorReport);
    t.load();
    t
}

/// The lower-case hex digit for a value below sixteen.
pub open spec fn hex_digit(d: u8) -> char {
    match d {
        0 => '0',
        1 => '1',
        2 => '2',
        3 => '3',
        4 => '4',
        5 => '5',
        6 => '6',
        7 => '7',
        8 => '8',
        9 => '9',
        10 => 'a',
        11 => 'b',
        12 => 'c',
        13 => 'd',
        14 => 'e',
        15 => 'f',
        _ => '0',
    }
}

/// The last `digits` lower-case hex digits of a value, most significant
/// first.
pub open spec fn hex_seq(x: nat, digits: nat) -> Seq<char>
    decreases digits,
{
    if digits == 0 {
        Seq::<char>::empty()
    } else {
        hex_seq(x / 16, (digits - 1) as nat).push(hex_digit((x % 16) as u8))
    }
}

/// The one-character string for a hex digit.
fn hex_char_str(d: u8) -> (s: &'static str)
    requires
        d < 16,
    ensures
        s@.len() == 1,
        s@[0] == hex_digit(d),
{
    proof {
        reveal_strlit("0");
        reveal_strlit("1");
        reveal_strlit("2");
        reveal_strlit("3");
        reveal_strlit("4");
        reveal_strlit("5");
        reveal_strlit("6");
        reveal_strlit("7");
        reveal_strlit("8");
        reveal_strlit("9");
        reveal_strlit("a");
        reveal_strlit("b");
        reveal_strlit("c");
        reveal_strlit("d");
        reveal_strlit("e");
        reveal_strlit("f");
    }
    match d {
        0 => "0",
        1 => "1",
        2 => "2",
        3 => "3",
        4 => "4",
        5 => "5",
        6 => "6",
        7 => "7",
        8 => "8",
        9 => "9",
        10 => "a",
        11 => "b",
        12 => "c",
        13 => "d",
        14 => "e",
        _ => "f",
    }
}

/// The fixed-width hex rendering of a value: sixteen digits, zero
/// padded, most significant first.
fn hex_string(x: u64, digits: usize) -> (s: String)
    ensures
        s@ == hex_seq(x as nat, digits as nat),
    decreases digits,
{
    if digits == 0 {
        let s = String::new();
        proof {
            assert(s@ =~= hex_seq(x as nat, 0));
        }
        s
    } else {
        let mut s = hex_string(x / 16, digits - 1);
        s.append(hex_char_str((x % 16) as u8));
        proof {
            assert(s@ =~= hex_seq(x as nat, digits as nat));
        }
        s
    }
}

/// The rendering of a trap frame: one labelled, zero-padded hex line per
/// captured register.
pub open spec fn spec_frame_lines(f: TrapFrame) -> Seq<char> {
    "instruction_pointer: 0x"@ + hex_seq(f.instruction_pointer as nat, 16) + "\n"@
        + "code_segment: 0x"@ + hex_seq(f.code_segment as nat, 16) + "\n"@ + "cpu_flags: 0x"@
        + hex_seq(f.cpu_flags as nat, 16) + "\n"@ + "stack_pointer: 0x"@ + hex_seq(
        f.stack_pointer as nat,
        16,
    ) + "\n"@ + "stack_segment: 0x"@ + hex_seq(f.stack_segment as nat, 16) + "\n"@
}

/// The diagnostic text a routine emits for a trap frame.
pub open spec fn spec_trap_message(routine: HandlerRoutine, f: TrapFrame) -> Seq<char> {
    match routine {
        HandlerRoutine::BreakpointReport => "EXCEPTION: BREAKPOINT\n"@ + spec_frame_lines(f),
        HandlerRoutine::DivideErrorReport => "EXCEPTION: DIVIDE ERROR\n"@ + spec_frame_lines(f),
    }
}

/// Appends one labelled hex line for a captured register.
fn append_register_line(s: &mut String, label: &str, value: u64)
    ensures
        final(s)@ == old(s)@ + label@ + hex_seq(value as nat, 16) + "\n"@,
{
    s.append(label);
    let h = hex_string(value, 16);
    s.append(h.as_str());
    s.append("\n");
}

/// The diagnostic text for a trap: the exception's name, then the
/// captured execution context, every register as a labelled hex line.
pub fn trap_message(routine: HandlerRoutine, frame: &TrapFrame) -> (s: String)
    ensures
        s@ == spec_trap_message(routine, *frame),
{
    let mut s = String::new();
    match routine {
        HandlerRoutine::BreakpointReport => s.append("EXCEPTION: BREAKPOINT\n"),
        HandlerRoutine::DivideErrorReport => s.append("EXCEPTION: DIVIDE ERROR\n"),
    }
    append_register_line(&mut s, "instruction_pointer: 0x", frame.instruction_pointer);
    append_register_line(&mut s, "code_segment: 0x", frame.code_segment);
    append_register_line(&mut s, "cpu_flags: 0x", frame.cpu_flags);
    append_register_line(&mut s, "stack_pointer: 0x", frame.stack_pointer);
    append_register_line(&mut s, "stack_segment: 0x", frame.stack_segment);
    proof {
        assert(s@ =~= spec_trap_message(routine, *frame));
    }
    s
}

/// The byte sequence the display receives for one trap report: the
/// diagnostic text, encoded.
pub open spec fn spec_trap_report_bytes(routine: HandlerRoutine, f: TrapFrame) -> Seq<u8> {
    encode_utf8(spec_trap_message(routine, f))
}

/// Renders one trap report through the writer: afterwards the writer
/// has received exactly the diagnostic text for this routine and frame,
/// byte for byte, and nothing else.
pub fn emit_trap_report(w: &mut Writer, routine: HandlerRoutine, frame: &TrapFrame)
    requires
        old(w).wf(),
    ensures
        final(w).wf(),
        final(w)@ == write_seq(old(w)@, spec_trap_report_bytes(routine, *frame)),
{
    let message = trap_message(routine, frame);
    w.write_string(message.as_str());
}

/// Reports a breakpoint trap through the console and returns, so that
/// execution resumes at the instruction after the trap. This routine
/// always returns normally: it is the one trap that is a debugging
/// stop, not a fault. The emission itself is `emit_trap_report`, run
/// inside the console's critical section.
pub fn breakpoint_handler(console: &Console, frame: &TrapFrame)
    requires
        console.wf(),
{
    let (mut w, handle) = console.acquire_writer();
    emit_trap_report(&mut w, HandlerRoutine::BreakpointReport, frame);
    handle.release_write(w);
}

/// Reports a divide-by-zero fault through the console. Unlike the
/// breakpoint routine this claims nothing about resumption: what
/// recovery an arithmetic fault should get is an open decision.
pub fn divide_error_handler(console: &Console, frame: &TrapFrame)
    requires
        console.wf(),
{
    let (mut w, handle) = console.acquire_writer();
    emit_trap_report(&mut w, HandlerRoutine::DivideErrorReport, frame);
    handle.release_write(w);
}

/// Runs the routine the table binds to the given vector, once, and
/// reports whether the slot was populated. The routine itself always
/// returns, so a dispatched trap hands control back to the interrupted
/// context.
pub fn dispatch_trap(table: &TrapVectorTable, console: &Console, vector: u8, frame: &TrapFrame) -> (
    handled: bool)
    requires
        table.wf(),
        console.wf(),
    ensures
        handled == (table.spec_slots()[vector as int] is Some),
{
    match table.handler_for(vector) {
        Some(HandlerRoutine::BreakpointReport) => {
            breakpoint_handler(console, frame);
            true
        },
        Some(HandlerRoutine::DivideErrorReport) => {
            divide_error_handler(console, frame);
            true
        },
        None => false,
    }
}

} // verus!
