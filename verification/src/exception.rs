use vstd::prelude::*;

verus! {

/// The overridable exception slots of the ARMv7-M vector table.
#[allow(non_camel_case_types)]
#[derive(Clone, Copy, Debug, PartialEq, Eq, Structural)]
pub enum ExceptionType {
    nmi,
    mem_manage,
    bus_fault,
    usage_fault,
    sv_call,
    debug_monitor,
    pend_sv,
    sys_tick,
}

/// Symbolic name of a handler routine a vector slot can hold. The linker
/// resolves each name to the address of the routine, never to null.
#[derive(Clone, Copy, Debug, PartialEq, Eq, Structural)]
pub enum Handler {
    Nmi,
    HardFaultTrampoline,
    MemManage,
    BusFault,
    UsageFault,
    SvCall,
    DebugMonitor,
    PendSv,
    SysTick,
    IrqTrampoline,
}

/// One slot of the vector table: either a reserved 32-bit word or a
/// handler symbol.
#[derive(Clone, Copy, Debug, PartialEq, Eq, Structural)]
pub enum Vector {
    Reserved(u32),
    Handler(Handler),
}

/// Every reserved slot of the table holds the integer 0. A handler slot
/// never reads as 0: the linker resolves handler symbols to non-null
/// routine addresses.
pub open spec fn table_wf(t: Seq<Vector>) -> bool {
    forall|i: int| 0 <= i < t.len()
        ==> ((#[trigger] t[i]) matches Vector::Reserved(w) ==> w == 0)
}

/// The fixed layout of the 14 exception slots, in table order: the slots
/// that follow the initial stack pointer and reset vector at the base of
/// flash.
pub open spec fn exceptions_layout() -> Seq<Vector> {
    seq![
        Vector::Handler(Handler::Nmi),
        Vector::Handler(Handler::HardFaultTrampoline),
        Vector::Handler(Handler::MemManage),
        Vector::Handler(Handler::BusFault),
        Vector::Handler(Handler::UsageFault),
        Vector::Reserved(0),
        Vector::Reserved(0),
        Vector::Reserved(0),
        Vector::Reserved(0),
        Vector::Handler(Handler::SvCall),
        Vector::Handler(Handler::DebugMonitor),
        Vector::Reserved(0),
        Vector::Handler(Handler::PendSv),
        Vector::Handler(Handler::SysTick),
    ]
}

/// Builds the exception table with its fixed layout.
pub fn exceptions_table() -> (t: Vec<Vector>)
    ensures
        t@ == exceptions_layout(),
{
    let mut t: Vec<Vector> = Vec::new();
    t.push(Vector::Handler(Handler::Nmi));
    t.push(Vector::Handler(Handler::HardFaultTrampoline));
    t.push(Vector::Handler(Handler::MemManage));
    t.push(Vector::Handler(Handler::BusFault));
    t.push(Vector::Handler(Handler::UsageFault));
    t.push(Vector::Reserved(0));
    t.push(Vector::Reserved(0));
    t.push(Vector::Reserved(0));
    t.push(Vector::Reserved(0));
    t.push(Vector::Handler(Handler::SvCall));
    t.push(Vector::Handler(Handler::DebugMonitor));
    t.push(Vector::Reserved(0));
    t.push(Vector::Handler(Handler::PendSv));
    t.push(Vector::Handler(Handler::SysTick));
    proof {
        assert(t@ =~= exceptions_layout());
    }
    t
}

/// The exception table has exactly 14 slots, and every slot either names a
/// handler routine or is a reserved word holding the integer 0.
pub proof fn lemma_exceptions_layout_wf()
    ensures
        exceptions_layout().len() == 14,
        table_wf(exceptions_layout()),
{
    assert forall|i: int| 0 <= i < exceptions_layout().len()
        implies ((#[trigger] exceptions_layout()[i]) matches Vector::Reserved(w) ==> w == 0) by {
    }
}

/// The 32-bit word a slot reads as once the linker has assigned each
/// handler symbol the address of its routine.
pub open spec fn vector_word(v: Vector, addr_of: Map<Handler, u32>) -> u32 {
    match v {
        Vector::Reserved(w) => w,
        Vector::Handler(h) => addr_of[h],
    }
}

/// With every handler symbol resolved to a non-null address - the
/// linker's guarantee - a slot of the exception table reads as 0 exactly
/// when it is one of the reserved slots: no slot holding a handler is
/// ever null.
pub proof fn lemma_handler_slots_nonnull(addr_of: Map<Handler, u32>)
    requires
        forall|h: Handler| #[trigger] addr_of[h] != 0,
    ensures
        forall|i: int| 0 <= i < 14
            ==> (vector_word(#[trigger] exceptions_layout()[i], addr_of) == 0
                <==> exceptions_layout()[i] is Reserved),
{
    assert forall|i: int| 0 <= i < 14
        implies (vector_word(#[trigger] exceptions_layout()[i], addr_of) == 0
            <==> exceptions_layout()[i] is Reserved) by {
        lemma_exceptions_layout_wf();
    }
}

/// The handler symbol each overridable exception dispatches through.
pub open spec fn handler_of(e: ExceptionType) -> Handler {
    match e {
        ExceptionType::nmi => Handler::Nmi,
        ExceptionType::mem_manage => Handler::MemManage,
        ExceptionType::bus_fault => Handler::BusFault,
        ExceptionType::usage_fault => Handler::UsageFault,
        ExceptionType::sv_call => Handler::SvCall,
        ExceptionType::debug_monitor => Handler::DebugMonitor,
        ExceptionType::pend_sv => Handler::PendSv,
        ExceptionType::sys_tick => Handler::SysTick,
    }
}

/// The index of the slot an overridable exception occupies in the
/// exception table.
pub fn slot_of(e: ExceptionType) -> (i: usize)
    ensures
        i < 14,
        exceptions_layout()[i as int] == Vector::Handler(handler_of(e)),
{
    match e {
        ExceptionType::nmi => 0,
        ExceptionType::mem_manage => 2,
        ExceptionType::bus_fault => 3,
        ExceptionType::usage_fault => 4,
        ExceptionType::sv_call => 9,
        ExceptionType::debug_monitor => 10,
        ExceptionType::pend_sv => 12,
        ExceptionType::sys_tick => 13,
    }
}

/// The signed exception number the catch-all dispatcher hands to a user
/// handler: ICSR[VECTACTIVE] truncated to a byte and offset by -16, so
/// external interrupts appear as non-negative numbers and internal
/// exceptions as negative ones.
pub fn active_exception_number(icsr: u32) -> (n: i16)
    ensures
        n == (icsr as u8) as i16 - 16,
{
    ((icsr as u8) as i16) - 16
}

/// Registers stacked (pushed) by the hardware on exception entry.
#[derive(Clone, Copy, Debug, PartialEq, Eq, Structural)]
pub struct ExceptionFrame {
    /// General purpose registers.
    pub r0: u32,
    pub r1: u32,
    pub r2: u32,
    pub r3: u32,
    pub r12: u32,
    /// Link register.
    pub lr: u32,
    /// Program counter.
    pub pc: u32,
    /// Program status register.
    pub xpsr: u32,
}

/// The lower-case hexadecimal digit for a value below 16.
pub open spec fn hex_digit(n: int) -> char
    recommends
        0 <= n < 16,
{
    if n == 0 { '0' }
    else if n == 1 { '1' }
    else if n == 2 { '2' }
    else if n == 3 { '3' }
    else if n == 4 { '4' }
    else if n == 5 { '5' }
    else if n == 6 { '6' }
    else if n == 7 { '7' }
    else if n == 8 { '8' }
    else if n == 9 { '9' }
    else if n == 10 { 'a' }
    else if n == 11 { 'b' }
    else if n == 12 { 'c' }
    else if n == 13 { 'd' }
    else if n == 14 { 'e' }
    else { 'f' }
}

/// The last `n` hexadecimal digits of `x`, most significant first.
pub open spec fn hex_digits(x: int, n: nat) -> Seq<char>
    decreases n,
{
    if n == 0 {
        Seq::empty()
    } else {
        hex_digits(x / 16, (n - 1) as nat) + seq![hex_digit(x % 16)]
    }
}

/// A 32-bit word printed the way the exception-frame dump prints it:
/// `0x` followed by exactly eight lower-case hexadecimal digits.
pub open spec fn spec_hex32(x: u32) -> Seq<char> {
    seq!['0', 'x'] + hex_digits(x as int, 8)
}

fn hex_digit_str(d: u32) -> (r: &'static str)
    requires
        d < 16,
    ensures
        r@ == seq![hex_digit(d as int)],
{
    let r: &'static str = match d {
        0 => "0",
        1 => "1",
        2 => "2",
        3 => "3",
        4 => "4",
        5 => "5",
        6 => "6",
        7 => "7",
        8 => "8",
        9 => "9",
        10 => "a",
        11 => "b",
        12 => "c",
        13 => "d",
        14 => "e",
        _ => "f",
    };
    proof {
        reveal_strlit("0");
        reveal_strlit("1");
        reveal_strlit("2");
        reveal_strlit("3");
        reveal_strlit("4");
        reveal_strlit("5");
        reveal_strlit("6");
        reveal_strlit("7");
        reveal_strlit("8");
        reveal_strlit("9");
        reveal_strlit("a");
        reveal_strlit("b");
        reveal_strlit("c");
        reveal_strlit("d");
        reveal_strlit("e");
        reveal_strlit("f");
        assert(r@ =~= seq![hex_digit(d as int)]);
    }
    r
}

fn hex_digits_string(x: u32, n: usize) -> (s: String)
    requires
        n <= 8,
    ensures
        s@ == hex_digits(x as int, n as nat),
    decreases n,
{
    if n == 0 {
        String::new()
    } else {
        let mut s = hex_digits_string(x / 16, n - 1);
        s.append(hex_digit_str(x % 16));
        s
    }
}

/// Formats a 32-bit word as `0x` plus eight lower-case hex digits.
pub fn hex32(x: u32) -> (s: String)
    ensures
        s@ == spec_hex32(x),
{
    let mut s = String::from_str("0x");
    let digits = hex_digits_string(x, 8);
    s.append(digits.as_str());
    proof {
        reveal_strlit("0x");
        assert(s@ =~= spec_hex32(x));
    }
    s
}

/// The debug dump of an exception frame: every stacked register printed
/// as a 32-bit hexadecimal word.
pub open spec fn spec_frame_text(f: ExceptionFrame) -> Seq<char> {
    "ExceptionFrame { r0: "@ + spec_hex32(f.r0)
        + ", r1: "@ + spec_hex32(f.r1)
        + ", r2: "@ + spec_hex32(f.r2)
        + ", r3: "@ + spec_hex32(f.r3)
        + ", r12: "@ + spec_hex32(f.r12)
        + ", lr: "@ + spec_hex32(f.lr)
        + ", pc: "@ + spec_hex32(f.pc)
        + ", xpsr: "@ + spec_hex32(f.xpsr)
        + " }"@
}

impl ExceptionFrame {
    /// Renders the frame with each field as a 32-bit hexadecimal word.
    pub fn describe(&self) -> (s: String)
        ensures
            s@ == spec_frame_text(*self),
    {
        let mut s = String::from_str("ExceptionFrame { r0: ");
        s.append(hex32(self.r0).as_str());
        s.append(", r1: ");
        s.append(hex32(self.r1).as_str());
        s.append(", r2: ");
        s.append(hex32(self.r2).as_str());
        s.append(", r3: ");
        s.append(hex32(self.r3).as_str());
        s.append(", r12: ");
        s.append(hex32(self.r12).as_str());
        s.append(", lr: ");
        s.append(hex32(self.lr).as_str());
        s.append(", pc: ");
        s.append(hex32(self.pc).as_str());
        s.append(", xpsr: ");
        s.append(hex32(self.xpsr).as_str());
        s.append(" }");
        proof {
            assert(s@ =~= spec_frame_text(*self));
        }
        s
    }
}

} // verus!
