//! Properties of the machine's semantics, proved over `MachineState`, the
//! model that every operation of `VM` is specified against.

use vstd::prelude::*;
use either::Either;
use crate::vm::{operand_of, Flag, Instr, MachineState, Reg};

verus! {

/// Add rejects rather than wraps: a sum past 127 leaves the register as it
/// was and sets `OVERFLOW`; a sum of exactly 0 sets `ZERO` and the register
/// to 0; any other sum is stored and sets `DEFAULT`.
pub proof fn law_add_rejects_overflow(s: MachineState, r: Reg)
    ensures
        ({
            let v = s.reg(r) as int;
            let arg = operand_of(s.fetch()) as int;
            let t = s.add(r);
            &&& v + arg > 127 ==> t.reg(r) == v && t.cc == Flag::OVERFLOW
            &&& v + arg == 0 ==> t.reg(r) == 0 && t.cc == Flag::ZERO
            &&& 0 < v + arg <= 127 ==> t.reg(r) == v + arg && t.cc == Flag::DEFAULT
        }),
{
}

/// Subtract rejects rather than goes below 0: a subtrahend larger than the
/// register leaves it as it was and sets `OVERFLOW`; an equal one sets
/// `ZERO` and the register to 0; any other stores the difference and sets
/// `DEFAULT`.
pub proof fn law_sub_rejects_underflow(s: MachineState, r: Reg)
    ensures
        ({
            let v = s.reg(r) as int;
            let arg = operand_of(s.fetch()) as int;
            let t = s.sub(r);
            &&& v < arg ==> t.reg(r) == v && t.cc == Flag::OVERFLOW
            &&& v == arg ==> t.reg(r) == 0 && t.cc == Flag::ZERO
            &&& v > arg ==> t.reg(r) == v - arg && t.cc == Flag::DEFAULT
        }),
{
}

/// On a stack that is not full, a push stores the value just above the new
/// stack pointer, and popping it back into the same register restores both
/// the register and the stack pointer.
pub proof fn law_push_pop_round_trip(s: MachineState, r: Reg)
    requires
        s.wf(),
        s.sp > 0,
    ensures
        ({
            let t = s.push(Some(r));
            let u = t.pop(r);
            &&& t.sp == s.sp - 1
            &&& t.mem[t.sp + 1] == s.reg(r)
            &&& u.reg(r) == s.reg(r)
            &&& u.sp == s.sp
        }),
        ({
            let t = s.push(None);
            &&& t.sp == s.sp - 1
            &&& t.mem[t.sp + 1] == operand_of(s.fetch())
        }),
{
}

/// A pop on an empty stack yields 0 and leaves the stack pointer at 255; a
/// push on a full stack changes neither memory nor the stack pointer.
pub proof fn law_stack_bounds(s: MachineState, r: Reg, src: Option<Reg>)
    requires
        s.wf(),
    ensures
        s.sp == 255 ==> s.top() == 0 && s.pop(r).reg(r) == 0 && s.pop(r).sp == 255,
        s.sp == 0 ==> s.push(src).mem == s.mem && s.push(src).sp == 0,
{
}

/// A stream that holds only `HALT` stops after a single fetch, with the
/// registers, the flag, the stack and memory as they were.
pub proof fn law_halt_only(s: MachineState)
    requires
        s.program == seq![Either::<u8, Instr>::Right(Instr::HALT)],
    ensures
        !s.step().1,
        s.run() == s.step().0,
        s.run().program.len() == 0,
        s.run().pc == Some(Instr::HALT),
        s.run().a == s.a && s.run().b == s.b && s.run().x == s.x && s.run().y == s.y,
        s.run().cc == s.cc && s.run().sp == s.sp && s.run().mem == s.mem,
{
}

/// An add, subtract, push or pop that names register `r` leaves every other
/// register as it was.
pub proof fn law_register_isolation(s: MachineState, r: Reg, o: Reg)
    requires
        r != o,
    ensures
        s.add(r).reg(o) == s.reg(o),
        s.sub(r).reg(o) == s.reg(o),
        s.push(Some(r)).reg(o) == s.reg(o),
        s.push(None).reg(o) == s.reg(o),
        s.pop(r).reg(o) == s.reg(o),
{
}

} // verus!
