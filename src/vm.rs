use vstd::prelude::*;
use either::Either;

verus! {

/// The stream elements come as `either::Either`: `Left` holds an operand
/// byte, `Right` an opcode. Its two variants are public, so the type is
/// declared with its fields visible.
#[verifier::external_type_specification]
#[verifier::reject_recursive_types(L)]
#[verifier::reject_recursive_types(R)]
pub struct ExEither<L, R>(Either<L, R>);

/// An opcode of the machine.
#[allow(non_camel_case_types)]
#[derive(Debug, PartialEq, Eq, Clone, Copy, Structural)]
pub enum Instr {
    PUSHi,
    PUSHA,
    PUSHB,
    PUSHX,
    PUSHY,
    POPA,
    POPB,
    POPX,
    POPY,
    ADDA,
    ADDB,
    ADDX,
    ADDY,
    SUBA,
    SUBB,
    SUBX,
    SUBY,
    BRZ,
    BRN,
    BRO,
    SETA,
    SETB,
    SETX,
    SETY,
    HALT,
}

/// The condition flag. `NEGATIVE` and `CARRY` are reserved: no instruction
/// sets them.
#[derive(Debug, PartialEq, Eq, Clone, Copy, Structural)]
pub enum Flag {
    OVERFLOW,
    ZERO,
    NEGATIVE,
    CARRY,
    DEFAULT,
}

/// One of the four general-purpose registers.
#[derive(Debug, PartialEq, Eq, Clone, Copy, Structural)]
pub enum Reg {
    A,
    B,
    X,
    Y,
}

/// The operand that a fetched stream element supplies: its byte, or 0 for an
/// opcode or an exhausted stream.
pub open spec fn operand_of(e: Option<Either<u8, Instr>>) -> u8 {
    match e {
        Some(Either::Left(x)) => x,
        _ => 0,
    }
}

/// New register value and flag of an add: a sum past 127, the largest
/// signed byte, is rejected.
pub open spec fn add_outcome(v: u8, arg: u8) -> (u8, Flag) {
    if v + arg > 127 {
        (v, Flag::OVERFLOW)
    } else if v + arg == 0 {
        (0, Flag::ZERO)
    } else {
        ((v + arg) as u8, Flag::DEFAULT)
    }
}

/// New register value and flag of a subtract: a difference below 0 is
/// rejected.
pub open spec fn sub_outcome(v: u8, arg: u8) -> (u8, Flag) {
    if v < arg {
        (v, Flag::OVERFLOW)
    } else if v - arg == 0 {
        (0, Flag::ZERO)
    } else {
        ((v - arg) as u8, Flag::DEFAULT)
    }
}

/// The abstract state of a machine. The stream is fetched from its end.
#[verifier::ext_equal]
pub struct MachineState {
    pub a: u8,
    pub b: u8,
    pub x: u8,
    pub y: u8,
    pub sp: int,
    pub cc: Flag,
    pub pc: Option<Instr>,
    pub program: Seq<Either<u8, Instr>>,
    pub mem: Seq<u8>,
}

impl MachineState {
    /// The state of a machine built on `program`.
    pub open spec fn initial(program: Seq<Either<u8, Instr>>) -> MachineState {
        MachineState {
            a: 0,
            b: 0,
            x: 0,
            y: 0,
            sp: 255,
            cc: Flag::DEFAULT,
            pc: None,
            program,
            mem: Seq::new(256, |i: int| 0u8),
        }
    }

    /// The stack pointer lies within the 256 cells of memory.
    pub open spec fn wf(self) -> bool {
        0 <= self.sp <= 255 && self.mem.len() == 256
    }

    /// The value of register `r`.
    pub open spec fn reg(self, r: Reg) -> u8 {
        match r {
            Reg::A => self.a,
            Reg::B => self.b,
            Reg::X => self.x,
            Reg::Y => self.y,
        }
    }

    /// The state with register `r` set to `v`.
    pub open spec fn with_reg(self, r: Reg, v: u8) -> MachineState {
        match r {
            Reg::A => MachineState { a: v, ..self },
            Reg::B => MachineState { b: v, ..self },
            Reg::X => MachineState { x: v, ..self },
            Reg::Y => MachineState { y: v, ..self },
        }
    }

    /// The element that the next fetch yields, if the stream is not empty.
    pub open spec fn fetch(self) -> Option<Either<u8, Instr>> {
        if self.program.len() == 0 {
            None
        } else {
            Some(self.program.last())
        }
    }

    /// The state once the next element has been fetched.
    pub open spec fn consume(self) -> MachineState {
        if self.program.len() == 0 {
            self
        } else {
            MachineState { program: self.program.drop_last(), ..self }
        }
    }

    /// Push `v`: store it at `mem[sp]` and move `sp` down, unless the stack
    /// is full (`sp == 0`), where nothing changes.
    pub open spec fn push_value(self, v: u8) -> MachineState {
        if self.sp > 0 {
            MachineState { mem: self.mem.update(self.sp, v), sp: self.sp - 1, ..self }
        } else {
            self
        }
    }

    /// What a pop yields: 0 on an empty stack (`sp == 255`), else
    /// `mem[sp + 1]`.
    pub open spec fn top(self) -> u8 {
        if self.sp == 255 {
            0
        } else {
            self.mem[self.sp + 1]
        }
    }

    /// The state after a pop: `sp` moves up unless the stack is empty.
    pub open spec fn pop_value(self) -> MachineState {
        if self.sp == 255 {
            self
        } else {
            MachineState { sp: self.sp + 1, ..self }
        }
    }

    /// Add the next operand to register `r`.
    pub open spec fn add(self, r: Reg) -> MachineState {
        let (v, f) = add_outcome(self.reg(r), operand_of(self.fetch()));
        MachineState { cc: f, ..self.consume() }.with_reg(r, v)
    }

    /// Subtract the next operand from register `r`.
    pub open spec fn sub(self, r: Reg) -> MachineState {
        let (v, f) = sub_outcome(self.reg(r), operand_of(self.fetch()));
        MachineState { cc: f, ..self.consume() }.with_reg(r, v)
    }

    /// Push register `r`, or the next operand where `src` is `None`.
    pub open spec fn push(self, src: Option<Reg>) -> MachineState {
        match src {
            Some(r) => self.push_value(self.reg(r)),
            None => self.consume().push_value(operand_of(self.fetch())),
        }
    }

    /// Pop into register `r`.
    pub open spec fn pop(self, r: Reg) -> MachineState {
        self.pop_value().with_reg(r, self.top())
    }

    /// Carry out opcode `i`, already fetched; the flag says whether the
    /// machine goes on running.
    pub open spec fn dispatch(self, i: Instr) -> (MachineState, bool) {
        match i {
            Instr::ADDA => (self.add(Reg::A), true),
            Instr::ADDB => (self.add(Reg::B), true),
            Instr::ADDX => (self.add(Reg::X), true),
            Instr::ADDY => (self.add(Reg::Y), true),
            Instr::SUBA => (self.sub(Reg::A), true),
            Instr::SUBB => (self.sub(Reg::B), true),
            Instr::SUBX => (self.sub(Reg::X), true),
            Instr::SUBY => (self.sub(Reg::Y), true),
            Instr::PUSHi => (self.push(None), true),
            Instr::PUSHA => (self.push(Some(Reg::A)), true),
            Instr::PUSHB => (self.push(Some(Reg::B)), true),
            Instr::PUSHX => (self.push(Some(Reg::X)), true),
            Instr::PUSHY => (self.push(Some(Reg::Y)), true),
            Instr::POPA => (self.pop(Reg::A), true),
            Instr::POPB => (self.pop(Reg::B), true),
            Instr::POPX => (self.pop(Reg::X), true),
            Instr::POPY => (self.pop(Reg::Y), true),
            _ => (self, false),
        }
    }

    /// One fetch and what follows from it. An empty stream halts with no
    /// current instruction; a stray operand byte is skipped.
    pub open spec fn step(self) -> (MachineState, bool) {
        match self.fetch() {
            None => (MachineState { pc: None, ..self }, false),
            Some(Either::Left(_)) => (self.consume(), true),
            Some(Either::Right(i)) => MachineState { pc: Some(i), ..self.consume() }.dispatch(i),
        }
    }

    /// A step that keeps the machine running has consumed at least one
    /// element of the stream.
    pub proof fn lemma_step_shrinks(self)
        ensures
            self.step().1 ==> self.step().0.program.len() < self.program.len(),
    {
    }

    /// The state in which the machine halts.
    pub open spec fn run(self) -> MachineState
        decreases self.program.len(),
    {
        let (s, going) = self.step();
        if going {
            s.run()
        } else {
            s
        }
    }
}

/// A machine together with the stream it runs. `program` is fetched from its
/// end; `mem` holds the stack, which grows down from `SP == 255`.
#[allow(non_snake_case)]
#[derive(Clone)]
pub struct VM {
    pub A: u8,
    pub B: u8,
    pub X: u8,
    pub Y: u8,
    pub SP: usize,
    pub CC: Flag,
    pub PC: Option<Instr>,
    pub program: Vec<Either<u8, Instr>>,
    pub mem: [u8; 256],
}

impl View for VM {
    type V = MachineState;

    open spec fn view(&self) -> MachineState {
        MachineState {
            a: self.A,
            b: self.B,
            x: self.X,
            y: self.Y,
            sp: self.SP as int,
            cc: self.CC,
            pc: self.PC,
            program: self.program@,
            mem: self.mem@,
        }
    }
}

impl VM {
    /// The stack pointer stays within memory.
    pub open spec fn wf(&self) -> bool {
        self.SP <= 255
    }

    /// A machine about to run `program`: registers 0, empty stack, flag
    /// `DEFAULT`, no current instruction, memory all 0.
    pub fn new(program: Vec<Either<u8, Instr>>) -> (r: VM)
        ensures
            r.wf(),
            r@ == MachineState::initial(program@),
            r.A == 0 && r.B == 0 && r.X == 0 && r.Y == 0,
            r.SP == 255,
            r.CC == Flag::DEFAULT,
            r.PC.is_none(),
            r.program@ == program@,
            forall|i: int| 0 <= i < 256 ==> r.mem[i] == 0,
    {
        let r = VM {
            A: 0,
            B: 0,
            X: 0,
            Y: 0,
            SP: 255,
            CC: Flag::DEFAULT,
            PC: None,
            program,
            mem: [0u8; 256],
        };
        assert(r@.mem =~= MachineState::initial(program@).mem);
        assert(r@ =~= MachineState::initial(program@));
        r
    }

    /// The value of register `r`.
    pub fn reg(&self, r: Reg) -> (v: u8)
        ensures
            v == self@.reg(r),
    {
        match r {
            Reg::A => self.A,
            Reg::B => self.B,
            Reg::X => self.X,
            Reg::Y => self.Y,
        }
    }

    /// Set register `r` to `v`.
    pub fn set_reg(&mut self, r: Reg, v: u8)
        ensures
            final(self)@ == old(self)@.with_reg(r, v),
    {
        match r {
            Reg::A => self.A = v,
            Reg::B => self.B = v,
            Reg::X => self.X = v,
            Reg::Y => self.Y = v,
        }
    }

    /// Fetch the next element as an operand: its byte, or 0 where it is an
    /// opcode or the stream is exhausted.
    fn next_operand(&mut self) -> (v: u8)
        ensures
            v == operand_of(old(self)@.fetch()),
            final(self)@ == old(self)@.consume(),
    {
        match self.program.pop() {
            Some(Either::Left(x)) => x,
            _ => 0,
        }
    }

    /// Push `v` onto the stack; on a full stack (`SP == 0`) it is dropped.
    pub fn push(&mut self, v: u8)
        requires
            old(self).wf(),
        ensures
            final(self).wf(),
            final(self)@ == old(self)@.push_value(v),
    {
        if self.SP > 0 {
            self.mem[self.SP] = v;
            self.SP = self.SP - 1;
        }
    }

    /// Pop the top of the stack; on an empty stack (`SP == 255`) the result
    /// is 0 and nothing moves.
    pub fn pop(&mut self) -> (v: u8)
        requires
            old(self).wf(),
        ensures
            final(self).wf(),
            v == old(self)@.top(),
            final(self)@ == old(self)@.pop_value(),
    {
        if self.SP == 255 {
            0
        } else {
            let v = self.mem[self.SP + 1];
            self.SP = self.SP + 1;
            v
        }
    }

    /// Add the next operand to register `r`. A sum past 127 is rejected:
    /// the register keeps its value and the flag becomes `OVERFLOW`. A sum
    /// of 0 sets `ZERO`; any other sets `DEFAULT`.
    pub fn handle_add(&mut self, r: Reg)
        requires
            old(self).wf(),
        ensures
            final(self).wf(),
            final(self)@ == old(self)@.add(r),
    {
        let arg = self.next_operand();
        let v = self.reg(r);
        let next = if v > 127 || 127 - v < arg {
            self.CC = Flag::OVERFLOW;
            v
        } else if v + arg == 0 {
            self.CC = Flag::ZERO;
            0
        } else {
            self.CC = Flag::DEFAULT;
            v + arg
        };
        self.set_reg(r, next);
    }

    /// Subtract the next operand from register `r`. A subtrahend larger than
    /// the register is rejected: the register keeps its value and the flag
    /// becomes `OVERFLOW`. A difference of 0 sets `ZERO`; any other sets
    /// `DEFAULT`.
    pub fn handle_sub(&mut self, r: Reg)
        requires
            old(self).wf(),
        ensures
            final(self).wf(),
            final(self)@ == old(self)@.sub(r),
    {
        let arg = self.next_operand();
        let v = self.reg(r);
        let next = if v < arg {
            self.CC = Flag::OVERFLOW;
            v
        } else if v - arg == 0 {
            self.CC = Flag::ZERO;
            0
        } else {
            self.CC = Flag::DEFAULT;
            v - arg
        };
        self.set_reg(r, next);
    }

    /// Push register `r`, or, where `src` is `None`, the next operand.
    pub fn handle_push(&mut self, src: Option<Reg>)
        requires
            old(self).wf(),
        ensures
            final(self).wf(),
            final(self)@ == old(self)@.push(src),
    {
        let v = match src {
            Some(r) => self.reg(r),
            None => self.next_operand(),
        };
        self.push(v);
    }

    /// Pop the top of the stack into register `r`.
    pub fn handle_pop(&mut self, r: Reg)
        requires
            old(self).wf(),
        ensures
            final(self).wf(),
            final(self)@ == old(self)@.pop(r),
    {
        let v = self.pop();
        self.set_reg(r, v);
    }

    /// Fetch one element and carry it out. Returns whether the machine goes
    /// on running: `false` on `HALT`, on an opcode that has no handler
    /// (branches and `SET`), and on an exhausted stream.
    pub fn step(&mut self) -> (running: bool)
        requires
            old(self).wf(),
        ensures
            final(self).wf(),
            (final(self)@, running) == old(self)@.step(),
    {
        match self.program.pop() {
            None => {
                self.PC = None;
                false
            },
            Some(Either::Left(_)) => true,
            Some(Either::Right(i)) => {
                self.PC = Some(i);
                match i {
                    Instr::ADDA => { self.handle_add(Reg::A); true },
                    Instr::ADDB => { self.handle_add(Reg::B); true },
                    Instr::ADDX => { self.handle_add(Reg::X); true },
                    Instr::ADDY => { self.handle_add(Reg::Y); true },
                    Instr::SUBA => { self.handle_sub(Reg::A); true },
                    Instr::SUBB => { self.handle_sub(Reg::B); true },
                    Instr::SUBX => { self.handle_sub(Reg::X); true },
                    Instr::SUBY => { self.handle_sub(Reg::Y); true },
                    Instr::PUSHi => { self.handle_push(None); true },
                    Instr::PUSHA => { self.handle_push(Some(Reg::A)); true },
                    Instr::PUSHB => { self.handle_push(Some(Reg::B)); true },
                    Instr::PUSHX => { self.handle_push(Some(Reg::X)); true },
                    Instr::PUSHY => { self.handle_push(Some(Reg::Y)); true },
                    Instr::POPA => { self.handle_pop(Reg::A); true },
                    Instr::POPB => { self.handle_pop(Reg::B); true },
                    Instr::POPX => { self.handle_pop(Reg::X); true },
                    Instr::POPY => { self.handle_pop(Reg::Y); true },
                    _ => false,
                }
            },
        }
    }

    /// Run until `HALT`, an opcode without a handler, or the end of the
    /// stream.
    pub fn execute(&mut self)
        requires
            old(self).wf(),
        ensures
            final(self).wf(),
            final(self)@ == old(self)@.run(),
    {
        loop
            invariant_except_break
                self@.run() == old(self)@.run(),
            invariant
                self.wf(),
            ensures
                self@ == old(self)@.run(),
            decreases self.program.len(),
        {
            let ghost before = self@;
            let running = self.step();
            proof {
                before.lemma_step_shrinks();
            }
            if !running {
                break;
            }
        }
    }
}

} // verus!
