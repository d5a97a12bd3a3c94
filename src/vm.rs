//! The machine state and its fetch-execute step.
use vstd::prelude::*;

use crate::display::{painted, pixel_offset};
use crate::display;
use crate::instruction::{opcode_table, operand_count_spec, Instruction};

verus! {

/// Number of cells in the register file.
pub const REGISTER_COUNT: usize = 64;

/// Why a run stopped other than by `Halt`.
#[derive(Debug, Clone, Copy, PartialEq, Eq, Structural)]
pub enum Fault {
    /// The opcode byte is not in the instruction table.
    DecodeError,
    /// The opcode or one of its operands lies past the end of the program.
    ProgramBoundsError,
    /// A register operand is not below the register count.
    RegisterRangeError,
    /// A pixel coordinate lies outside the frame.
    FrameBoundsError,
    /// Division by zero.
    ArithmeticError,
    /// A return with no active call.
    CallStackError,
}

/// What one fetch-execute cycle asks of the host.
#[derive(Debug, Clone, Copy, PartialEq, Eq, Structural)]
pub enum Step {
    /// Nothing to do; run the next cycle.
    Continue,
    /// Deliver a snapshot of the frame buffer.
    Draw,
    /// Report a register value in decimal.
    Print(u8),
    /// Report a register value in binary.
    PrintBinary(u8),
    /// The program halted normally.
    Halted,
    /// The program stopped on a fault.
    Fault(Fault),
}

/// The mathematical state of a machine.
pub struct MachineState {
    pub program: Seq<u8>,
    pub buf: Seq<u8>,
    pub width: usize,
    pub height: usize,
    pub period_ms: u64,
    pub last_tick_ms: u64,
    pub stack: Seq<u8>,
    pub call_stack: Seq<Option<usize>>,
    pub reg: Seq<u8>,
    pub ip: usize,
    pub ret: Option<usize>,
    pub equal: bool,
    pub zero: bool,
}

/// Reduces an integer modulo 256.
pub open spec fn wrap8(v: int) -> u8 {
    (v % 256) as u8
}

/// The period, in milliseconds, of a throttled loop at `cpu_freq` hertz; a
/// frequency of zero never lets the period elapse.
pub open spec fn period_of(cpu_freq: u8) -> u64 {
    if cpu_freq == 0 {
        u64::MAX
    } else {
        (1000int / (cpu_freq as int)) as u64
    }
}

impl MachineState {
    /// The return slot and the auxiliary call stack form a balanced nesting:
    /// the outermost saved slot is empty, every later one holds an address,
    /// and the slot is occupied exactly while some call is active.
    pub open spec fn calls_nested(&self) -> bool {
        &&& (self.ret is Some <==> self.call_stack.len() > 0)
        &&& forall|i: int|
            0 <= i < self.call_stack.len() ==> (#[trigger] self.call_stack[i] is Some <==> i > 0)
    }

    pub open spec fn wf(&self) -> bool {
        &&& self.reg.len() == REGISTER_COUNT
        &&& self.buf.len() == self.width * self.height * 4
        &&& self.calls_nested()
    }

    /// Operand byte `k` of the instruction at the pointer, or zero past the end.
    pub open spec fn operand(&self, k: int) -> u8 {
        if self.ip + 1 + k < self.program.len() {
            self.program[self.ip + 1 + k]
        } else {
            0u8
        }
    }

    pub open spec fn set_reg(self, r: u8, v: u8) -> MachineState {
        MachineState { reg: self.reg.update(r as int, v), ..self }
    }

    pub open spec fn jump(self, target: u8) -> MachineState {
        MachineState { ip: target as usize, ..self }
    }
}

/// Whether `r` names a register.
pub open spec fn is_reg(r: u8) -> bool {
    r < REGISTER_COUNT
}

/// Executes decoded instruction `ins` with operands `a`, `b`, `c` on `s`,
/// whose pointer `t` already stands past the operands. On a fault the
/// original state `s` is returned unchanged.
pub open spec fn execute(
    s: MachineState,
    t: MachineState,
    ins: Instruction,
    a: u8,
    b: u8,
    c: u8,
    controller: u8,
    now_ms: u64,
) -> (MachineState, Step) {
    let bad_reg = (s, Step::Fault(Fault::RegisterRangeError));
    match ins {
        Instruction::Halt => (s, Step::Halted),
        Instruction::Illegal => (s, Step::Fault(Fault::DecodeError)),
        Instruction::Nop => (t, Step::Continue),
        Instruction::Draw => (t, Step::Draw),
        Instruction::LoadI => if is_reg(a) {
            (t.set_reg(a, b), Step::Continue)
        } else {
            bad_reg
        },
        Instruction::LoadR => if is_reg(a) && is_reg(b) {
            (t.set_reg(a, s.reg[b as int]), Step::Continue)
        } else {
            bad_reg
        },
        Instruction::Add => if is_reg(a) && is_reg(b) && is_reg(c) {
            (t.set_reg(a, wrap8(s.reg[b as int] + s.reg[c as int])), Step::Continue)
        } else {
            bad_reg
        },
        Instruction::Sub => if is_reg(a) && is_reg(b) && is_reg(c) {
            (t.set_reg(a, wrap8(s.reg[b as int] - s.reg[c as int])), Step::Continue)
        } else {
            bad_reg
        },
        Instruction::Mul => if is_reg(a) && is_reg(b) && is_reg(c) {
            (t.set_reg(a, wrap8(s.reg[b as int] * s.reg[c as int])), Step::Continue)
        } else {
            bad_reg
        },
        Instruction::Div => if is_reg(a) && is_reg(b) && is_reg(c) {
            if s.reg[c as int] == 0 {
                (s, Step::Fault(Fault::ArithmeticError))
            } else {
                (t.set_reg(a, (s.reg[b as int] / s.reg[c as int]) as u8), Step::Continue)
            }
        } else {
            bad_reg
        },
        Instruction::And => if is_reg(a) && is_reg(b) && is_reg(c) {
            let v = s.reg[b as int] & s.reg[c as int];
            (MachineState { zero: v == 0, ..t.set_reg(a, v) }, Step::Continue)
        } else {
            bad_reg
        },
        Instruction::Or => if is_reg(a) && is_reg(b) && is_reg(c) {
            let v = s.reg[b as int] | s.reg[c as int];
            (MachineState { zero: v == 0, ..t.set_reg(a, v) }, Step::Continue)
        } else {
            bad_reg
        },
        Instruction::Xor => if is_reg(a) && is_reg(b) && is_reg(c) {
            let v = s.reg[b as int] ^ s.reg[c as int];
            (MachineState { zero: v == 0, ..t.set_reg(a, v) }, Step::Continue)
        } else {
            bad_reg
        },
        Instruction::AndI => if is_reg(a) && is_reg(b) {
            let v = s.reg[b as int] & c;
            (MachineState { zero: v == 0, ..t.set_reg(a, v) }, Step::Continue)
        } else {
            bad_reg
        },
        Instruction::Comp => if is_reg(a) && is_reg(b) {
            (MachineState { equal: s.reg[a as int] == s.reg[b as int], ..t }, Step::Continue)
        } else {
            bad_reg
        },
        Instruction::Inc => if is_reg(a) {
            (t.set_reg(a, wrap8(s.reg[a as int] + 1)), Step::Continue)
        } else {
            bad_reg
        },
        Instruction::Dec => if is_reg(a) {
            (t.set_reg(a, wrap8(s.reg[a as int] - 1)), Step::Continue)
        } else {
            bad_reg
        },
        Instruction::Jump => (t.jump(a), Step::Continue),
        Instruction::Jeq => (if s.equal { t.jump(a) } else { t }, Step::Continue),
        Instruction::Jneq => (if !s.equal { t.jump(a) } else { t }, Step::Continue),
        Instruction::Jz => (if s.zero { t.jump(a) } else { t }, Step::Continue),
        Instruction::Jnz => (if !s.zero { t.jump(a) } else { t }, Step::Continue),
        Instruction::JumpDt => if now_ms < s.last_tick_ms || now_ms - s.last_tick_ms < s.period_ms {
            (t.jump(a), Step::Continue)
        } else {
            (MachineState { last_tick_ms: now_ms, ..t }, Step::Continue)
        },
        Instruction::Call => (
            MachineState {
                call_stack: s.call_stack.push(s.ret),
                ret: Some(t.ip),
                ..t.jump(a)
            },
            Step::Continue,
        ),
        Instruction::Ret => match s.ret {
            Some(caller) => (
                MachineState {
                    ip: caller,
                    ret: if s.call_stack.len() > 0 { s.call_stack.last() } else { None },
                    call_stack: s.call_stack.drop_last(),
                    ..t
                },
                Step::Continue,
            ),
            None => (s, Step::Fault(Fault::CallStackError)),
        },
        Instruction::Push => if is_reg(a) {
            (MachineState { stack: s.stack.push(s.reg[a as int]), ..t }, Step::Continue)
        } else {
            bad_reg
        },
        Instruction::Pop => if is_reg(a) {
            if s.stack.len() > 0 {
                (
                    MachineState { stack: s.stack.drop_last(), ..t.set_reg(a, s.stack.last()) },
                    Step::Continue,
                )
            } else {
                (t.set_reg(a, 0), Step::Continue)
            }
        } else {
            bad_reg
        },
        Instruction::Input => if is_reg(a) {
            (t.set_reg(a, controller), Step::Continue)
        } else {
            bad_reg
        },
        Instruction::Print => if is_reg(a) {
            (t, Step::Print(s.reg[a as int]))
        } else {
            bad_reg
        },
        Instruction::PrintB => if is_reg(a) {
            (t, Step::PrintBinary(s.reg[a as int]))
        } else {
            bad_reg
        },
        Instruction::Color | Instruction::ColorI => {
            let ok = if ins == Instruction::Color {
                is_reg(a) && is_reg(b) && is_reg(c)
            } else {
                is_reg(a) && is_reg(b)
            };
            if !ok {
                bad_reg
            } else {
                let x = s.reg[a as int];
                let y = s.reg[b as int];
                let rgb = if ins == Instruction::Color { s.reg[c as int] } else { c };
                if x < s.width && y < s.height {
                    (
                        MachineState {
                            buf: painted(s.buf, s.width as int, x as int, y as int, rgb),
                            ..t
                        },
                        Step::Continue,
                    )
                } else {
                    (s, Step::Fault(Fault::FrameBoundsError))
                }
            }
        },
    }
}

/// One fetch-execute cycle: the byte at the pointer is decoded, its operands
/// are read, and the instruction runs, given the controller state and the
/// clock reading (in milliseconds) of this cycle.
pub open spec fn step_spec(s: MachineState, controller: u8, now_ms: u64) -> (MachineState, Step) {
    if s.ip >= s.program.len() {
        (s, Step::Fault(Fault::ProgramBoundsError))
    } else {
        let ins = opcode_table(s.program[s.ip as int]);
        let next = s.ip + 1 + operand_count_spec(ins);
        if next > s.program.len() {
            (s, Step::Fault(Fault::ProgramBoundsError))
        } else {
            let t = MachineState { ip: next as usize, ..s };
            execute(s, t, ins, s.operand(0), s.operand(1), s.operand(2), controller, now_ms)
        }
    }
}

/// A call to a routine that returns at once resumes right after the call,
/// with the return slot and the call stack as they were before the call.
pub proof fn lemma_call_then_return(s: MachineState, c1: u8, t1: u64, c2: u8, t2: u64)
    requires
        s.ip + 2 <= s.program.len(),
        s.program[s.ip as int] == 13,
        s.program[s.ip + 1] < s.program.len(),
        s.program[s.program[s.ip + 1] as int] == 14,
    ensures
        step_spec(s, c1, t1).1 == Step::Continue,
        step_spec(step_spec(s, c1, t1).0, c2, t2).1 == Step::Continue,
        step_spec(step_spec(s, c1, t1).0, c2, t2).0 == (MachineState {
            ip: (s.ip + 2) as usize,
            ..s
        }),
{
    let s1 = step_spec(s, c1, t1).0;
    assert(s1.call_stack.drop_last() =~= s.call_stack);
}

/// Nested calls unwind in order: routine A calls B, B returns into A right
/// after its call with A's return slot restored, and A's own return then
/// resumes right after the original call with the caller's state restored.
pub proof fn lemma_nested_call_return(s: MachineState, c: Seq<u8>, t: Seq<u64>)
    requires
        c.len() == 4,
        t.len() == 4,
        s.ip + 2 <= s.program.len(),
        s.program[s.ip as int] == 13,
        s.program[s.ip + 1] + 3 <= s.program.len(),
        s.program[s.program[s.ip + 1] as int] == 13,
        s.program[s.program[s.ip + 1] + 1] < s.program.len(),
        s.program[s.program[s.program[s.ip + 1] + 1] as int] == 14,
        s.program[s.program[s.ip + 1] + 2] == 14,
    ensures
        ({
            let a = s.program[s.ip + 1];
            let s1 = step_spec(s, c[0], t[0]);
            let s2 = step_spec(s1.0, c[1], t[1]);
            let s3 = step_spec(s2.0, c[2], t[2]);
            let s4 = step_spec(s3.0, c[3], t[3]);
            &&& s1.1 == Step::Continue && s2.1 == Step::Continue
            &&& s3.1 == Step::Continue && s4.1 == Step::Continue
            &&& s1.0.ip == a
            &&& s2.0.ip == s.program[a + 1]
            &&& s3.0 == (MachineState { ip: (a + 2) as usize, ..s1.0 })
            &&& s4.0 == (MachineState { ip: (s.ip + 2) as usize, ..s })
        }),
{
    let s1 = step_spec(s, c[0], t[0]).0;
    let s2 = step_spec(s1, c[1], t[1]).0;
    assert(s2.call_stack.drop_last() =~= s1.call_stack);
    assert(s1.call_stack.drop_last() =~= s.call_stack);
}

/// The delta-time jump: while less than one period has passed since the
/// reference time the jump is taken and the reference kept; once a full
/// period has passed it falls through and the reference becomes now.
pub proof fn lemma_jump_dt_gate(s: MachineState, controller: u8, now_ms: u64)
    requires
        s.ip + 2 <= s.program.len(),
        s.program[s.ip as int] == 30,
    ensures
        step_spec(s, controller, now_ms).1 == Step::Continue,
        s.last_tick_ms <= now_ms < s.last_tick_ms + s.period_ms ==> step_spec(
            s,
            controller,
            now_ms,
        ).0 == (MachineState { ip: s.program[s.ip + 1] as usize, ..s }),
        now_ms >= s.last_tick_ms + s.period_ms ==> step_spec(s, controller, now_ms).0 == (
        MachineState { ip: (s.ip + 2) as usize, last_tick_ms: now_ms, ..s }),
{
}

/// Popping an empty data stack stores zero and is no fault.
pub proof fn lemma_pop_empty(s: MachineState, controller: u8, now_ms: u64)
    requires
        s.ip + 2 <= s.program.len(),
        s.program[s.ip as int] == 29,
        is_reg(s.program[s.ip + 1]),
        s.stack.len() == 0,
    ensures
        step_spec(s, controller, now_ms) == (
            MachineState { ip: (s.ip + 2) as usize, ..s.set_reg(s.program[s.ip + 1], 0) },
            Step::Continue,
        ),
{
}

/// Division by zero stops the machine with an arithmetic fault and leaves
/// every register, and the rest of the state, unchanged.
pub proof fn lemma_div_by_zero(s: MachineState, controller: u8, now_ms: u64)
    requires
        s.ip + 4 <= s.program.len(),
        s.program[s.ip as int] == 20,
        is_reg(s.program[s.ip + 1]),
        is_reg(s.program[s.ip + 2]),
        is_reg(s.program[s.ip + 3]),
        s.reg.len() == REGISTER_COUNT,
        s.reg[s.program[s.ip + 3] as int] == 0,
    ensures
        step_spec(s, controller, now_ms) == (s, Step::Fault(Fault::ArithmeticError)),
{
}

/// Whether `r` names a register.
fn reg_ok(r: u8) -> (ok: bool)
    ensures
        ok == is_reg(r),
{
    (r as usize) < REGISTER_COUNT
}

/// A pixel inside a `width` by `height` frame starts at least four bytes
/// before the end of its RGBA buffer.
proof fn lemma_pixel_in_frame(width: int, height: int, x: int, y: int)
    requires
        0 <= x < width,
        0 <= y < height,
    ensures
        pixel_offset(width, x, y) + 4 <= width * height * 4,
{
    assert(x + y * width + 1 <= width * height) by (nonlinear_arith)
        requires
            0 <= x < width,
            0 <= y < height,
    ;
}

/// A register machine: a loaded program, its registers, data stack, call
/// discipline, flags, throttle clock and frame buffer.
pub struct VM {
    program: Vec<u8>,
    buf: Vec<u8>,
    width: usize,
    height: usize,
    period_ms: u64,
    last_tick_ms: u64,
    stack: Vec<u8>,
    call_stack: Vec<Option<usize>>,
    reg: [u8; 64],
    ip: usize,
    ret: Option<usize>,
    e: bool,
    z: bool,
}

impl View for VM {
    type V = MachineState;

    closed spec fn view(&self) -> MachineState {
        MachineState {
            program: self.program@,
            buf: self.buf@,
            width: self.width,
            height: self.height,
            period_ms: self.period_ms,
            last_tick_ms: self.last_tick_ms,
            stack: self.stack@,
            call_stack: self.call_stack@,
            reg: self.reg@,
            ip: self.ip,
            ret: self.ret,
            equal: self.e,
            zero: self.z,
        }
    }
}

impl VM {
    pub open spec fn wf(&self) -> bool {
        self@.wf()
    }

    /// A machine with an empty program, a black `width` by `height` frame,
    /// zeroed registers, empty stacks, cleared flags, and a throttle period of
    /// `1000 / cpu_freq` milliseconds whose clock starts at zero.
    pub fn new(width: usize, height: usize, cpu_freq: u8) -> (r: VM)
        requires
            width * height * 4 <= usize::MAX,
        ensures
            r.wf(),
            r@.program == Seq::<u8>::empty(),
            r@.buf == Seq::new((width * height * 4) as nat, |i: int| 0u8),
            r@.width == width,
            r@.height == height,
            r@.period_ms == period_of(cpu_freq),
            r@.last_tick_ms == 0,
            r@.stack == Seq::<u8>::empty(),
            r@.call_stack == Seq::<Option<usize>>::empty(),
            r@.reg == Seq::new(REGISTER_COUNT as nat, |i: int| 0u8),
            r@.ip == 0,
            r@.ret is None,
            !r@.equal,
            !r@.zero,
    {
        let period_ms: u64 = if cpu_freq == 0 {
            u64::MAX
        } else {
            1000u64 / (cpu_freq as u64)
        };
        let r = VM {
            program: Vec::new(),
            buf: vec![0u8; width * height * 4],
            width,
            height,
            period_ms,
            last_tick_ms: 0,
            stack: Vec::new(),
            call_stack: Vec::new(),
            reg: [0u8; 64],
            ip: 0,
            ret: None,
            e: false,
            z: false,
        };
        assert(r.buf@ =~= Seq::new((width * height * 4) as nat, |i: int| 0u8));
        assert(r.reg@ =~= Seq::new(REGISTER_COUNT as nat, |i: int| 0u8));
        r
    }

    /// Loads `program` and places the instruction pointer at its first byte;
    /// the throttle clock restarts at zero. The rest of the state is kept.
    pub fn interpret(&mut self, program: Vec<u8>)
        requires
            old(self).wf(),
        ensures
            final(self).wf(),
            final(self)@ == (MachineState {
                program: program@,
                ip: 0,
                last_tick_ms: 0,
                ..old(self)@
            }),
    {
        self.program = program;
        self.ip = 0;
        self.last_tick_ms = 0;
    }

    /// The current frame buffer, row-major RGBA.
    pub fn frame(&self) -> (r: &Vec<u8>)
        ensures
            r@ == self@.buf,
    {
        &self.buf
    }

    /// The instruction pointer.
    pub fn ip(&self) -> (r: usize)
        ensures
            r == self@.ip,
    {
        self.ip
    }

    /// The value of register `r`, or `None` when `r` names no register.
    pub fn register(&self, r: usize) -> (v: Option<u8>)
        requires
            self.wf(),
        ensures
            r < REGISTER_COUNT ==> v == Some(self@.reg[r as int]),
            r >= REGISTER_COUNT ==> v is None,
    {
        if r < REGISTER_COUNT {
            Some(self.reg[r])
        } else {
            None
        }
    }

    /// The number of values on the data stack.
    pub fn stack_len(&self) -> (r: usize)
        ensures
            r == self@.stack.len(),
    {
        self.stack.len()
    }

    /// Operand byte `k` of the instruction at the pointer, or zero past the end.
    fn fetch(&self, k: usize) -> (r: u8)
        requires
            k <= 2,
        ensures
            r == self@.operand(k as int),
    {
        let len = self.program.len();
        if self.ip < len && k < len - self.ip - 1 {
            self.program[self.ip + 1 + k]
        } else {
            0
        }
    }

    /// Runs one fetch-execute cycle with the controller state and the clock
    /// reading of this cycle, and says what the host has to do next.
    pub fn step(&mut self, controller: u8, now_ms: u64) -> (r: Step)
        requires
            old(self).wf(),
        ensures
            final(self).wf(),
            (final(self)@, r) == step_spec(old(self)@, controller, now_ms),
    {
        let len = self.program.len();
        if self.ip >= len {
            return Step::Fault(Fault::ProgramBoundsError);
        }
        let ins = Instruction::decode(self.program[self.ip]);
        let n = ins.operand_count();
        if n > len - self.ip - 1 {
            return Step::Fault(Fault::ProgramBoundsError);
        }
        let a = self.fetch(0);
        let b = self.fetch(1);
        let c = self.fetch(2);
        let next = self.ip + 1 + n;
        self.execute(ins, a, b, c, next, controller, now_ms)
    }

    fn execute(
        &mut self,
        ins: Instruction,
        a: u8,
        b: u8,
        c: u8,
        next: usize,
        controller: u8,
        now_ms: u64,
    ) -> (r: Step)
        requires
            old(self).wf(),
        ensures
            final(self).wf(),
            (final(self)@, r) == execute(
                old(self)@,
                MachineState { ip: next, ..old(self)@ },
                ins,
                a,
                b,
                c,
                controller,
                now_ms,
            ),
    {
        match ins {
            Instruction::Halt | Instruction::Illegal | Instruction::Nop | Instruction::Draw
            | Instruction::Jump | Instruction::Jeq | Instruction::Jneq | Instruction::Jz
            | Instruction::Jnz | Instruction::JumpDt => {
                self.exec_control(ins, a, b, c, next, controller, now_ms)
            },
            Instruction::Call | Instruction::Ret => {
                self.exec_calls(ins, a, b, c, next, controller, now_ms)
            },
            Instruction::LoadI | Instruction::LoadR | Instruction::Comp | Instruction::Inc
            | Instruction::Dec | Instruction::Input | Instruction::Print | Instruction::PrintB => {
                self.exec_regs(ins, a, b, c, next, controller, now_ms)
            },
            Instruction::Add | Instruction::Sub | Instruction::Mul | Instruction::Div => {
                self.exec_arith(ins, a, b, c, next, controller, now_ms)
            },
            Instruction::And | Instruction::Or | Instruction::Xor | Instruction::AndI => {
                self.exec_logic(ins, a, b, c, next, controller, now_ms)
            },
            Instruction::Push | Instruction::Pop => {
                self.exec_stack(ins, a, b, c, next, controller, now_ms)
            },
            Instruction::Color | Instruction::ColorI => {
                self.exec_color(ins, a, b, c, next, controller, now_ms)
            },
        }
    }

    /// Halting, decoding failures, no-ops, draws and jumps.
    fn exec_control(
        &mut self,
        ins: Instruction,
        a: u8,
        b: u8,
        c: u8,
        next: usize,
        controller: u8,
        now_ms: u64,
    ) -> (r: Step)
        requires
            old(self).wf(),
            ins is Halt || ins is Illegal || ins is Nop || ins is Draw || ins is Jump
                || ins is Jeq || ins is Jneq || ins is Jz || ins is Jnz || ins is JumpDt,
        ensures
            final(self).wf(),
            (final(self)@, r) == execute(
                old(self)@,
                MachineState { ip: next, ..old(self)@ },
                ins,
                a,
                b,
                c,
                controller,
                now_ms,
            ),
    {
        match ins {
            Instruction::Halt => Step::Halted,
            Instruction::Illegal => Step::Fault(Fault::DecodeError),
            Instruction::Nop => {
                self.ip = next;
                Step::Continue
            },
            Instruction::Draw => {
                self.ip = next;
                Step::Draw
            },
            Instruction::Jump | Instruction::Jeq | Instruction::Jneq | Instruction::Jz
            | Instruction::Jnz => {
                let taken = match ins {
                    Instruction::Jump => true,
                    Instruction::Jeq => self.e,
                    Instruction::Jneq => !self.e,
                    Instruction::Jz => self.z,
                    _ => !self.z,
                };
                self.ip = if taken { a as usize } else { next };
                Step::Continue
            },
            Instruction::JumpDt => {
                if now_ms < self.last_tick_ms || now_ms - self.last_tick_ms < self.period_ms {
                    self.ip = a as usize;
                } else {
                    self.last_tick_ms = now_ms;
                    self.ip = next;
                }
                Step::Continue
            },
            // ruled out by the precondition
            _ => Step::Continue,
        }
    }

    /// The call discipline.
    fn exec_calls(
        &mut self,
        ins: Instruction,
        a: u8,
        b: u8,
        c: u8,
        next: usize,
        controller: u8,
        now_ms: u64,
    ) -> (r: Step)
        requires
            old(self).wf(),
            ins is Call || ins is Ret,
        ensures
            final(self).wf(),
            (final(self)@, r) == execute(
                old(self)@,
                MachineState { ip: next, ..old(self)@ },
                ins,
                a,
                b,
                c,
                controller,
                now_ms,
            ),
    {
        match ins {
            Instruction::Call => {
                self.call_stack.push(self.ret);
                self.ret = Some(next);
                self.ip = a as usize;
                Step::Continue
            },
            Instruction::Ret => {
                match self.ret {
                    Some(caller) => {
                        let saved = match self.call_stack.pop() {
                            Some(slot) => slot,
                            None => None,
                        };
                        self.ip = caller;
                        self.ret = saved;
                        Step::Continue
                    },
                    None => Step::Fault(Fault::CallStackError),
                }
            },
            // ruled out by the precondition
            _ => Step::Continue,
        }
    }

    /// Loads, comparison, increments, input and prints.
    fn exec_regs(
        &mut self,
        ins: Instruction,
        a: u8,
        b: u8,
        c: u8,
        next: usize,
        controller: u8,
        now_ms: u64,
    ) -> (r: Step)
        requires
            old(self).wf(),
            ins is LoadI || ins is LoadR || ins is Comp || ins is Inc || ins is Dec
                || ins is Input || ins is Print || ins is PrintB,
        ensures
            final(self).wf(),
            (final(self)@, r) == execute(
                old(self)@,
                MachineState { ip: next, ..old(self)@ },
                ins,
                a,
                b,
                c,
                controller,
                now_ms,
            ),
    {
        match ins {
            Instruction::LoadI => {
                if !reg_ok(a) {
                    return Step::Fault(Fault::RegisterRangeError);
                }
                self.reg[a as usize] = b;
                self.ip = next;
                Step::Continue
            },
            Instruction::LoadR => {
                if !(reg_ok(a) && reg_ok(b)) {
                    return Step::Fault(Fault::RegisterRangeError);
                }
                self.reg[a as usize] = self.reg[b as usize];
                self.ip = next;
                Step::Continue
            },
            Instruction::Comp => {
                if !(reg_ok(a) && reg_ok(b)) {
                    return Step::Fault(Fault::RegisterRangeError);
                }
                self.e = self.reg[a as usize] == self.reg[b as usize];
                self.ip = next;
                Step::Continue
            },
            Instruction::Inc | Instruction::Dec => {
                if !reg_ok(a) {
                    return Step::Fault(Fault::RegisterRangeError);
                }
                let x = self.reg[a as usize];
                self.reg[a as usize] = if ins == Instruction::Inc {
                    x.wrapping_add(1)
                } else {
                    x.wrapping_sub(1)
                };
                self.ip = next;
                Step::Continue
            },
            Instruction::Input => {
                if !reg_ok(a) {
                    return Step::Fault(Fault::RegisterRangeError);
                }
                self.reg[a as usize] = controller;
                self.ip = next;
                Step::Continue
            },
            Instruction::Print | Instruction::PrintB => {
                if !reg_ok(a) {
                    return Step::Fault(Fault::RegisterRangeError);
                }
                let v = self.reg[a as usize];
                self.ip = next;
                if ins == Instruction::Print {
                    Step::Print(v)
                } else {
                    Step::PrintBinary(v)
                }
            },
            // ruled out by the precondition
            _ => Step::Continue,
        }
    }

    /// Wrapping arithmetic and division.
    fn exec_arith(
        &mut self,
        ins: Instruction,
        a: u8,
        b: u8,
        c: u8,
        next: usize,
        controller: u8,
        now_ms: u64,
    ) -> (r: Step)
        requires
            old(self).wf(),
            ins is Add || ins is Sub || ins is Mul || ins is Div,
        ensures
            final(self).wf(),
            (final(self)@, r) == execute(
                old(self)@,
                MachineState { ip: next, ..old(self)@ },
                ins,
                a,
                b,
                c,
                controller,
                now_ms,
            ),
    {
        match ins {
            Instruction::Add | Instruction::Sub | Instruction::Mul | Instruction::Div => {
                if !(reg_ok(a) && reg_ok(b) && reg_ok(c)) {
                    return Step::Fault(Fault::RegisterRangeError);
                }
                let x = self.reg[b as usize];
                let y = self.reg[c as usize];
                let v: u8 = match ins {
                    Instruction::Add => x.wrapping_add(y),
                    Instruction::Sub => x.wrapping_sub(y),
                    Instruction::Mul => x.wrapping_mul(y),
                    _ => {
                        if y == 0 {
                            return Step::Fault(Fault::ArithmeticError);
                        }
                        x / y
                    },
                };
                self.reg[a as usize] = v;
                self.ip = next;
                Step::Continue
            },
            // ruled out by the precondition
            _ => Step::Continue,
        }
    }

    /// Bitwise operations, which set the zero flag.
    fn exec_logic(
        &mut self,
        ins: Instruction,
        a: u8,
        b: u8,
        c: u8,
        next: usize,
        controller: u8,
        now_ms: u64,
    ) -> (r: Step)
        requires
            old(self).wf(),
            ins is And || ins is Or || ins is Xor || ins is AndI,
        ensures
            final(self).wf(),
            (final(self)@, r) == execute(
                old(self)@,
                MachineState { ip: next, ..old(self)@ },
                ins,
                a,
                b,
                c,
                controller,
                now_ms,
            ),
    {
        match ins {
            Instruction::And | Instruction::Or | Instruction::Xor => {
                if !(reg_ok(a) && reg_ok(b) && reg_ok(c)) {
                    return Step::Fault(Fault::RegisterRangeError);
                }
                let x = self.reg[b as usize];
                let y = self.reg[c as usize];
                let v: u8 = match ins {
                    Instruction::And => x & y,
                    Instruction::Or => x | y,
                    _ => x ^ y,
                };
                self.reg[a as usize] = v;
                self.z = v == 0;
                self.ip = next;
                Step::Continue
            },
            Instruction::AndI => {
                if !(reg_ok(a) && reg_ok(b)) {
                    return Step::Fault(Fault::RegisterRangeError);
                }
                let v = self.reg[b as usize] & c;
                self.reg[a as usize] = v;
                self.z = v == 0;
                self.ip = next;
                Step::Continue
            },
            // ruled out by the precondition
            _ => Step::Continue,
        }
    }

    /// The data stack.
    fn exec_stack(
        &mut self,
        ins: Instruction,
        a: u8,
        b: u8,
        c: u8,
        next: usize,
        controller: u8,
        now_ms: u64,
    ) -> (r: Step)
        requires
            old(self).wf(),
            ins is Push || ins is Pop,
        ensures
            final(self).wf(),
            (final(self)@, r) == execute(
                old(self)@,
                MachineState { ip: next, ..old(self)@ },
                ins,
                a,
                b,
                c,
                controller,
                now_ms,
            ),
    {
        match ins {
            Instruction::Push => {
                if !reg_ok(a) {
                    return Step::Fault(Fault::RegisterRangeError);
                }
                self.stack.push(self.reg[a as usize]);
                self.ip = next;
                Step::Continue
            },
            Instruction::Pop => {
                if !reg_ok(a) {
                    return Step::Fault(Fault::RegisterRangeError);
                }
                let v = match self.stack.pop() {
                    Some(v) => v,
                    None => 0,
                };
                self.reg[a as usize] = v;
                self.ip = next;
                Step::Continue
            },
            // ruled out by the precondition
            _ => Step::Continue,
        }
    }

    /// Pixel writes.
    fn exec_color(
        &mut self,
        ins: Instruction,
        a: u8,
        b: u8,
        c: u8,
        next: usize,
        controller: u8,
        now_ms: u64,
    ) -> (r: Step)
        requires
            old(self).wf(),
            ins is Color || ins is ColorI,
        ensures
            final(self).wf(),
            (final(self)@, r) == execute(
                old(self)@,
                MachineState { ip: next, ..old(self)@ },
                ins,
                a,
                b,
                c,
                controller,
                now_ms,
            ),
    {
        match ins {
            Instruction::Color | Instruction::ColorI => {
                let ok = if ins == Instruction::Color {
                    reg_ok(a) && reg_ok(b) && reg_ok(c)
                } else {
                    reg_ok(a) && reg_ok(b)
                };
                if !ok {
                    return Step::Fault(Fault::RegisterRangeError);
                }
                let x = self.reg[a as usize];
                let y = self.reg[b as usize];
                let rgb = if ins == Instruction::Color {
                    self.reg[c as usize]
                } else {
                    c
                };
                if !((x as usize) < self.width && (y as usize) < self.height) {
                    return Step::Fault(Fault::FrameBoundsError);
                }
                proof {
                    lemma_pixel_in_frame(self.width as int, self.height as int, x as int, y as int);
                }
                display::set(self.buf.as_mut_slice(), self.width, x as usize, y as usize, rgb);
                self.ip = next;
                Step::Continue
            },
            // ruled out by the precondition
            _ => Step::Continue,
        }
    }
}

} // verus!
