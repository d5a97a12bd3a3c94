use zen::display::FrameSlot;
use zen::instruction::Instruction;
use zen::vm::{Fault, Step, VM};

fn machine(program: Vec<u8>) -> VM {
    let mut vm = VM::new(160, 144, 10);
    vm.interpret(program);
    vm
}

/// Runs until the machine halts or faults, collecting every step.
fn run_all(vm: &mut VM, controller: u8) -> Vec<Step> {
    let mut steps = Vec::new();
    for _ in 0..1000 {
        let s = vm.step(controller, 0);
        steps.push(s);
        match s {
            Step::Halted | Step::Fault(_) => return steps,
            _ => {}
        }
    }
    panic!("program did not stop");
}

fn last(steps: &[Step]) -> Step {
    *steps.last().unwrap()
}

fn printed(steps: &[Step]) -> Vec<u8> {
    steps
        .iter()
        .filter_map(|s| match s {
            Step::Print(v) => Some(*v),
            _ => None,
        })
        .collect()
}

#[test]
fn decode_table() {
    let table = [
        Instruction::Halt,
        Instruction::LoadI,
        Instruction::Add,
        Instruction::Print,
        Instruction::Nop,
        Instruction::Jump,
        Instruction::LoadR,
        Instruction::Jeq,
        Instruction::Comp,
        Instruction::Jneq,
        Instruction::Color,
        Instruction::Inc,
        Instruction::Dec,
        Instruction::Call,
        Instruction::Ret,
        Instruction::Input,
        Instruction::And,
        Instruction::Xor,
        Instruction::Or,
        Instruction::Sub,
        Instruction::Div,
        Instruction::Mul,
        Instruction::Jz,
        Instruction::Jnz,
        Instruction::PrintB,
        Instruction::AndI,
        Instruction::ColorI,
        Instruction::Draw,
        Instruction::Push,
        Instruction::Pop,
        Instruction::JumpDt,
    ];
    for (b, ins) in table.iter().enumerate() {
        assert_eq!(Instruction::decode(b as u8), *ins);
        assert_eq!(Instruction::from(b as u8), *ins);
    }
    for b in 31..=255u8 {
        assert_eq!(Instruction::decode(b), Instruction::Illegal);
    }
}

#[test]
fn operand_counts() {
    assert_eq!(Instruction::Halt.operand_count(), 0);
    assert_eq!(Instruction::Jump.operand_count(), 1);
    assert_eq!(Instruction::LoadI.operand_count(), 2);
    assert_eq!(Instruction::ColorI.operand_count(), 3);
}

#[test]
fn add_wraps() {
    let mut vm = machine(vec![1, 0, 250, 1, 1, 10, 2, 2, 0, 1, 3, 2, 0]);
    let steps = run_all(&mut vm, 0);
    assert_eq!(printed(&steps), vec![4]);
    assert_eq!(last(&steps), Step::Halted);
    assert_eq!(vm.register(2), Some(4));
}

#[test]
fn sub_mul_inc_dec_wrap() {
    // r0 = 3, r1 = 5, r2 = r0 - r1, r3 = 16, r4 = r3 * r3, r5 = 255, inc r5, dec r6
    let mut vm = machine(vec![
        1, 0, 3, 1, 1, 5, 19, 2, 0, 1, 1, 3, 16, 21, 4, 3, 3, 1, 5, 255, 11, 5, 12, 6, 0,
    ]);
    let steps = run_all(&mut vm, 0);
    assert_eq!(last(&steps), Step::Halted);
    assert_eq!(vm.register(2), Some(254));
    assert_eq!(vm.register(4), Some(0));
    assert_eq!(vm.register(5), Some(0));
    assert_eq!(vm.register(6), Some(255));
}

#[test]
fn division_truncates() {
    let mut vm = machine(vec![1, 0, 17, 1, 1, 5, 20, 2, 0, 1, 0]);
    let steps = run_all(&mut vm, 0);
    assert_eq!(last(&steps), Step::Halted);
    assert_eq!(vm.register(2), Some(3));
}

#[test]
fn division_by_zero_faults_without_writing() {
    let mut vm = machine(vec![1, 0, 5, 1, 1, 0, 1, 2, 77, 20, 2, 0, 1, 0]);
    let steps = run_all(&mut vm, 0);
    assert_eq!(last(&steps), Step::Fault(Fault::ArithmeticError));
    assert_eq!(vm.register(2), Some(77));
    assert_eq!(vm.ip(), 9);
    assert_eq!(vm.step(0, 0), Step::Fault(Fault::ArithmeticError));
}

#[test]
fn bitwise_ops_set_zero_flag() {
    // r0 = 0b1010, r1 = 0b0101, r2 = r0 & r1 (zero) -> Jz 16 skips Print r2
    let mut vm = machine(vec![1, 0, 10, 1, 1, 5, 16, 2, 0, 1, 22, 15, 3, 2, 0, 18, 3, 0, 1, 3, 3, 0]);
    let steps = run_all(&mut vm, 0);
    assert_eq!(printed(&steps), vec![15]);
    assert_eq!(vm.register(2), Some(0));
}

#[test]
fn xor_and_and_immediate() {
    // r0 = 0b1100, r1 = r0 ^ r0 = 0, r2 = r0 & 0b0100 = 4 -> Jnz to Print r2
    let mut vm = machine(vec![1, 0, 12, 17, 1, 0, 0, 25, 2, 0, 4, 23, 16, 3, 1, 0, 3, 2, 0]);
    let steps = run_all(&mut vm, 0);
    assert_eq!(printed(&steps), vec![4]);
}

#[test]
fn compare_and_branch() {
    // r0 = 7, r1 = 7, Comp r0 r1, Jeq 13, Print r0, Halt, (13) LoadR r2 r0, Print r2, Jneq 0, Halt
    let mut vm = machine(vec![1, 0, 7, 1, 1, 7, 8, 0, 1, 7, 14, 3, 0, 0, 6, 2, 0, 3, 2, 9, 0, 0]);
    let steps = run_all(&mut vm, 0);
    assert_eq!(printed(&steps), vec![7]);
    assert_eq!(last(&steps), Step::Halted);
    assert_eq!(vm.ip(), 21);
}

#[test]
fn call_then_return_resumes_after_call() {
    // 0: Call 6; 2: Print r0; 4: Halt; 5: Nop; 6: Ret
    let mut vm = machine(vec![13, 6, 3, 0, 0, 4, 14]);
    assert_eq!(vm.step(0, 0), Step::Continue);
    assert_eq!(vm.ip(), 6);
    assert_eq!(vm.step(0, 0), Step::Continue);
    assert_eq!(vm.ip(), 2);
    assert_eq!(vm.step(0, 0), Step::Print(0));
    assert_eq!(vm.step(0, 0), Step::Halted);
}

#[test]
fn nested_call_return() {
    // 0: LoadI r0 1; 3: LoadI r1 2; 6: Call 12; 8: Print r0; 10: Halt; 11: Nop
    // 12: Call 20; 14: Print r1; 16: Ret; 17..19: Nop; 20: Ret
    let mut vm = machine(vec![
        1, 0, 1, 1, 1, 2, 13, 12, 3, 0, 0, 4, 13, 20, 3, 1, 14, 4, 4, 4, 14,
    ]);
    let expected = [
        (Step::Continue, 3),
        (Step::Continue, 6),
        (Step::Continue, 12),
        (Step::Continue, 20),
        (Step::Continue, 14),
        (Step::Print(2), 16),
        (Step::Continue, 8),
        (Step::Print(1), 10),
        (Step::Halted, 10),
    ];
    for (step, ip) in expected.iter() {
        assert_eq!(vm.step(0, 0), *step);
        assert_eq!(vm.ip(), *ip);
    }
}

#[test]
fn return_without_call_faults() {
    let mut vm = machine(vec![14]);
    assert_eq!(vm.step(0, 0), Step::Fault(Fault::CallStackError));
    assert_eq!(vm.ip(), 0);
}

#[test]
fn jump_dt_throttles_to_period() {
    // period is 1000 / 10 = 100 ms; 0: JumpDt 0; 2: Jump 0
    let mut vm = machine(vec![30, 0, 5, 0]);
    assert_eq!(vm.step(0, 50), Step::Continue);
    assert_eq!(vm.ip(), 0);
    assert_eq!(vm.step(0, 99), Step::Continue);
    assert_eq!(vm.ip(), 0);
    assert_eq!(vm.step(0, 100), Step::Continue);
    assert_eq!(vm.ip(), 2);
    assert_eq!(vm.step(0, 120), Step::Continue);
    assert_eq!(vm.ip(), 0);
    // the reference time is now 100
    assert_eq!(vm.step(0, 150), Step::Continue);
    assert_eq!(vm.ip(), 0);
    assert_eq!(vm.step(0, 199), Step::Continue);
    assert_eq!(vm.ip(), 0);
    assert_eq!(vm.step(0, 200), Step::Continue);
    assert_eq!(vm.ip(), 2);
}

#[test]
fn jump_dt_with_zero_frequency_always_jumps() {
    let mut vm = VM::new(1, 1, 0);
    vm.interpret(vec![30, 0, 0]);
    assert_eq!(vm.step(0, u64::MAX - 1), Step::Continue);
    assert_eq!(vm.ip(), 0);
}

#[test]
fn pop_on_empty_stack_yields_zero() {
    let mut vm = machine(vec![1, 0, 9, 29, 0, 3, 0, 0]);
    let steps = run_all(&mut vm, 0);
    assert_eq!(printed(&steps), vec![0]);
    assert_eq!(last(&steps), Step::Halted);
}

#[test]
fn push_then_pop_is_lifo() {
    // r0 = 1, r1 = 2, Push r0, Push r1, Pop r2, Pop r3, Print r2, Print r3
    let mut vm = machine(vec![1, 0, 1, 1, 1, 2, 28, 0, 28, 1, 29, 2, 29, 3, 3, 2, 3, 3, 0]);
    let steps = run_all(&mut vm, 0);
    assert_eq!(printed(&steps), vec![2, 1]);
    assert_eq!(vm.stack_len(), 0);
}

#[test]
fn input_reads_controller() {
    let mut vm = machine(vec![15, 4, 3, 4, 24, 4, 0]);
    let steps = run_all(&mut vm, 0b101);
    assert_eq!(printed(&steps), vec![5]);
    assert!(steps.contains(&Step::PrintBinary(5)));
}

#[test]
fn illegal_opcode_is_decode_error() {
    let mut vm = machine(vec![4, 31]);
    assert_eq!(vm.step(0, 0), Step::Continue);
    assert_eq!(vm.step(0, 0), Step::Fault(Fault::DecodeError));
}

#[test]
fn running_off_the_program_is_bounds_error() {
    let mut vm = machine(vec![]);
    assert_eq!(vm.step(0, 0), Step::Fault(Fault::ProgramBoundsError));
    let mut vm = machine(vec![1, 0]);
    assert_eq!(vm.step(0, 0), Step::Fault(Fault::ProgramBoundsError));
    assert_eq!(vm.register(0), Some(0));
}

#[test]
fn register_out_of_range_faults() {
    let mut vm = machine(vec![1, 64, 1]);
    assert_eq!(vm.step(0, 0), Step::Fault(Fault::RegisterRangeError));
    assert_eq!(vm.register(64), None);
}

#[test]
fn pixel_outside_frame_faults() {
    // r0 = 160, r1 = 0, ColorI r0 r1 0xff
    let mut vm = machine(vec![1, 0, 160, 26, 0, 1, 255]);
    assert_eq!(vm.step(0, 0), Step::Continue);
    assert_eq!(vm.step(0, 0), Step::Fault(Fault::FrameBoundsError));
    assert!(vm.frame().iter().all(|b| *b == 0));
}

#[test]
fn color_from_register() {
    // r0 = 1, r1 = 2, r2 = 0b00000011, Color r0 r1 r2, Halt on a 4 x 3 frame
    let mut vm = VM::new(4, 3, 10);
    vm.interpret(vec![1, 0, 1, 1, 1, 2, 1, 2, 3, 10, 0, 1, 2, 0]);
    let steps = run_all(&mut vm, 0);
    assert_eq!(last(&steps), Step::Halted);
    let i = (1 + 2 * 4) * 4;
    assert_eq!(&vm.frame()[i..i + 4], &[0, 0, 255, 255]);
    assert_eq!(vm.frame().len(), 48);
}

#[test]
fn end_to_end_single_pixel_frame() {
    let mut vm = machine(vec![1, 0, 0, 1, 1, 0, 26, 0, 1, 0b11100011, 27, 0]);
    let mut slot = FrameSlot::new();
    let mut frames = 0;
    loop {
        match vm.step(0, 0) {
            Step::Continue => {}
            Step::Draw => {
                frames += 1;
                slot.put(vm.frame().clone());
            }
            Step::Halted => break,
            other => panic!("unexpected {:?}", other),
        }
    }
    assert_eq!(frames, 1);
    let frame = slot.take().unwrap();
    assert_eq!(frame.len(), 160 * 144 * 4);
    assert_eq!(&frame[0..4], &[252, 0, 255, 255]);
    assert!(frame[4..].iter().all(|b| *b == 0));
    assert!(slot.take().is_none());
}
