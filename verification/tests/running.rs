use minic::assembly::{BinaryOperator, Instruction, Operand, Register, UnaryOperator};
use minic::parser::{parse, TokenStream};
use minic::pipeline::{assemble, program_fits};
use std::collections::HashMap;

/// The registers and the frame of a machine that runs one function.
struct Machine {
    ax: i32,
    dx: i32,
    r10: i32,
    r11: i32,
    frame: HashMap<i64, i32>,
    frame_size: i64,
}

impl Machine {
    fn read(&self, operand: &Operand) -> i32 {
        match operand {
            Operand::Imm(value) => *value as i32,
            Operand::Register(Register::AX) => self.ax,
            Operand::Register(Register::DX) => self.dx,
            Operand::Register(Register::R10) => self.r10,
            Operand::Register(Register::R11) => self.r11,
            Operand::Stack(offset) => {
                assert!(-self.frame_size <= *offset && *offset <= -4);
                *self.frame.get(offset).expect("a slot is read before it is written")
            }
            Operand::Pseudo(name) => panic!("pseudo register {} is left", name),
        }
    }

    fn write(&mut self, operand: &Operand, value: i32) {
        match operand {
            Operand::Imm(_) => panic!("an immediate is written"),
            Operand::Register(Register::AX) => self.ax = value,
            Operand::Register(Register::DX) => self.dx = value,
            Operand::Register(Register::R10) => self.r10 = value,
            Operand::Register(Register::R11) => self.r11 = value,
            Operand::Stack(offset) => {
                assert!(-self.frame_size <= *offset && *offset <= -4);
                self.frame.insert(*offset, value);
            }
            Operand::Pseudo(name) => panic!("pseudo register {} is left", name),
        }
    }
}

/// Runs the instructions as the machine would and gives the exit code of the process: the low
/// eight bits of what the function returns.
fn run(instructions: &[Instruction]) -> u8 {
    let mut machine = Machine { ax: 0, dx: 0, r10: 0, r11: 0, frame: HashMap::new(), frame_size: 0 };
    for instruction in instructions {
        match instruction {
            Instruction::AllocateStack(size) => machine.frame_size += size,
            Instruction::Mov { src, dest } => {
                assert!(!(matches!(src, Operand::Stack(_)) && matches!(dest, Operand::Stack(_))));
                let value = machine.read(src);
                machine.write(dest, value);
            }
            Instruction::Unary(operator, operand) => {
                let value = machine.read(operand);
                let result = match operator {
                    UnaryOperator::Neg => value.wrapping_neg(),
                    UnaryOperator::Not => !value,
                };
                machine.write(operand, result);
            }
            Instruction::Binary(operator, src, dest) => {
                match operator {
                    BinaryOperator::Mul => assert!(!matches!(dest, Operand::Stack(_))),
                    _ => assert!(!(matches!(src, Operand::Stack(_)) && matches!(dest, Operand::Stack(_)))),
                }
                let right = machine.read(src);
                let left = machine.read(dest);
                let result = match operator {
                    BinaryOperator::Add => left.wrapping_add(right),
                    BinaryOperator::Sub => left.wrapping_sub(right),
                    BinaryOperator::Mul => left.wrapping_mul(right),
                };
                machine.write(dest, result);
            }
            Instruction::Cdq => machine.dx = if machine.ax < 0 { -1 } else { 0 },
            Instruction::Idiv(operand) => {
                assert!(!matches!(operand, Operand::Imm(_)));
                let dividend = ((machine.dx as i64) << 32) | (machine.ax as u32 as i64);
                let divisor = machine.read(operand) as i64;
                machine.ax = (dividend / divisor) as i32;
                machine.dx = (dividend % divisor) as i32;
            }
            Instruction::Ret => return machine.ax as u8,
        }
    }
    panic!("the function does not return");
}

fn exit_code(expression: &str) -> u8 {
    let source = format!("int main(void) {{ return {}; }}", expression);
    let program = parse(&mut TokenStream::from_source(&source)).unwrap();
    assert!(program_fits(&program));
    run(assemble(&program).function().instructions())
}

#[test]
fn return_two_exits_with_two() {
    assert_eq!(exit_code("2"), 2);
}

#[test]
fn return_minus_five_exits_with_251() {
    assert_eq!(exit_code("-5"), 251);
}

#[test]
fn three_plus_four_times_two_exits_with_eleven() {
    assert_eq!(exit_code("3 + 4 * 2"), 11);
}

#[test]
fn seven_divided_by_two_exits_with_three() {
    assert_eq!(exit_code("7 / 2"), 3);
}

#[test]
fn seven_modulo_two_exits_with_one() {
    assert_eq!(exit_code("7 % 2"), 1);
}

#[test]
fn complement_and_negation() {
    assert_eq!(exit_code("~0"), 255);
    assert_eq!(exit_code("~(-6)"), 5);
    assert_eq!(exit_code("-(-7)"), 7);
    assert_eq!(exit_code("~~12"), 12);
}

#[test]
fn division_truncates_toward_zero() {
    assert_eq!(exit_code("-7 / 2"), 253);
    assert_eq!(exit_code("-7 % 2"), 255);
    assert_eq!(exit_code("7 / -2"), 253);
    assert_eq!(exit_code("7 % -2"), 1);
}

#[test]
fn operands_keep_their_sides() {
    assert_eq!(exit_code("10 - 3"), 7);
    assert_eq!(exit_code("3 - 10"), 249);
    assert_eq!(exit_code("100 / 7"), 14);
    assert_eq!(exit_code("(10 - 3) - (1 - 5)"), 11);
    assert_eq!(exit_code("(20 / 2) / (9 / 3)"), 3);
    assert_eq!(exit_code("(20 % 7) * (9 - 3)"), 36);
}

#[test]
fn many_temporaries_do_not_disturb_one_another() {
    assert_eq!(exit_code("1 - 2 * (3 / 4 % 5) + ~(-6) * 7"), 36);
    assert_eq!(exit_code("(1 + 2) * -3 / 2 % 5"), 252);
    assert_eq!(exit_code("((1 + 2) * (3 + 4)) - ((5 - 6) * (7 + 8)) + 9 / (2 + 1)"), 39);
}
