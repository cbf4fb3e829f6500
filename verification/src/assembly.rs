//! Assembly programs. One type serves before and after storage is laid out:
//! an operand may name a pseudo register, which stands for a stack slot that
//! has not been chosen yet.

use vstd::prelude::*;
use vstd::string::*;

verus! {

/// An assembly program: exactly one function.
#[derive(Debug)]
pub struct Program {
    function: Function,
}

/// What a [`Program`] holds.
pub struct ProgramView {
    pub function: FunctionView,
}

impl View for Program {
    type V = ProgramView;

    closed spec fn view(&self) -> ProgramView {
        ProgramView { function: self.function@ }
    }
}

impl Program {
    pub fn new(function: Function) -> (program: Program)
        ensures
            program@ == (ProgramView { function: function@ }),
    {
        Program { function }
    }

    pub fn from_function(function: Function) -> (program: Program)
        ensures
            program@ == (ProgramView { function: function@ }),
    {
        Self { function }
    }

    pub fn function(&self) -> (function: &Function)
        ensures
            function@ == self@.function,
    {
        &self.function
    }

    pub fn into_function(self) -> (function: Function)
        ensures
            function@ == self@.function,
    {
        self.function
    }
}

/// An assembly function: its name and its instructions.
#[derive(Debug)]
pub struct Function {
    name: String,
    instructions: Vec<Instruction>,
}

/// What a [`Function`] holds.
pub struct FunctionView {
    pub name: Seq<char>,
    pub instructions: Seq<InstructionView>,
}

impl View for Function {
    type V = FunctionView;

    closed spec fn view(&self) -> FunctionView {
        FunctionView { name: self.name@, instructions: instruction_views(self.instructions@) }
    }
}

impl Function {
    pub fn new(name: String, instructions: Vec<Instruction>) -> (function: Function)
        ensures
            function@ == (FunctionView {
                name: name@,
                instructions: instruction_views(instructions@),
            }),
    {
        Function { name, instructions }
    }

    pub fn name(&self) -> (name: &str)
        ensures
            name@ == self@.name,
    {
        self.name.as_str()
    }

    pub fn instructions(&self) -> (instructions: &Vec<Instruction>)
        ensures
            instruction_views(instructions@) == self@.instructions,
    {
        &self.instructions
    }

    /// Scans the function for pseudo registers, and says whether there is
    /// none.
    pub fn is_free_of_pseudo(&self) -> (free: bool)
        ensures
            free == is_free_of_pseudo(self@.instructions),
    {
        for index in 0..self.instructions.len()
            invariant
                forall|i: int|
                    0 <= i < index ==> (#[trigger] self@.instructions[i]).is_free_of_pseudo(),
        {
            assert(self@.instructions[index as int] == self.instructions@[index as int]@);
            if !self.instructions[index].is_free_of_pseudo() {
                return false;
            }
        }
        true
    }

    pub fn decompose(self) -> (parts: (String, Vec<Instruction>))
        ensures
            parts.0@ == self@.name,
            instruction_views(parts.1@) == self@.instructions,
    {
        (self.name, self.instructions)
    }
}

/// An assembly instruction.
#[derive(Debug, PartialEq, Eq)]
pub enum Instruction {
    /// Copies `src` into `dest`.
    Mov { src: Operand, dest: Operand },
    /// Applies the operator to the operand, in place.
    Unary(UnaryOperator, Operand),
    /// Applies the operator to the second operand and the first, and
    /// leaves the result in the second.
    Binary(BinaryOperator, Operand, Operand),
    /// Divides `DX:AX` by the operand, a signed division; the quotient
    /// goes to `AX` and the remainder to `DX`.
    Idiv(Operand),
    /// Extends the sign of `AX` into `DX`.
    Cdq,
    /// Reserves a frame of so many bytes on the stack.
    AllocateStack(i64),
    /// Returns to the caller.
    Ret,
}

/// An [`Instruction`] with its names as sequences of characters.
pub enum InstructionView {
    Mov { src: OperandView, dest: OperandView },
    Unary(UnaryOperator, OperandView),
    Binary(BinaryOperator, OperandView, OperandView),
    Idiv(OperandView),
    Cdq,
    AllocateStack(i64),
    Ret,
}

impl View for Instruction {
    type V = InstructionView;

    open spec fn view(&self) -> InstructionView {
        match *self {
            Instruction::Mov { src, dest } => InstructionView::Mov { src: src@, dest: dest@ },
            Instruction::Unary(operator, operand) => InstructionView::Unary(operator, operand@),
            Instruction::Binary(operator, src, dest) => InstructionView::Binary(
                operator,
                src@,
                dest@,
            ),
            Instruction::Idiv(operand) => InstructionView::Idiv(operand@),
            Instruction::Cdq => InstructionView::Cdq,
            Instruction::AllocateStack(size) => InstructionView::AllocateStack(size),
            Instruction::Ret => InstructionView::Ret,
        }
    }
}

impl Instruction {
    /// Whether no operand of the instruction is a pseudo register.
    pub fn is_free_of_pseudo(&self) -> (free: bool)
        ensures
            free == self@.is_free_of_pseudo(),
    {
        match self {
            Instruction::Mov { src, dest } => {
                !src.is_pseudo() && !dest.is_pseudo()
            },
            Instruction::Unary(_, operand) => {
                assert(self@.operands()[0] == operand@);
                !operand.is_pseudo()
            },
            Instruction::Binary(_, src, dest) => {
                !src.is_pseudo() && !dest.is_pseudo()
            },
            Instruction::Idiv(operand) => {
                assert(self@.operands()[0] == operand@);
                !operand.is_pseudo()
            },
            _ => true,
        }
    }
}

impl Clone for Instruction {
    fn clone(&self) -> (copy: Instruction)
        ensures
            copy@ == self@,
    {
        match self {
            Instruction::Mov { src, dest } => Instruction::Mov {
                src: src.clone(),
                dest: dest.clone(),
            },
            Instruction::Unary(operator, operand) => Instruction::Unary(
                *operator,
                operand.clone(),
            ),
            Instruction::Binary(operator, src, dest) => Instruction::Binary(
                *operator,
                src.clone(),
                dest.clone(),
            ),
            Instruction::Idiv(operand) => Instruction::Idiv(operand.clone()),
            Instruction::Cdq => Instruction::Cdq,
            Instruction::AllocateStack(size) => Instruction::AllocateStack(*size),
            Instruction::Ret => Instruction::Ret,
        }
    }
}

impl InstructionView {
    /// The operands of the instruction, in the order in which it names them.
    pub open spec fn operands(self) -> Seq<OperandView> {
        match self {
            InstructionView::Mov { src, dest } => seq![src, dest],
            InstructionView::Unary(_, operand) => seq![operand],
            InstructionView::Binary(_, src, dest) => seq![src, dest],
            InstructionView::Idiv(operand) => seq![operand],
            InstructionView::Cdq => Seq::empty(),
            InstructionView::AllocateStack(_) => Seq::empty(),
            InstructionView::Ret => Seq::empty(),
        }
    }

    /// Whether no operand of the instruction is a pseudo register.
    pub open spec fn is_free_of_pseudo(self) -> bool {
        forall|i: int| 0 <= i < self.operands().len() ==> !(#[trigger] self.operands()[i] is Pseudo)
    }

    /// Whether the instruction is a move from one stack slot to another.
    pub open spec fn is_memory_move(self) -> bool {
        self matches InstructionView::Mov { src, dest } && src is Stack && dest is Stack
    }

    /// Whether every stack slot among the operands of the instruction lies
    /// in a frame of `size` bytes: at an offset of at most `-4` and at
    /// least `-size`.
    pub open spec fn slots_within(self, size: nat) -> bool {
        forall|i: int|
            0 <= i < self.operands().len() ==> (#[trigger] self.operands()[i] matches OperandView::Stack(
                offset,
            ) ==> -size <= offset <= -4)
    }

    /// Whether the instruction neither names a stack slot nor reserves a
    /// frame, as is the case before storage is laid out.
    pub open spec fn is_unplaced(self) -> bool {
        &&& !(self is AllocateStack)
        &&& forall|i: int|
            0 <= i < self.operands().len() ==> !(#[trigger] self.operands()[i] is Stack)
    }

    /// Whether no operand of the instruction is one of the scratch
    /// registers `R10` and `R11`.
    pub open spec fn is_free_of_scratch(self) -> bool {
        forall|i: int|
            0 <= i < self.operands().len() ==> (#[trigger] self.operands()[i])
                != OperandView::Register(Register::R10) && self.operands()[i]
                != OperandView::Register(Register::R11)
    }

    /// Whether the instruction has a form that the machine can encode: a
    /// move, an addition or a subtraction does not have two stack operands,
    /// a multiplication does not write to the stack, and a division does
    /// not divide by an immediate.
    pub open spec fn is_encodable(self) -> bool {
        match self {
            InstructionView::Mov { src, dest } => !(src is Stack && dest is Stack),
            InstructionView::Binary(BinaryOperator::Add, src, dest) => !(src is Stack
                && dest is Stack),
            InstructionView::Binary(BinaryOperator::Sub, src, dest) => !(src is Stack
                && dest is Stack),
            InstructionView::Binary(BinaryOperator::Mul, _, dest) => !(dest is Stack),
            InstructionView::Idiv(operand) => !(operand is Imm),
            _ => true,
        }
    }
}

/// The views of a sequence of instructions, in the same order.
pub open spec fn instruction_views(instructions: Seq<Instruction>) -> Seq<InstructionView> {
    instructions.map_values(|instruction: Instruction| instruction@)
}

/// Whether no operand of any instruction is a pseudo register.
pub open spec fn is_free_of_pseudo(instructions: Seq<InstructionView>) -> bool {
    forall|i: int|
        0 <= i < instructions.len() ==> (#[trigger] instructions[i]).is_free_of_pseudo()
}

/// Whether no instruction is a move from one stack slot to another.
pub open spec fn is_free_of_memory_moves(instructions: Seq<InstructionView>) -> bool {
    forall|i: int| 0 <= i < instructions.len() ==> !(#[trigger] instructions[i]).is_memory_move()
}

/// Whether every stack slot that the instructions name lies in a frame of
/// `size` bytes.
pub open spec fn slots_within(instructions: Seq<InstructionView>, size: nat) -> bool {
    forall|i: int| 0 <= i < instructions.len() ==> (#[trigger] instructions[i]).slots_within(size)
}

/// Whether no instruction names a stack slot or reserves a frame.
pub open spec fn is_unplaced(instructions: Seq<InstructionView>) -> bool {
    forall|i: int| 0 <= i < instructions.len() ==> (#[trigger] instructions[i]).is_unplaced()
}

/// Whether the instructions start by reserving a frame of `size` bytes and
/// reserve no other.
pub open spec fn reserves_once(instructions: Seq<InstructionView>, size: nat) -> bool {
    &&& instructions.len() >= 1
    &&& instructions[0] matches InstructionView::AllocateStack(reserved) && reserved == size
    &&& forall|i: int| 1 <= i < instructions.len() ==> !(#[trigger] instructions[i] is AllocateStack)
}

/// Whether no instruction names one of the scratch registers `R10` and
/// `R11`.
pub open spec fn is_free_of_scratch(instructions: Seq<InstructionView>) -> bool {
    forall|i: int|
        0 <= i < instructions.len() ==> (#[trigger] instructions[i]).is_free_of_scratch()
}

/// Whether every instruction has a form that the machine can encode.
pub open spec fn is_encodable(instructions: Seq<InstructionView>) -> bool {
    forall|i: int| 0 <= i < instructions.len() ==> (#[trigger] instructions[i]).is_encodable()
}

/// The unary operators of the machine: negation and bitwise complement.
#[derive(Debug, Copy, Clone, PartialEq, Eq, Hash, Structural)]
pub enum UnaryOperator {
    Neg,
    Not,
}

/// The binary operators of the machine that work in place.
#[derive(Debug, Copy, Clone, PartialEq, Eq, Hash, Structural)]
pub enum BinaryOperator {
    Add,
    Sub,
    Mul,
}

/// An operand of an instruction.
#[derive(Debug, PartialEq, Eq)]
pub enum Operand {
    /// An immediate value.
    Imm(u64),
    /// A register of the machine.
    Register(Register),
    /// A pseudo register, by its name.
    Pseudo(String),
    /// The stack slot at this offset from the frame pointer.
    Stack(i64),
}

/// An [`Operand`] with its name as a sequence of characters.
pub enum OperandView {
    Imm(u64),
    Register(Register),
    Pseudo(Seq<char>),
    Stack(i64),
}

impl View for Operand {
    type V = OperandView;

    open spec fn view(&self) -> OperandView {
        match *self {
            Operand::Imm(value) => OperandView::Imm(value),
            Operand::Register(register) => OperandView::Register(register),
            Operand::Pseudo(name) => OperandView::Pseudo(name@),
            Operand::Stack(offset) => OperandView::Stack(offset),
        }
    }
}

impl Operand {
    /// Whether the operand is a pseudo register.
    pub fn is_pseudo(&self) -> (pseudo: bool)
        ensures
            pseudo == (self@ is Pseudo),
    {
        match self {
            Operand::Pseudo(_) => true,
            _ => false,
        }
    }
}

impl Clone for Operand {
    fn clone(&self) -> (copy: Operand)
        ensures
            copy@ == self@,
    {
        match self {
            Operand::Imm(value) => Operand::Imm(*value),
            Operand::Register(register) => Operand::Register(*register),
            Operand::Pseudo(name) => Operand::Pseudo(name.clone()),
            Operand::Stack(offset) => Operand::Stack(*offset),
        }
    }
}

/// The registers that assembly programs name. `AX` and `DX` hold results;
/// `R10` and `R11` are scratch registers for the passes that make
/// instructions encodable.
#[derive(Debug, Copy, Clone, PartialEq, Eq, Structural)]
pub enum Register {
    AX,
    DX,
    R10,
    R11,
}

} // verus!
