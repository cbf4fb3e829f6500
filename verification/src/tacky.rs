//! The three-address intermediate form, and the lowering of a syntax tree
//! into it.
//!
//! Every operator of the tree becomes one instruction that writes a fresh
//! temporary. [`lower_expression`] is the model of the lowering: operands
//! are lowered before their operator, the left operand of a binary operator
//! before the right one, and temporaries are numbered in that order.

use vstd::prelude::*;
use vstd::string::*;
use crate::ast;
use crate::decimal::{decimal, lemma_decimal_injective, push_decimal};

verus! {

/// A program in three-address form: exactly one function.
#[derive(Debug)]
pub struct Program {
    function: Function,
}

/// What a [`Program`] holds.
pub struct ProgramView {
    pub function: FunctionView,
}

impl View for Program {
    type V = ProgramView;

    closed spec fn view(&self) -> ProgramView {
        ProgramView { function: self.function@ }
    }
}

impl Program {
    pub fn function(&self) -> (function: &Function)
        ensures
            function@ == self@.function,
    {
        &self.function
    }
}

/// A function in three-address form. Every instruction of it that has a
/// destination writes a variable, never a constant.
#[derive(Debug)]
pub struct Function {
    identifier: String,
    instructions: Vec<Instruction>,
}

/// What a [`Function`] holds.
pub struct FunctionView {
    pub identifier: Seq<char>,
    pub instructions: Seq<InstructionView>,
}

impl View for Function {
    type V = FunctionView;

    closed spec fn view(&self) -> FunctionView {
        FunctionView {
            identifier: self.identifier@,
            instructions: instruction_views(self.instructions@),
        }
    }
}

impl Function {
    #[verifier::type_invariant]
    closed spec fn destinations_are_variables(&self) -> bool {
        all_write_variables(instruction_views(self.instructions@))
    }

    pub fn identifier(&self) -> (identifier: &str)
        ensures
            identifier@ == self@.identifier,
    {
        self.identifier.as_str()
    }

    pub fn instructions(&self) -> (instructions: &Vec<Instruction>)
        ensures
            instruction_views(instructions@) == self@.instructions,
            all_write_variables(self@.instructions),
    {
        proof {
            use_type_invariant(self);
        }
        &self.instructions
    }
}

/// An instruction of the intermediate form: at most one operator, and a
/// destination of its own for the result.
#[allow(inconsistent_fields)]
#[derive(Debug, PartialEq, Eq)]
pub enum Instruction {
    /// Returns `val` from the function.
    Return { val: Value },
    /// Writes `operator` applied to `src` into `dst`.
    Unary { operator: UnaryOperator, src: Value, dst: Value },
    /// Writes `operator` applied to `lhs` and `rhs` into `dst`.
    Binary { operator: BinaryOperator, lhs: Value, rhs: Value, dst: Value },
}

/// An [`Instruction`] with its names as sequences of characters.
#[allow(inconsistent_fields)]
pub enum InstructionView {
    Return { val: ValueView },
    Unary { operator: UnaryOperator, src: ValueView, dst: ValueView },
    Binary { operator: BinaryOperator, lhs: ValueView, rhs: ValueView, dst: ValueView },
}

impl View for Instruction {
    type V = InstructionView;

    open spec fn view(&self) -> InstructionView {
        match *self {
            Instruction::Return { val } => InstructionView::Return { val: val@ },
            Instruction::Unary { operator, src, dst } => InstructionView::Unary {
                operator,
                src: src@,
                dst: dst@,
            },
            Instruction::Binary { operator, lhs, rhs, dst } => InstructionView::Binary {
                operator,
                lhs: lhs@,
                rhs: rhs@,
                dst: dst@,
            },
        }
    }
}

impl InstructionView {
    /// The values that the instruction names: what it reads, then what it
    /// writes.
    pub open spec fn values(self) -> Seq<ValueView> {
        match self {
            InstructionView::Return { val } => seq![val],
            InstructionView::Unary { src, dst, .. } => seq![src, dst],
            InstructionView::Binary { lhs, rhs, dst, .. } => seq![lhs, rhs, dst],
        }
    }

    /// Whether the instruction's destination, if it has one, is a variable.
    pub open spec fn writes_variable(self) -> bool {
        match self {
            InstructionView::Return { .. } => true,
            InstructionView::Unary { dst, .. } => dst is Var,
            InstructionView::Binary { dst, .. } => dst is Var,
        }
    }
}

/// The views of a sequence of instructions, in the same order.
pub open spec fn instruction_views(instructions: Seq<Instruction>) -> Seq<InstructionView> {
    instructions.map_values(|instruction: Instruction| instruction@)
}

/// The view of a sequence with one more instruction is the view of the
/// sequence with that instruction's view as one more.
pub proof fn lemma_instruction_views_push(instructions: Seq<Instruction>, last: Instruction)
    ensures
        instruction_views(instructions.push(last)) == instruction_views(instructions).push(last@),
{
}

/// Whether every instruction of the sequence that has a destination writes
/// a variable.
pub open spec fn all_write_variables(instructions: Seq<InstructionView>) -> bool {
    forall|i: int| 0 <= i < instructions.len() ==> (#[trigger] instructions[i]).writes_variable()
}

/// A value that an instruction reads or writes: a constant, or a variable
/// by its name.
#[derive(Debug, PartialEq, Eq)]
pub enum Value {
    Constant(u64),
    Var { identifier: String },
}

/// A [`Value`] with its name as a sequence of characters.
pub enum ValueView {
    Constant(u64),
    Var { identifier: Seq<char> },
}

impl View for Value {
    type V = ValueView;

    open spec fn view(&self) -> ValueView {
        match *self {
            Value::Constant(value) => ValueView::Constant(value),
            Value::Var { identifier } => ValueView::Var { identifier: identifier@ },
        }
    }
}

impl Clone for Value {
    fn clone(&self) -> (copy: Value)
        ensures
            copy@ == self@,
    {
        match self {
            Value::Constant(value) => Value::Constant(*value),
            Value::Var { identifier } => Value::Var { identifier: identifier.clone() },
        }
    }
}

/// The unary operators of the intermediate form.
#[derive(Debug, Clone, Copy, PartialEq, Eq, Structural)]
pub enum UnaryOperator {
    Complement,
    Negate,
}

/// The binary operators of the intermediate form.
#[derive(Debug, Clone, Copy, PartialEq, Eq, Structural)]
pub enum BinaryOperator {
    Add,
    Subtract,
    Multiply,
    Divide,
    Remainder,
}

/// The name of the temporary with number `n`: `tmp.` and the decimal
/// digits of `n`.
pub open spec fn temporary_name(n: nat) -> Seq<char> {
    seq!['t', 'm', 'p', '.'] + decimal(n)
}

/// Temporaries with different numbers have different names.
pub proof fn lemma_temporary_name_injective(a: nat, b: nat)
    requires
        temporary_name(a) == temporary_name(b),
    ensures
        a == b,
{
    assert(temporary_name(a).subrange(4, temporary_name(a).len() as int) =~= decimal(a));
    assert(temporary_name(b).subrange(4, temporary_name(b).len() as int) =~= decimal(b));
    lemma_decimal_injective(a, b);
}

/// The name of a temporary holds a dot, which the name of nothing that a
/// program declares can hold.
pub proof fn lemma_temporary_name_has_a_dot(n: nat)
    ensures
        temporary_name(n).contains('.'),
{
    assert(temporary_name(n)[3] == '.');
}

/// Hands out the names of temporaries, numbered from zero, each one once.
pub struct VariableNameGenerator {
    counter: usize,
}

impl VariableNameGenerator {
    /// The number of the temporary that is handed out next.
    pub closed spec fn next(&self) -> nat {
        self.counter as nat
    }

    pub fn new() -> (generator: VariableNameGenerator)
        ensures
            generator.next() == 0,
    {
        VariableNameGenerator { counter: 0 }
    }

    pub fn make_temporary(&mut self) -> (name: String)
        requires
            old(self).next() < usize::MAX,
        ensures
            name@ == temporary_name(old(self).next()),
            final(self).next() == old(self).next() + 1,
    {
        proof {
            reveal_strlit("tmp.");
        }
        let mut var_name = String::from_str("tmp.");
        push_decimal(&mut var_name, self.counter as u64);
        self.counter += 1;
        var_name
    }
}

/// What lowering an expression yields.
pub struct Lowered {
    /// The instructions that compute the expression, in order.
    pub instructions: Seq<InstructionView>,
    /// Where the expression's value is once they have run.
    pub value: ValueView,
    /// The number of the next unused temporary.
    pub next: nat,
}

/// The operator of the intermediate form for a unary operator of the tree.
pub open spec fn lower_unary_operator(operator: ast::UnaryOperator) -> UnaryOperator {
    match operator {
        ast::UnaryOperator::Complement => UnaryOperator::Complement,
        ast::UnaryOperator::Negate => UnaryOperator::Negate,
    }
}

/// The operator of the intermediate form for a binary operator of the tree.
pub open spec fn lower_binary_operator(operator: ast::BinaryOperator) -> BinaryOperator {
    match operator {
        ast::BinaryOperator::Add => BinaryOperator::Add,
        ast::BinaryOperator::Sub => BinaryOperator::Subtract,
        ast::BinaryOperator::Mul => BinaryOperator::Multiply,
        ast::BinaryOperator::Div => BinaryOperator::Divide,
        ast::BinaryOperator::Rem => BinaryOperator::Remainder,
    }
}

/// The lowering of `expression` when `next` is the number of the first
/// unused temporary.
///
/// A constant needs no instruction. An operator's operands are lowered
/// first, the left one before the right one; then one instruction applies
/// the operator and writes the next unused temporary.
pub open spec fn lower_expression(expression: ast::Expression, next: nat) -> Lowered
    decreases expression,
{
    match expression {
        ast::Expression::Constant(value) => Lowered {
            instructions: Seq::empty(),
            value: ValueView::Constant(value),
            next,
        },
        ast::Expression::Unary(operator, operand) => {
            let src = lower_expression(*operand, next);
            let dst = ValueView::Var { identifier: temporary_name(src.next) };
            Lowered {
                instructions: src.instructions.push(
                    InstructionView::Unary {
                        operator: lower_unary_operator(operator),
                        src: src.value,
                        dst,
                    },
                ),
                value: dst,
                next: src.next + 1,
            }
        },
        ast::Expression::Binary(operator, left, right) => {
            let lhs = lower_expression(*left, next);
            let rhs = lower_expression(*right, lhs.next);
            let dst = ValueView::Var { identifier: temporary_name(rhs.next) };
            Lowered {
                instructions: (lhs.instructions + rhs.instructions).push(
                    InstructionView::Binary {
                        operator: lower_binary_operator(operator),
                        lhs: lhs.value,
                        rhs: rhs.value,
                        dst,
                    },
                ),
                value: dst,
                next: rhs.next + 1,
            }
        },
    }
}

/// The instructions of a statement: those of its expression, then the
/// return of the expression's value.
pub open spec fn lower_statement(statement: ast::Statement, next: nat) -> Seq<InstructionView> {
    match statement {
        ast::Statement::Return(expression) => {
            let lowered = lower_expression(expression, next);
            lowered.instructions.push(InstructionView::Return { val: lowered.value })
        },
    }
}

/// The function of the intermediate form for a function of the tree.
pub open spec fn lower_function(function: ast::FunctionView, next: nat) -> FunctionView {
    FunctionView {
        identifier: function.name,
        instructions: lower_statement(function.body, next),
    }
}

/// The program of the intermediate form for a program of the tree.
pub open spec fn lower_program(program: ast::ProgramView, next: nat) -> ProgramView {
    ProgramView { function: lower_function(program.function, next) }
}

/// The destination of an instruction, if it has one.
pub open spec fn destination(instruction: InstructionView) -> Option<ValueView> {
    match instruction {
        InstructionView::Return { .. } => None,
        InstructionView::Unary { dst, .. } => Some(dst),
        InstructionView::Binary { dst, .. } => Some(dst),
    }
}

/// Lowering an expression emits one instruction for each of its operators.
/// The instruction at place `i` writes the temporary whose number is `i`
/// more than the first unused one, so every destination is a variable, no
/// two instructions write the same one, and as many temporaries are used as
/// there are operators.
pub proof fn lemma_lowered_destinations(expression: ast::Expression, next: nat)
    ensures
        lower_expression(expression, next).instructions.len() == expression.operator_count(),
        lower_expression(expression, next).next == next + expression.operator_count(),
        forall|i: int|
            0 <= i < expression.operator_count() ==> destination(
                #[trigger] lower_expression(expression, next).instructions[i],
            ) == Some(ValueView::Var { identifier: temporary_name((next + i) as nat) }),
    decreases expression,
{
    match expression {
        ast::Expression::Constant(_) => {},
        ast::Expression::Unary(_, operand) => {
            lemma_lowered_destinations(*operand, next);
        },
        ast::Expression::Binary(_, left, right) => {
            lemma_lowered_destinations(*left, next);
            lemma_lowered_destinations(*right, lower_expression(*left, next).next);
        },
    }
}

/// Every instruction of a lowered statement that has a destination writes
/// a variable.
pub proof fn lemma_lowered_statement_writes_variables(statement: ast::Statement, next: nat)
    ensures
        all_write_variables(lower_statement(statement, next)),
{
    match statement {
        ast::Statement::Return(expression) => {
            lemma_lowered_destinations(expression, next);
        },
    }
}

/// [`temporary_name`] as a function value.
pub open spec fn temporary_naming() -> spec_fn(nat) -> Seq<char> {
    |n: nat| temporary_name(n)
}

/// Whether `value`, if it is a variable, is a temporary whose number is
/// at least `low` and less than `high`.
pub open spec fn is_temporary_between(value: ValueView, low: nat, high: nat) -> bool {
    value matches ValueView::Var { identifier } ==> exists|k: nat|
        low <= k < high && identifier == #[trigger] temporary_naming()(k)
}

/// Whether every variable among the values that the instructions name is a
/// temporary whose number is at least `low` and less than `high`.
pub open spec fn names_temporaries_between(
    instructions: Seq<InstructionView>,
    low: nat,
    high: nat,
) -> bool {
    forall|i: int, j: int|
        0 <= i < instructions.len() && 0 <= j < instructions[i].values().len()
            ==> is_temporary_between(#[trigger] instructions[i].values()[j], low, high)
}

/// Lowering an expression names no variable but the temporaries that it
/// hands out itself.
pub proof fn lemma_lowered_values(expression: ast::Expression, next: nat)
    ensures
        is_temporary_between(
            lower_expression(expression, next).value,
            next,
            next + expression.operator_count(),
        ),
        names_temporaries_between(
            lower_expression(expression, next).instructions,
            next,
            next + expression.operator_count(),
        ),
    decreases expression,
{
    lemma_lowered_destinations(expression, next);
    match expression {
        ast::Expression::Constant(_) => {},
        ast::Expression::Unary(_, operand) => {
            let src = lower_expression(*operand, next);
            lemma_lowered_values(*operand, next);
            assert(temporary_naming()(src.next) == temporary_name(src.next));
        },
        ast::Expression::Binary(_, left, right) => {
            let lhs = lower_expression(*left, next);
            let rhs = lower_expression(*right, lhs.next);
            lemma_lowered_values(*left, next);
            lemma_lowered_values(*right, lhs.next);
            lemma_lowered_destinations(*left, next);
            assert(temporary_naming()(rhs.next) == temporary_name(rhs.next));
        },
    }
}

/// Lowering a statement names no variable but the temporaries that it
/// hands out itself.
pub proof fn lemma_lowered_statement_values(statement: ast::Statement, next: nat)
    ensures
        names_temporaries_between(
            lower_statement(statement, next),
            next,
            next + statement.operator_count(),
        ),
{
    match statement {
        ast::Statement::Return(expression) => {
            lemma_lowered_values(expression, next);
        },
    }
}

/// Two instructions at different places of a lowered expression write
/// different variables.
pub proof fn lemma_lowered_destinations_distinct(
    expression: ast::Expression,
    next: nat,
    i: int,
    j: int,
)
    requires
        0 <= i < j < expression.operator_count(),
    ensures
        destination(lower_expression(expression, next).instructions[i]) != destination(
            lower_expression(expression, next).instructions[j],
        ),
{
    lemma_lowered_destinations(expression, next);
    if temporary_name((next + i) as nat) == temporary_name((next + j) as nat) {
        lemma_temporary_name_injective((next + i) as nat, (next + j) as nat);
    }
}

/// Lowers a syntax tree into the intermediate form.
pub struct TackEmitter {
    variable_name_generator: VariableNameGenerator,
}

impl TackEmitter {
    /// The number of the temporary that is used next.
    pub closed spec fn next(&self) -> nat {
        self.variable_name_generator.next()
    }

    pub fn new() -> (emitter: TackEmitter)
        ensures
            emitter.next() == 0,
    {
        TackEmitter { variable_name_generator: VariableNameGenerator::new() }
    }

    /// Lowers `program`. The temporaries are numbered from `self.next()`
    /// on, which must leave room for one temporary for each operator.
    pub fn emit_program(&mut self, program: &ast::Program) -> (lowered: Program)
        requires
            old(self).next() + program@.function.body.operator_count() <= usize::MAX,
        ensures
            lowered@ == lower_program(program@, old(self).next()),
            final(self).next() == old(self).next() + program@.function.body.operator_count(),
    {
        Program { function: self.emit_function(program.function()) }
    }

    fn emit_function(&mut self, function: &ast::Function) -> (lowered: Function)
        requires
            old(self).next() + function@.body.operator_count() <= usize::MAX,
        ensures
            lowered@ == lower_function(function@, old(self).next()),
            final(self).next() == old(self).next() + function@.body.operator_count(),
    {
        let mut instructions = Vec::new();
        self.emit_statement(function.body(), &mut instructions);
        proof {
            lemma_lowered_statement_writes_variables(function@.body, old(self).next());
        }
        Function { identifier: function.name().to_owned(), instructions }
    }

    fn emit_statement(&mut self, statement: &ast::Statement, instructions: &mut Vec<Instruction>)
        requires
            old(self).next() + statement.operator_count() <= usize::MAX,
        ensures
            instruction_views(final(instructions)@) == instruction_views(old(instructions)@)
                + lower_statement(*statement, old(self).next()),
            final(self).next() == old(self).next() + statement.operator_count(),
    {
        match statement {
            ast::Statement::Return(expr) => {
                let return_val = self.emit_expression(expr, instructions);
                let ghost lowered = instructions@;
                let instruction = Instruction::Return { val: return_val };
                proof {
                    lemma_instruction_views_push(lowered, instruction);
                }
                instructions.push(instruction);
            },
        }
    }

    fn emit_expression(
        &mut self,
        expression: &ast::Expression,
        instructions: &mut Vec<Instruction>,
    ) -> (value: Value)
        requires
            old(self).next() + expression.operator_count() <= usize::MAX,
        ensures
            value@ == lower_expression(*expression, old(self).next()).value,
            instruction_views(final(instructions)@) == instruction_views(old(instructions)@)
                + lower_expression(*expression, old(self).next()).instructions,
            final(self).next() == lower_expression(*expression, old(self).next()).next,
            final(self).next() == old(self).next() + expression.operator_count(),
        decreases expression, (if expression is Binary { 0nat } else { 1nat }),
    {
        match expression {
            ast::Expression::Binary(op, left, right) => {
                let left_result = self.emit_expression(left, instructions);
                let right_result = self.emit_expression(right, instructions);
                let operator = self.emit_binary_operator(op);
                let result = Value::Var {
                    identifier: self.variable_name_generator.make_temporary(),
                };
                let ghost lowered = instructions@;
                let instruction = Instruction::Binary {
                    lhs: left_result,
                    rhs: right_result,
                    operator,
                    dst: result.clone(),
                };
                proof {
                    lemma_instruction_views_push(lowered, instruction);
                }
                instructions.push(instruction);
                result
            },
            factor => self.emit_factor(factor, instructions),
        }
    }

    /// Lowers a constant or a unary operator with its operand; any other
    /// expression is lowered as an expression.
    fn emit_factor(
        &mut self,
        factor: &ast::Expression,
        instructions: &mut Vec<Instruction>,
    ) -> (value: Value)
        requires
            old(self).next() + factor.operator_count() <= usize::MAX,
        ensures
            value@ == lower_expression(*factor, old(self).next()).value,
            instruction_views(final(instructions)@) == instruction_views(old(instructions)@)
                + lower_expression(*factor, old(self).next()).instructions,
            final(self).next() == lower_expression(*factor, old(self).next()).next,
            final(self).next() == old(self).next() + factor.operator_count(),
        decreases factor, (if factor is Binary { 1nat } else { 0nat }),
    {
        match factor {
            ast::Expression::Constant(value) => Value::Constant(*value),
            ast::Expression::Unary(op, unary_factor) => {
                let src = self.emit_factor(unary_factor, instructions);
                let dst = Value::Var {
                    identifier: self.variable_name_generator.make_temporary(),
                };
                let operator = self.emit_unary_operator(op);
                let ghost lowered = instructions@;
                let instruction = Instruction::Unary { operator, src, dst: dst.clone() };
                proof {
                    lemma_instruction_views_push(lowered, instruction);
                }
                instructions.push(instruction);
                dst
            },
            expr => self.emit_expression(expr, instructions),
        }
    }

    fn emit_unary_operator(&mut self, operator: &ast::UnaryOperator) -> (lowered: UnaryOperator)
        ensures
            lowered == lower_unary_operator(*operator),
            final(self).next() == old(self).next(),
    {
        match operator {
            ast::UnaryOperator::Complement => UnaryOperator::Complement,
            ast::UnaryOperator::Negate => UnaryOperator::Negate,
        }
    }

    fn emit_binary_operator(&self, operator: &ast::BinaryOperator) -> (lowered: BinaryOperator)
        ensures
            lowered == lower_binary_operator(*operator),
    {
        match operator {
            ast::BinaryOperator::Add => BinaryOperator::Add,
            ast::BinaryOperator::Sub => BinaryOperator::Subtract,
            ast::BinaryOperator::Mul => BinaryOperator::Multiply,
            ast::BinaryOperator::Div => BinaryOperator::Divide,
            ast::BinaryOperator::Rem => BinaryOperator::Remainder,
        }
    }
}

} // verus!
