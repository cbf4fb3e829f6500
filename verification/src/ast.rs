//! The syntax tree of a program: one function whose body returns the value
//! of an integer expression.

use vstd::prelude::*;

verus! {

/// A program: exactly one function.
#[derive(Debug)]
pub struct Program {
    function: Function,
}

/// What a [`Program`] holds.
pub struct ProgramView {
    pub function: FunctionView,
}

impl View for Program {
    type V = ProgramView;

    closed spec fn view(&self) -> ProgramView {
        ProgramView { function: self.function@ }
    }
}

impl Program {
    pub fn new(function: Function) -> (program: Program)
        ensures
            program@ == (ProgramView { function: function@ }),
    {
        Program { function }
    }

    pub fn function(&self) -> (function: &Function)
        ensures
            function@ == self@.function,
    {
        &self.function
    }
}

/// A function: its name and the statement that is its body.
#[derive(Debug)]
pub struct Function {
    name: String,
    body: Statement,
}

/// What a [`Function`] holds, with the name as a sequence of characters.
pub struct FunctionView {
    pub name: Seq<char>,
    pub body: Statement,
}

impl View for Function {
    type V = FunctionView;

    closed spec fn view(&self) -> FunctionView {
        FunctionView { name: self.name@, body: self.body }
    }
}

impl Function {
    pub fn new(name: String, body: Statement) -> (function: Function)
        ensures
            function@ == (FunctionView { name: name@, body }),
    {
        Function { name, body }
    }

    pub fn name(&self) -> (name: &str)
        ensures
            name@ == self@.name,
    {
        self.name.as_str()
    }

    pub fn body(&self) -> (body: &Statement)
        ensures
            *body == self@.body,
    {
        &self.body
    }
}

/// A statement. The language has one: return the value of an expression.
#[derive(Debug, PartialEq, Eq)]
pub enum Statement {
    Return(Expression),
}

impl Statement {
    /// The number of operators in the statement's expression.
    pub open spec fn operator_count(self) -> nat {
        match self {
            Statement::Return(expression) => expression.operator_count(),
        }
    }
}

/// An integer expression.
#[derive(Debug, PartialEq, Eq)]
pub enum Expression {
    Constant(u64),
    Unary(UnaryOperator, Box<Expression>),
    Binary(BinaryOperator, Box<Expression>, Box<Expression>),
}

impl Expression {
    /// The number of unary and binary operators in the expression.
    pub open spec fn operator_count(self) -> nat
        decreases self,
    {
        match self {
            Expression::Constant(_) => 0,
            Expression::Unary(_, operand) => operand.operator_count() + 1,
            Expression::Binary(_, left, right) => left.operator_count() + right.operator_count()
                + 1,
        }
    }

    /// What is left of `budget` once one has been taken for each operator
    /// of the expression, or `None` if the expression has more operators
    /// than that.
    pub fn operators_within(&self, budget: usize) -> (left: Option<usize>)
        ensures
            left is Some <==> self.operator_count() <= budget,
            left matches Some(rest) ==> rest == budget - self.operator_count(),
        decreases self,
    {
        match self {
            Expression::Constant(_) => Some(budget),
            Expression::Unary(_, operand) => match operand.operators_within(budget) {
                Some(rest) => if rest >= 1 {
                    Some(rest - 1)
                } else {
                    None
                },
                None => None,
            },
            Expression::Binary(_, left, right) => match left.operators_within(budget) {
                Some(after_left) => match right.operators_within(after_left) {
                    Some(rest) => if rest >= 1 {
                        Some(rest - 1)
                    } else {
                        None
                    },
                    None => None,
                },
                None => None,
            },
        }
    }
}

/// The unary operators of the language: `~` and `-`.
#[derive(Debug, Clone, Copy, PartialEq, Eq, Structural)]
pub enum UnaryOperator {
    Complement,
    Negate,
}

/// The binary operators of the language: `+`, `-`, `*`, `/` and `%`.
#[derive(Debug, Clone, Copy, PartialEq, Eq, Structural)]
pub enum BinaryOperator {
    Add,
    Sub,
    Mul,
    Div,
    Rem,
}

} // verus!
