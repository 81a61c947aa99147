use super::{render_words, str_views, template};
use crate::string::String;
use vstd::prelude::*;

verus! {

/// `set result value`: copies `value` into `result`.
#[derive(Debug, Clone)]
pub struct SetValue {
    pub result: String,
    pub value: String,
}

impl SetValue {
    pub open spec fn words(&self) -> Seq<Seq<char>> {
        seq!["set"@, self.result@, self.value@]
    }

    pub fn render(&self) -> (r: std::string::String)
        ensures
            r@ == template(self.words(), 0),
    {
        let words = vec!["set", self.result.as_str(), self.value.as_str()];
        assert(str_views(words@) =~= self.words());
        render_words(&words, 0)
    }
}

/// An arithmetic operator of the `op` instruction.
#[derive(Debug, Clone, Copy, PartialEq, Eq, Structural)]
pub enum Op {
    Add,
    Sub,
    Mul,
    Div,
    Rem,
    IDiv,
}

impl Op {
    /// The operator's keyword.
    pub open spec fn name(&self) -> Seq<char> {
        match self {
            Op::Add => "add"@,
            Op::Sub => "sub"@,
            Op::Mul => "mul"@,
            Op::Div => "div"@,
            Op::Rem => "rem"@,
            Op::IDiv => "idiv"@,
        }
    }

    pub fn as_str(&self) -> (r: &'static str)
        ensures
            r@ == self.name(),
    {
        match self {
            Op::Add => "add",
            Op::Sub => "sub",
            Op::Mul => "mul",
            Op::Div => "div",
            Op::Rem => "rem",
            Op::IDiv => "idiv",
        }
    }
}

/// `op operator result lhs rhs`, or `op operator result value` for a unary operator.
#[derive(Debug, Clone)]
pub enum Operation {
    Binary { op: Op, result: String, lhs: String, rhs: String },
    Unary { op: Op, result: String, value: String },
}

impl Operation {
    pub open spec fn words(&self) -> Seq<Seq<char>> {
        match self {
            Operation::Binary { op, result, lhs, rhs } => seq![
                "op"@,
                op.name(),
                result@,
                lhs@,
                rhs@,
            ],
            Operation::Unary { op, result, value } => seq!["op"@, op.name(), result@, value@],
        }
    }

    pub fn render(&self) -> (r: std::string::String)
        ensures
            r@ == template(self.words(), 0),
    {
        match self {
            Operation::Binary { op, result, lhs, rhs } => {
                let words = vec!["op", op.as_str(), result.as_str(), lhs.as_str(), rhs.as_str()];
                assert(str_views(words@) =~= self.words());
                render_words(&words, 0)
            },
            Operation::Unary { op, result, value } => {
                let words = vec!["op", op.as_str(), result.as_str(), value.as_str()];
                assert(str_views(words@) =~= self.words());
                render_words(&words, 0)
            },
        }
    }
}

} // verus!
