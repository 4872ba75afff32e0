//! The closed set of seventeen operators. Each carries a canonical textual
//! form and a fixed classification as unary or binary; the classification is
//! an invariant of the operator identity, not of where it appears.

use vstd::prelude::*;

verus! {

#[derive(Clone, Copy, Debug, PartialEq, Eq, Structural)]
pub enum Operator {
    Addition,
    Concatenation,
    EqualTo,
    GreaterThan,
    GreaterThanOrEqualTo,
    Division,
    Implication,
    LessThan,
    LessThanOrEqualTo,
    LogicalAnd,
    LogicalOr,
    Multiplication,
    NotEqualTo,
    Subtraction,
    Update,
    Not,
    Negate,
}

/// The canonical textual form of each operator.
pub open spec fn op_text(op: Operator) -> Seq<char> {
    match op {
        Operator::Addition => "+"@,
        Operator::Concatenation => "++"@,
        Operator::EqualTo => "=="@,
        Operator::GreaterThan => ">"@,
        Operator::GreaterThanOrEqualTo => ">="@,
        Operator::Division => "/"@,
        Operator::Implication => "=>"@,
        Operator::LessThan => "<"@,
        Operator::LessThanOrEqualTo => "<="@,
        Operator::LogicalAnd => "&&"@,
        Operator::LogicalOr => "||"@,
        Operator::Multiplication => "*"@,
        Operator::NotEqualTo => "!="@,
        Operator::Subtraction => "-"@,
        Operator::Update => ":="@,
        Operator::Not => "!"@,
        Operator::Negate => "-"@,
    }
}

/// The name of each operator, used in diagnostics.
pub open spec fn op_name(op: Operator) -> Seq<char> {
    match op {
        Operator::Addition => "Addition"@,
        Operator::Concatenation => "Concatenation"@,
        Operator::EqualTo => "EqualTo"@,
        Operator::GreaterThan => "GreaterThan"@,
        Operator::GreaterThanOrEqualTo => "GreaterThanOrEqualTo"@,
        Operator::Division => "Division"@,
        Operator::Implication => "Implication"@,
        Operator::LessThan => "LessThan"@,
        Operator::LessThanOrEqualTo => "LessThanOrEqualTo"@,
        Operator::LogicalAnd => "LogicalAnd"@,
        Operator::LogicalOr => "LogicalOr"@,
        Operator::Multiplication => "Multiplication"@,
        Operator::NotEqualTo => "NotEqualTo"@,
        Operator::Subtraction => "Subtraction"@,
        Operator::Update => "Update"@,
        Operator::Not => "Not"@,
        Operator::Negate => "Negate"@,
    }
}

/// Logical not and arithmetic negation are the only unary operators.
pub open spec fn op_is_unary(op: Operator) -> bool {
    op == Operator::Not || op == Operator::Negate
}

/// Every operator that is not unary is binary.
pub open spec fn op_is_binary(op: Operator) -> bool {
    !op_is_unary(op)
}

impl Operator {
    pub fn render(&self) -> (r: String)
        ensures
            r@ == op_text(*self),
    {
        let text = match self {
            Operator::Addition => "+",
            Operator::Concatenation => "++",
            Operator::EqualTo => "==",
            Operator::GreaterThan => ">",
            Operator::GreaterThanOrEqualTo => ">=",
            Operator::Division => "/",
            Operator::Implication => "=>",
            Operator::LessThan => "<",
            Operator::LessThanOrEqualTo => "<=",
            Operator::LogicalAnd => "&&",
            Operator::LogicalOr => "||",
            Operator::Multiplication => "*",
            Operator::NotEqualTo => "!=",
            Operator::Subtraction => "-",
            Operator::Update => ":=",
            Operator::Not => "!",
            Operator::Negate => "-",
        };
        let mut out = String::new();
        out.append(text);
        out
    }

    pub fn debug(&self) -> (r: String)
        ensures
            r@ == op_name(*self),
    {
        let text = match self {
            Operator::Addition => "Addition",
            Operator::Concatenation => "Concatenation",
            Operator::EqualTo => "EqualTo",
            Operator::GreaterThan => "GreaterThan",
            Operator::GreaterThanOrEqualTo => "GreaterThanOrEqualTo",
            Operator::Division => "Division",
            Operator::Implication => "Implication",
            Operator::LessThan => "LessThan",
            Operator::LessThanOrEqualTo => "LessThanOrEqualTo",
            Operator::LogicalAnd => "LogicalAnd",
            Operator::LogicalOr => "LogicalOr",
            Operator::Multiplication => "Multiplication",
            Operator::NotEqualTo => "NotEqualTo",
            Operator::Subtraction => "Subtraction",
            Operator::Update => "Update",
            Operator::Not => "Not",
            Operator::Negate => "Negate",
        };
        let mut out = String::new();
        out.append(text);
        out
    }

    pub fn is_unary(&self) -> (r: bool)
        ensures
            r == op_is_unary(*self),
    {
        match self {
            Operator::Not => true,
            Operator::Negate => true,
            _ => false,
        }
    }

    pub fn is_binary(&self) -> (r: bool)
        ensures
            r == op_is_binary(*self),
    {
        !self.is_unary()
    }
}

} // verus!
