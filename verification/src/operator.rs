//! The keys of the basic keypad.

use vstd::prelude::*;

verus! {

/// A key of the basic keypad that is not a digit.
#[derive(Debug, Clone, Copy, PartialEq, Eq, Structural)]
pub enum Operator {
    Add,
    Subtract,
    Multiply,
    Divide,
    Modulus,
    Point,
    Equal,
    Clear,
    Backspace,
}

impl Operator {
    /// The label shown on the key.
    pub open spec fn display_text(self) -> Seq<char> {
        match self {
            Operator::Add => seq!['+'],
            Operator::Subtract => seq!['-'],
            Operator::Multiply => seq!['x'],
            Operator::Divide => seq!['÷'],
            Operator::Modulus => seq!['%'],
            Operator::Point => seq!['.'],
            Operator::Equal => seq!['='],
            Operator::Clear => seq!['C'],
            Operator::Backspace => seq!['⌫'],
        }
    }

    /// The text the key contributes to an expression.
    pub open spec fn expression_text(self) -> Seq<char> {
        match self {
            Operator::Add => seq!['+'],
            Operator::Subtract => seq!['-'],
            Operator::Multiply => seq!['*'],
            Operator::Divide => seq!['/'],
            Operator::Modulus => seq!['%'],
            Operator::Point => seq!['.'],
            Operator::Equal => seq!['='],
            Operator::Clear => seq!['C'],
            Operator::Backspace => seq!['⌫'],
        }
    }

    /// The label shown on the key.
    pub fn display(&self) -> (label: &str)
        ensures
            label@ == self.display_text(),
    {
        proof {
            reveal_strlit("+");
            reveal_strlit("-");
            reveal_strlit("x");
            reveal_strlit("÷");
            reveal_strlit("%");
            reveal_strlit(".");
            reveal_strlit("=");
            reveal_strlit("C");
            reveal_strlit("⌫");
        }
        let label = match self {
            Operator::Add => "+",
            Operator::Subtract => "-",
            Operator::Multiply => "x",
            Operator::Divide => "÷",
            Operator::Modulus => "%",
            Operator::Point => ".",
            Operator::Equal => "=",
            Operator::Clear => "C",
            Operator::Backspace => "⌫",
        };
        label
    }

    /// The text the key contributes to an expression.
    pub fn expression(&self) -> (text: &str)
        ensures
            text@ == self.expression_text(),
    {
        proof {
            reveal_strlit("+");
            reveal_strlit("-");
            reveal_strlit("*");
            reveal_strlit("/");
            reveal_strlit("%");
            reveal_strlit(".");
            reveal_strlit("=");
            reveal_strlit("C");
            reveal_strlit("⌫");
        }
        let text = match self {
            Operator::Add => "+",
            Operator::Subtract => "-",
            Operator::Multiply => "*",
            Operator::Divide => "/",
            Operator::Modulus => "%",
            Operator::Point => ".",
            Operator::Equal => "=",
            Operator::Clear => "C",
            Operator::Backspace => "⌫",
        };
        text
    }
}

} // verus!
