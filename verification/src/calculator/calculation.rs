//! A calculation that carries its own expression to the evaluator.

use super::operations::{accepts_input, is_expression_input};
use super::operator::Operator;
use crate::text::{decimal, decimal_text};
use vstd::prelude::*;

verus! {

/// An expression being typed, and the result of its last evaluation.
#[derive(Debug, Clone)]
pub struct Calculation {
    pub expression: String,
    pub result: String,
}

/// A calculation with its texts as sequences of characters.
pub struct CalculationView {
    pub expression: Seq<char>,
    pub result: Seq<char>,
}

impl View for Calculation {
    type V = CalculationView;

    open spec fn view(&self) -> CalculationView {
        CalculationView { expression: self.expression@, result: self.result@ }
    }
}

/// What a key press asks of the application.
#[derive(Debug, Clone)]
pub enum Message {
    /// Evaluate this expression.
    Calculate(String),
}

impl CalculationView {
    /// The calculation after a key other than a digit, and the expression
    /// the key asks to have evaluated.
    ///
    /// The clear key empties expression and result, the equal key asks for
    /// the evaluation of the expression, the backspace key takes the last
    /// character away, and every other key appends its sign.
    pub open spec fn after_key(self, key: Operator) -> (CalculationView, Option<Seq<char>>) {
        match key {
            Operator::Clear => (
                CalculationView { expression: Seq::empty(), result: Seq::empty() },
                None,
            ),
            Operator::Equal => (self, Some(self.expression)),
            Operator::Backspace => (
                CalculationView {
                    expression: if self.expression.len() > 0 {
                        self.expression.drop_last()
                    } else {
                        self.expression
                    },
                    ..self
                },
                None,
            ),
            _ => (
                CalculationView { expression: self.expression + key.expression_text(), ..self },
                None,
            ),
        }
    }
}

/// The expression a message asks to have evaluated.
pub open spec fn asked(message: Option<Message>) -> Option<Seq<char>> {
    match message {
        Some(Message::Calculate(expression)) => Some(expression@),
        None => None,
    }
}

impl Calculation {
    /// An empty calculation.
    pub fn new() -> (calculation: Self)
        ensures
            calculation@ == (CalculationView { expression: Seq::empty(), result: Seq::empty() }),
    {
        Calculation { expression: String::new(), result: String::new() }
    }

    /// Appends the sign of a key to the expression.
    pub fn add_operator(&mut self, operator: Operator)
        ensures
            final(self)@ == (CalculationView {
                expression: old(self)@.expression + operator.expression_text(),
                ..old(self)@
            }),
    {
        self.expression.append(operator.expression());
    }

    /// Appends a number in decimal digits to the expression.
    pub fn on_number_press(&mut self, number: i32)
        ensures
            final(self)@ == (CalculationView {
                expression: old(self)@.expression + decimal(number as int),
                ..old(self)@
            }),
    {
        let text = decimal_text(number);
        self.expression.append(text.as_str());
    }

    /// Acts on a key other than a digit: see [`CalculationView::after_key`].
    pub fn on_operator_press(&mut self, operator: &Operator) -> (message: Option<Message>)
        ensures
            (final(self)@, asked(message)) == old(self)@.after_key(*operator),
    {
        match operator {
            Operator::Clear => {
                self.clear();
                None
            },
            Operator::Equal => Some(Message::Calculate(self.expression.clone())),
            Operator::Backspace => {
                let _ = self.expression.pop();
                None
            },
            Operator::Add => {
                self.add_operator(Operator::Add);
                None
            },
            Operator::Subtract => {
                self.add_operator(Operator::Subtract);
                None
            },
            Operator::Multiply => {
                self.add_operator(Operator::Multiply);
                None
            },
            Operator::Divide => {
                self.add_operator(Operator::Divide);
                None
            },
            Operator::Modulus => {
                self.add_operator(Operator::Modulus);
                None
            },
            Operator::Point => {
                self.add_operator(Operator::Point);
                None
            },
            Operator::ParenthesesOpen => {
                self.add_operator(Operator::ParenthesesOpen);
                None
            },
            Operator::ParenthesesClose => {
                self.add_operator(Operator::ParenthesesClose);
                None
            },
            Operator::Power => {
                self.add_operator(Operator::Power);
                None
            },
            Operator::SquareRoot => {
                self.add_operator(Operator::SquareRoot);
                None
            },
        }
    }

    /// Empties expression and result.
    pub fn clear(&mut self)
        ensures
            final(self)@ == (CalculationView { expression: Seq::empty(), result: Seq::empty() }),
    {
        self.expression.clear();
        self.result.clear();
    }

    /// Replaces the expression by a typed text, if every character of the
    /// text may stand in an expression; otherwise nothing changes.
    pub fn on_input(&mut self, input: String)
        ensures
            final(self)@ == (if is_expression_input(input@) {
                CalculationView { expression: input@, ..old(self)@ }
            } else {
                old(self)@
            }),
    {
        if accepts_input(input.as_str()) {
            self.expression = input;
        }
    }
}

impl PartialEq for Calculation {
    fn eq(&self, other: &Self) -> (same: bool) {
        self.expression == other.expression && self.result == other.result
    }
}

impl vstd::std_specs::cmp::PartialEqSpecImpl for Calculation {
    open spec fn obeys_eq_spec() -> bool {
        true
    }

    open spec fn eq_spec(&self, other: &Self) -> bool {
        self@ == other@
    }
}

impl Default for Calculation {
    fn default() -> (calculation: Self)
        ensures
            calculation@ == (CalculationView { expression: Seq::empty(), result: Seq::empty() }),
    {
        Calculation::new()
    }
}

} // verus!
