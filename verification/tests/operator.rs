use cosmic_ext_calculator::calculator::operator::Operator as Key;
use cosmic_ext_calculator::error::Error;
use cosmic_ext_calculator::operator::Operator;

#[test]
fn basic_keys_show_and_contribute_their_signs() {
    let keys = [
        (Operator::Add, "+", "+"),
        (Operator::Subtract, "-", "-"),
        (Operator::Multiply, "x", "*"),
        (Operator::Divide, "÷", "/"),
        (Operator::Modulus, "%", "%"),
        (Operator::Point, ".", "."),
        (Operator::Equal, "=", "="),
        (Operator::Clear, "C", "C"),
        (Operator::Backspace, "⌫", "⌫"),
    ];
    for (key, display, expression) in keys {
        assert_eq!(key.display(), display);
        assert_eq!(key.expression(), expression);
    }
}

#[test]
fn keys_show_and_contribute_their_signs() {
    let keys = [
        (Key::Add, "+", "+"),
        (Key::Subtract, "-", "-"),
        (Key::Multiply, "x", "*"),
        (Key::Divide, "÷", "/"),
        (Key::Modulus, "%", "%"),
        (Key::Point, ".", "."),
        (Key::Equal, "=", "="),
        (Key::ParenthesesOpen, "(", "("),
        (Key::ParenthesesClose, ")", ")"),
        (Key::Power, "^", "^"),
        (Key::SquareRoot, "√", "√"),
        (Key::Clear, "C", "C"),
        (Key::Backspace, "⌫", "⌫"),
    ];
    for (key, display, expression) in keys {
        assert_eq!(key.display(), display);
        assert_eq!(key.expression(), expression);
    }
}

#[test]
fn keys_can_be_compared_and_cloned() {
    assert_eq!(Operator::Add.clone(), Operator::Add);
    assert_ne!(Operator::Add, Operator::Subtract);
    assert_eq!(Key::Power.clone(), Key::Power);
    assert_ne!(Key::Power, Key::SquareRoot);
}

#[test]
fn division_by_zero_describes_itself() {
    assert_eq!(Error::DivisionByZero.to_string(), "Attempted to divide by zero");
}
