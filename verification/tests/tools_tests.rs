use agentic_ai::tools::{
    dispatch_tool, greater_than, guess_number, is_divisible_by, secret_divisible_by, ToolReport,
    SECRET_NUMBER,
};

#[test]
fn secret_is_twelve() {
    assert_eq!(SECRET_NUMBER, 12);
}

#[test]
fn greater_than_compares_with_secret() {
    assert!(matches!(greater_than(5), ToolReport::GreaterThan { input: 5, result: true }));
    assert!(matches!(greater_than(12), ToolReport::GreaterThan { input: 12, result: false }));
}

#[test]
fn divisibility_reports() {
    assert!(matches!(is_divisible_by(4), ToolReport::DivisibleBy { input: 4, result: true }));
    assert!(matches!(is_divisible_by(5), ToolReport::DivisibleBy { input: 5, result: false }));
    assert!(matches!(is_divisible_by(-3), ToolReport::DivisibleBy { input: -3, result: true }));
    match is_divisible_by(0) {
        ToolReport::DivisionByZero { input, error } => {
            assert_eq!(input, 0);
            assert_eq!(error, "Division by zero");
        }
        other => panic!("unexpected {other:?}"),
    }
}

#[test]
fn divisibility_at_extremes() {
    assert!(!secret_divisible_by(i32::MIN));
    assert!(secret_divisible_by(-12));
    assert!(!secret_divisible_by(i32::MAX));
}

#[test]
fn guesses() {
    match guess_number(12) {
        ToolReport::Guess { input, correct, message } => {
            assert_eq!(input, 12);
            assert!(correct);
            assert_eq!(message, "Correct! You found the secret number.");
        }
        other => panic!("unexpected {other:?}"),
    }
    match guess_number(7) {
        ToolReport::Guess { correct, message, .. } => {
            assert!(!correct);
            assert_eq!(message, "Incorrect guess.");
        }
        other => panic!("unexpected {other:?}"),
    }
    assert!(guess_number(12).is_solved());
    assert!(!guess_number(11).is_solved());
    assert!(!greater_than(12).is_solved());
}

#[test]
fn dispatch_by_name() {
    assert!(matches!(
        dispatch_tool("greater_than", Some(20)),
        ToolReport::GreaterThan { input: 20, result: false }
    ));
    assert!(matches!(
        dispatch_tool("is_divisible_by", Some(6)),
        ToolReport::DivisibleBy { input: 6, result: true }
    ));
    assert!(matches!(dispatch_tool("guess_number", Some(12)), ToolReport::Guess { correct: true, .. }));
    assert!(matches!(dispatch_tool("launch", Some(1)), ToolReport::UnknownTool));
}

#[test]
fn dispatch_missing_argument_is_zero() {
    assert!(matches!(
        dispatch_tool("is_divisible_by", None),
        ToolReport::DivisionByZero { input: 0, .. }
    ));
}

#[test]
fn dispatch_cuts_argument_to_32_bits() {
    // 2^32 + 12 keeps its low 32 bits: 12.
    assert!(matches!(
        dispatch_tool("guess_number", Some(4_294_967_308)),
        ToolReport::Guess { input: 12, correct: true, .. }
    ));
    assert!(matches!(
        dispatch_tool("greater_than", Some(-1i64 << 32)),
        ToolReport::GreaterThan { input: 0, result: true }
    ));
}
