//! The hidden-number game's tools, as the ollama-driven agent calls them by
//! name with an integer argument.

use vstd::prelude::*;
use crate::text::{eq_str, string_from};

verus! {

/// The number the agent has to find.
pub const SECRET_NUMBER: i32 = 12;

/// What a tool call reports back to the model.
#[derive(Debug)]
pub enum ToolReport {
    /// `greater_than`: whether the secret is greater than `input`.
    GreaterThan { input: i32, result: bool },
    /// `is_divisible_by`: whether the secret is a multiple of `input`.
    DivisibleBy { input: i32, result: bool },
    /// `is_divisible_by` with a zero divisor.
    DivisionByZero { input: i32, error: String },
    /// `guess_number`: whether `input` is the secret, and a message saying so.
    Guess { input: i32, correct: bool, message: String },
    /// A tool name that the game does not know.
    UnknownTool,
}

/// The message of a guess.
pub open spec fn guess_message(correct: bool) -> Seq<char> {
    if correct {
        "Correct! You found the secret number."@
    } else {
        "Incorrect guess."@
    }
}

/// `d` divides the secret: the remainder of the secret by `d` is zero
/// (which does not depend on the sign of `d`).
pub open spec fn divides_secret(d: int) -> bool {
    d != 0 && SECRET_NUMBER as int % (if d < 0 { -d } else { d }) == 0
}

/// Whether the secret is greater than `n`.
pub fn greater_than(n: i32) -> (r: ToolReport)
    ensures
        r == (ToolReport::GreaterThan { input: n, result: SECRET_NUMBER > n }),
{
    ToolReport::GreaterThan { input: n, result: SECRET_NUMBER > n }
}

/// Whether the secret number is a multiple of `n`.
pub fn secret_divisible_by(n: i32) -> (b: bool)
    requires
        n != 0,
    ensures
        b == divides_secret(n as int),
{
    // The secret is positive, so the remainder by |n| decides.
    let d: u32 = if n < 0 {
        if n == i32::MIN { 2147483648u32 } else { (-n) as u32 }
    } else {
        n as u32
    };
    let secret: u32 = 12;
    let r = secret % d;
    r == 0
}

/// Whether the secret is divisible by `n`; `error` is what a zero divisor
/// reports.
pub fn is_divisible_by_with(n: i32, error: &str) -> (r: ToolReport)
    ensures
        n == 0 ==> (r matches ToolReport::DivisionByZero { input, error: e } && input == 0
            && e@ == error@),
        n != 0 ==> r == (ToolReport::DivisibleBy { input: n, result: divides_secret(n as int) }),
{
    if n == 0 {
        return ToolReport::DivisionByZero { input: n, error: string_from(error) };
    }
    ToolReport::DivisibleBy { input: n, result: secret_divisible_by(n) }
}

/// Whether the secret is divisible by `n`; a zero divisor reports
/// `Division by zero`.
pub fn is_divisible_by(n: i32) -> (r: ToolReport)
    ensures
        n == 0 ==> (r matches ToolReport::DivisionByZero { input, error } && input == 0
            && error@ == "Division by zero"@),
        n != 0 ==> r == (ToolReport::DivisibleBy { input: n, result: divides_secret(n as int) }),
{
    is_divisible_by_with(n, "Division by zero")
}

/// A guess at the secret number.
pub fn guess_number(n: i32) -> (r: ToolReport)
    ensures
        r matches ToolReport::Guess { input, correct, message } && input == n
            && correct == (SECRET_NUMBER == n) && message@ == guess_message(SECRET_NUMBER == n),
{
    let correct = SECRET_NUMBER == n;
    let message = if correct {
        string_from("Correct! You found the secret number.")
    } else {
        string_from("Incorrect guess.")
    };
    ToolReport::Guess { input: n, correct, message }
}

impl ToolReport {
    /// Whether this is a guess that found the secret.
    pub open spec fn solved(&self) -> bool {
        self matches ToolReport::Guess { correct, .. } && *correct
    }

    /// Whether this is a guess that found the secret.
    pub fn is_solved(&self) -> (b: bool)
        ensures
            b == self.solved(),
    {
        match self {
            ToolReport::Guess { correct, .. } => *correct,
            _ => false,
        }
    }
}

/// The tool argument as the game reads it: a missing number counts as 0,
/// and a number is cut to its low 32 bits.
pub open spec fn argument_of(n: Option<i64>) -> i32 {
    match n {
        Some(v) => v as i32,
        None => 0,
    }
}

/// `r` is what the tool named `tool` reports on the argument `n` read from
/// the call.
pub open spec fn dispatched(tool: Seq<char>, n: Option<i64>, r: ToolReport) -> bool {
    let a = argument_of(n);
    if tool == "greater_than"@ {
        r == (ToolReport::GreaterThan { input: a, result: SECRET_NUMBER > a })
    } else if tool == "is_divisible_by"@ {
        if a == 0 {
            r matches ToolReport::DivisionByZero { input, error } && input == 0 && error@
                == "Division by zero"@
        } else {
            r == (ToolReport::DivisibleBy { input: a, result: divides_secret(a as int) })
        }
    } else if tool == "guess_number"@ {
        r matches ToolReport::Guess { input, correct, message } && input == a && correct == (
        SECRET_NUMBER == a) && message@ == guess_message(SECRET_NUMBER == a)
    } else {
        r is UnknownTool
    }
}

/// Runs the tool named `tool` on the argument `n` read from the call.
pub fn dispatch_tool(tool: &str, n: Option<i64>) -> (r: ToolReport)
    ensures
        dispatched(tool@, n, r),
{
    let v: i64 = match n {
        Some(v) => v,
        None => 0,
    };
    let arg: i32 = #[verifier::truncate] (v as i32);
    proof {
        reveal_strlit("greater_than");
        reveal_strlit("is_divisible_by");
        reveal_strlit("guess_number");
        assert("greater_than"@.len() != "is_divisible_by"@.len());
        assert("guess_number"@.len() != "is_divisible_by"@.len());
        assert("greater_than"@[1] != "guess_number"@[1]);
    }
    if eq_str(tool, "greater_than") {
        greater_than(arg)
    } else if eq_str(tool, "is_divisible_by") {
        is_divisible_by(arg)
    } else if eq_str(tool, "guess_number") {
        guess_number(arg)
    } else {
        ToolReport::UnknownTool
    }
}

} // verus!
