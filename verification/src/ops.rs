//! The calculator's operation vocabulary: a fixed synonym table mapped,
//! case-insensitively, to one of four arithmetic operations, and the two
//! domain errors a calculator call can end in.

use vstd::prelude::*;
use crate::text::{
    ascii_lower,
    char_matches_ci,
    eq_ignore_ascii_case,
    lemma_char_matches_ci_lower,
    str_matches_ci,
};

verus! {

/// One of the four operations the calculator performs.
#[derive(Clone, Copy, Debug, PartialEq, Eq, Structural)]
pub enum Op {
    Add,
    Subtract,
    Multiply,
    Divide,
}

/// `s` spells addition: `add`, `addition` or `+`, ignoring ASCII case.
pub open spec fn is_add_word(s: Seq<char>) -> bool {
    str_matches_ci(s, "add"@) || str_matches_ci(s, "addition"@) || str_matches_ci(s, "+"@)
}

/// `s` spells subtraction: `subtract`, `subtraction` or `-`, ignoring ASCII case.
pub open spec fn is_subtract_word(s: Seq<char>) -> bool {
    str_matches_ci(s, "subtract"@) || str_matches_ci(s, "subtraction"@) || str_matches_ci(s, "-"@)
}

/// `s` spells multiplication: `multiply`, `multiplication` or `*`, ignoring ASCII case.
pub open spec fn is_multiply_word(s: Seq<char>) -> bool {
    str_matches_ci(s, "multiply"@) || str_matches_ci(s, "multiplication"@) || str_matches_ci(s, "*"@)
}

/// `s` spells division: `divide`, `division` or `/`, ignoring ASCII case.
pub open spec fn is_divide_word(s: Seq<char>) -> bool {
    str_matches_ci(s, "divide"@) || str_matches_ci(s, "division"@) || str_matches_ci(s, "/"@)
}

/// The operation that the text `s` names, or `None` when `s` is outside
/// the recognized synonym set.
pub open spec fn op_of(s: Seq<char>) -> Option<Op> {
    if is_add_word(s) {
        Some(Op::Add)
    } else if is_subtract_word(s) {
        Some(Op::Subtract)
    } else if is_multiply_word(s) {
        Some(Op::Multiply)
    } else if is_divide_word(s) {
        Some(Op::Divide)
    } else {
        None
    }
}

/// Resolves an operation name against the synonym table, ignoring ASCII case.
pub fn parse_operation(operation: &str) -> (r: Option<Op>)
    ensures
        r == op_of(operation@),
{
    if eq_ignore_ascii_case(operation, "add") || eq_ignore_ascii_case(operation, "addition")
        || eq_ignore_ascii_case(operation, "+") {
        Some(Op::Add)
    } else if eq_ignore_ascii_case(operation, "subtract")
        || eq_ignore_ascii_case(operation, "subtraction") || eq_ignore_ascii_case(operation, "-") {
        Some(Op::Subtract)
    } else if eq_ignore_ascii_case(operation, "multiply")
        || eq_ignore_ascii_case(operation, "multiplication") || eq_ignore_ascii_case(operation, "*") {
        Some(Op::Multiply)
    } else if eq_ignore_ascii_case(operation, "divide") || eq_ignore_ascii_case(operation, "division")
        || eq_ignore_ascii_case(operation, "/") {
        Some(Op::Divide)
    } else {
        None
    }
}

/// No character of `t` is an uppercase ASCII letter.
pub open spec fn lowercase_pattern(t: Seq<char>) -> bool {
    forall|i: int| 0 <= i < t.len() ==> !(65 <= #[trigger] t[i] as u32 && t[i] as u32 <= 90)
}

/// Lowercasing the candidate changes nothing about a match against a
/// pattern with no uppercase ASCII letter.
proof fn lemma_matches_ci_lower(s: Seq<char>, t: Seq<char>)
    requires
        lowercase_pattern(t),
    ensures
        str_matches_ci(ascii_lower(s), t) == str_matches_ci(s, t),
{
    let l = ascii_lower(s);
    assert(l.len() == s.len());
    if s.len() == t.len() {
        assert forall|i: int| 0 <= i < s.len() implies char_matches_ci(l[i], #[trigger] t[i])
            == char_matches_ci(s[i], t[i]) by {
            lemma_char_matches_ci_lower(s[i], t[i]);
        }
        if str_matches_ci(s, t) {
            assert forall|i: int| 0 <= i < l.len() implies char_matches_ci(l[i], #[trigger] t[i]) by {
                assert(char_matches_ci(s[i], t[i]));
            }
        }
        if str_matches_ci(l, t) {
            assert forall|i: int| 0 <= i < s.len() implies char_matches_ci(s[i], #[trigger] t[i]) by {
                assert(char_matches_ci(l[i], t[i]));
            }
        }
    }
}

/// Every word of the synonym table is free of uppercase ASCII letters.
proof fn lemma_patterns_lowercase()
    ensures
        lowercase_pattern("add"@),
        lowercase_pattern("addition"@),
        lowercase_pattern("+"@),
        lowercase_pattern("subtract"@),
        lowercase_pattern("subtraction"@),
        lowercase_pattern("-"@),
        lowercase_pattern("multiply"@),
        lowercase_pattern("multiplication"@),
        lowercase_pattern("*"@),
        lowercase_pattern("divide"@),
        lowercase_pattern("division"@),
        lowercase_pattern("/"@),
{
    reveal_strlit("add");
    reveal_strlit("addition");
    reveal_strlit("+");
    reveal_strlit("subtract");
    reveal_strlit("subtraction");
    reveal_strlit("-");
    reveal_strlit("multiply");
    reveal_strlit("multiplication");
    reveal_strlit("*");
    reveal_strlit("divide");
    reveal_strlit("division");
    reveal_strlit("/");
}

/// Law: operation matching is case-insensitive — an operation text and its
/// ASCII-lowercased form resolve to the same entry of the synonym table,
/// or both to none.
pub proof fn lemma_parse_case_insensitive(s: Seq<char>)
    ensures
        op_of(ascii_lower(s)) == op_of(s),
{
    lemma_patterns_lowercase();
    lemma_matches_ci_lower(s, "add"@);
    lemma_matches_ci_lower(s, "addition"@);
    lemma_matches_ci_lower(s, "+"@);
    lemma_matches_ci_lower(s, "subtract"@);
    lemma_matches_ci_lower(s, "subtraction"@);
    lemma_matches_ci_lower(s, "-"@);
    lemma_matches_ci_lower(s, "multiply"@);
    lemma_matches_ci_lower(s, "multiplication"@);
    lemma_matches_ci_lower(s, "*"@);
    lemma_matches_ci_lower(s, "divide"@);
    lemma_matches_ci_lower(s, "division"@);
    lemma_matches_ci_lower(s, "/"@);
}

/// The two domain errors a calculator call can report; both reach the
/// client as an invalid-parameters error carrying a message.
#[derive(Clone, Copy, Debug, PartialEq, Eq, Structural)]
pub enum CalcError {
    DivisionByZero,
    UnknownOperation,
}

/// The message text each domain error carries.
pub open spec fn spec_error_message(e: CalcError) -> Seq<char> {
    match e {
        CalcError::DivisionByZero => "Division by zero is not allowed"@,
        CalcError::UnknownOperation =>
            "Unknown operation. Supported operations: add, subtract, multiply, divide"@,
    }
}

impl CalcError {
    /// The human-readable message for this error.
    pub fn message(&self) -> (r: &'static str)
        ensures
            r@ == spec_error_message(*self),
    {
        match self {
            CalcError::DivisionByZero => "Division by zero is not allowed",
            CalcError::UnknownOperation =>
                "Unknown operation. Supported operations: add, subtract, multiply, divide",
        }
    }
}

} // verus!
