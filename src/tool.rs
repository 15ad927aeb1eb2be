//! The calculator tool that the worker agent may call.
use vstd::prelude::*;

use crate::text::chars_of;

verus! {

#[verifier::external_type_specification]
#[verifier::external_body]
pub struct ExEvalError(meval::Error);

#[verifier::external_type_specification]
#[verifier::external_body]
pub struct ExJsonNumber(serde_json::Number);

/// The whitespace that the evaluator's tokenizer skips.
pub open spec fn is_expression_space(c: char) -> bool {
    c == ' ' || c == '\t' || c == '\n' || c == '\r'
}

/// A non-empty expression made of nothing but that whitespace.
pub open spec fn is_blank(s: Seq<char>) -> bool {
    s.len() > 0 && forall|i: int| 0 <= i < s.len() ==> is_expression_space(#[trigger] s[i])
}

/// The error that `meval::eval_str` reports for an expression, if any. It is
/// fixed by the text alone: tokenizing, conversion to postfix, unknown names
/// and function arity are all checked before any number is computed. The
/// number itself gets no name: `powf` and the builtin functions have no
/// precision that std promises.
pub uninterp spec fn eval_error(s: Seq<char>) -> Option<meval::Error>;

/// Relies on `meval::eval_str`: parses an arithmetic expression (`+ - * / ^`,
/// parentheses, decimal literals) and evaluates it, or reports why it cannot;
/// and on `serde_json::Number::from_f64`, which keeps finite numbers only.
/// The tokenizer panics on a blank text, which is therefore left out.
#[verifier::external_body]
fn evaluate(expression: &str) -> (r: Result<Option<serde_json::Number>, meval::Error>)
    requires
        !is_blank(expression@),
    ensures
        r is Err <==> eval_error(expression@) is Some,
        r is Err ==> eval_error(expression@) == Some(r->Err_0),
{
    meval::eval_str(expression).map(serde_json::Number::from_f64)
}

/// The tool's result for what the evaluator returned: the number where it is
/// finite, a failure that says why there is none otherwise.
pub fn tool_result(outcome: Result<Option<serde_json::Number>, meval::Error>) -> (r: Result<
    serde_json::Number,
    ToolExecutionError,
>)
    ensures
        r == match outcome {
            Ok(Some(n)) => Ok(n),
            Ok(None) => Err(ToolExecutionError::NotFinite),
            Err(e) => Err(ToolExecutionError::Evaluation(e)),
        },
{
    match outcome {
        Ok(Some(n)) => Ok(n),
        Ok(None) => Err(ToolExecutionError::NotFinite),
        Err(e) => Err(ToolExecutionError::Evaluation(e)),
    }
}

/// Whether `s` is blank: non-empty, and only spaces, tabs, CR and LF.
pub fn blank(s: &str) -> (r: bool)
    ensures
        r == is_blank(s@),
{
    let cs = chars_of(s);
    if cs.len() == 0 {
        return false;
    }
    let mut i: usize = 0;
    while i < cs.len()
        invariant
            i <= cs.len(),
            cs@ == s@,
            forall|k: int| 0 <= k < i ==> is_expression_space(#[trigger] cs@[k]),
        decreases cs.len() - i,
    {
        let c = cs[i];
        if !(c == ' ' || c == '\t' || c == '\n' || c == '\r') {
            return false;
        }
        i = i + 1;
    }
    true
}

/// The arguments of one call of the calculator.
pub struct ToolCallArgs {
    pub expression: String,
}

/// A call of the calculator that failed.
pub enum ToolExecutionError {
    /// The evaluator's diagnostic on a malformed expression.
    Evaluation(meval::Error),
    /// The expression is nothing but whitespace.
    Blank,
    /// The expression evaluates to an infinity or to NaN, which is no number.
    NotFinite,
}

/// The calculator tool: stateless, so any number of calls are independent.
pub struct CalculateTool;

impl CalculateTool {
    /// The name under which the tool is offered to the reasoning engine.
    pub fn name(&self) -> (r: &'static str)
        ensures
            r@ == "calculate"@,
    {
        "calculate"
    }

    /// The description offered with the tool.
    pub fn description(&self) -> (r: &'static str)
        ensures
            r@ == "Add two numbers"@,
    {
        "Add two numbers"
    }

    /// The description of the one input field, `expression`.
    pub fn expression_description(&self) -> (r: &'static str)
        ensures
            r@ == "The mathematical expression to evaluate (e.g., '20 + 5')"@,
    {
        "The mathematical expression to evaluate (e.g., '20 + 5')"
    }

    /// Evaluates the expression of `args`: its value, or a tool failure that
    /// says why there is none. A blank text fails before the evaluator sees
    /// it; any other text fails with the evaluator's diagnostic exactly when
    /// the evaluator reports one, and otherwise yields the finite value or
    /// `NotFinite` (see `tool_result`).
    pub fn execute(&self, args: &ToolCallArgs) -> (r: Result<serde_json::Number, ToolExecutionError>)
        ensures
            is_blank(args.expression@) ==> r == Err::<serde_json::Number, _>(ToolExecutionError::Blank),
            !is_blank(args.expression@) ==> match eval_error(args.expression@) {
                Some(e) => r == Err::<serde_json::Number, _>(ToolExecutionError::Evaluation(e)),
                None => r is Ok || r == Err::<serde_json::Number, _>(ToolExecutionError::NotFinite),
            },
    {
        if blank(args.expression.as_str()) {
            return Err(ToolExecutionError::Blank);
        }
        tool_result(evaluate(args.expression.as_str()))
    }
}

} // verus!
