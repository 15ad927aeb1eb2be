use verified_pipeline::tool::blank;
use verified_pipeline::{tool_result, CalculateTool, ToolCallArgs, ToolExecutionError};

fn calc(e: &str) -> Result<serde_json::Number, ToolExecutionError> {
    CalculateTool.execute(&ToolCallArgs { expression: e.to_string() })
}

#[test]
fn adds_two_numbers() {
    assert_eq!(calc("2 + 2").ok().and_then(|v| v.as_f64()), Some(4.0));
}

#[test]
fn follows_operator_precedence() {
    assert_eq!(calc("2 + 3 * 4").ok().and_then(|v| v.as_f64()), Some(14.0));
    assert_eq!(calc("(2 + 3) * 4").ok().and_then(|v| v.as_f64()), Some(20.0));
    assert_eq!(calc("2 ^ 3 ^ 2").ok().and_then(|v| v.as_f64()), Some(512.0));
    assert_eq!(calc("10 / 4 - 0.5").ok().and_then(|v| v.as_f64()), Some(2.0));
    assert_eq!(calc("100 * 1.4 * 0.6").ok().and_then(|v| v.as_f64()), Some(100.0 * 1.4 * 0.6));
}

#[test]
fn malformed_expression_is_a_tool_failure() {
    assert!(matches!(calc("2 + "), Err(ToolExecutionError::Evaluation(_))));
    assert!(matches!(calc("(1 + 2"), Err(ToolExecutionError::Evaluation(_))));
    assert!(calc("two plus two").is_err());
}

#[test]
fn repeated_calls_are_independent() {
    let tool = CalculateTool;
    let a = tool.execute(&ToolCallArgs { expression: "1 + 1".to_string() });
    let b = tool.execute(&ToolCallArgs { expression: "1 + 1".to_string() });
    assert_eq!(a.ok(), b.ok());
}

#[test]
fn tool_metadata() {
    let tool = CalculateTool;
    assert_eq!(tool.name(), "calculate");
    assert_eq!(tool.description(), "Add two numbers");
    assert_eq!(
        tool.expression_description(),
        "The mathematical expression to evaluate (e.g., '20 + 5')"
    );
}

#[test]
fn blank_expression_is_a_tool_failure() {
    assert!(matches!(calc(" "), Err(ToolExecutionError::Blank)));
    assert!(matches!(calc(" \t\r\n "), Err(ToolExecutionError::Blank)));
}

#[test]
fn empty_expression_is_an_evaluation_failure() {
    assert!(matches!(calc(""), Err(ToolExecutionError::Evaluation(_))));
}

#[test]
fn surrounding_whitespace_is_allowed() {
    assert_eq!(calc("  2 + 2  ").ok().and_then(|v| v.as_f64()), Some(4.0));
    assert_eq!(calc("\n3*3\n").ok().and_then(|v| v.as_f64()), Some(9.0));
}

#[test]
fn infinite_result_is_a_tool_failure() {
    assert!(matches!(calc("1 / 0"), Err(ToolExecutionError::NotFinite)));
    assert!(matches!(calc("0 / 0"), Err(ToolExecutionError::NotFinite)));
}

#[test]
fn blank_text_check() {
    assert!(blank(" "));
    assert!(blank("\t\n\r "));
    assert!(!blank(""));
    assert!(!blank(" 1 "));
    assert!(!blank("\u{a0}"));
}

#[test]
fn evaluator_outcome_to_tool_result() {
    let n = serde_json::Number::from_f64(2.5).unwrap();
    assert_eq!(tool_result(Ok(Some(n.clone()))).ok(), Some(n));
    assert!(matches!(tool_result(Ok(None)), Err(ToolExecutionError::NotFinite)));
    let e = meval::eval_str("2 +").unwrap_err();
    assert!(matches!(tool_result(Err(e)), Err(ToolExecutionError::Evaluation(_))));
}
