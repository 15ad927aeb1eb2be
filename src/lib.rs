//! A solve-then-verify reasoning pipeline, with its contract layer verified:
//! the calculator tool, the coercion of a worker's answer, the verification
//! prompt, the tolerant JSON extractor and the two-stage orchestration.
pub mod answer;
pub mod extract;
pub mod json;
pub mod pipeline;
pub mod prompt;
mod text;
pub mod tool;

pub use answer::{coerce, Coercion, WorkerAnswer};
pub use extract::{choose_verdict, extract_and_format_json, fenced_json_body};
pub use pipeline::{Action, Event, Pipeline, Stage};
pub use prompt::build_verification_prompt;
pub use tool::{tool_result, CalculateTool, ToolCallArgs, ToolExecutionError};
