use verified_pipeline::{
    build_verification_prompt, coerce, Action, Coercion, Event, Pipeline, Stage, WorkerAnswer,
};

const TEMPLATE_TAIL: &str = "\n\n    Tasks:\n    1) Decide if the solver answer is correct.\n    2) If incorrect or incomplete, correct it.\n    3) Return ONLY valid JSON:\n    {\n      \"is_correct\": boolean,\n      \"issues\": [string, ...],\n      \"final_answer\": string\n    }\n    ";

fn answer(v: &str) -> WorkerAnswer {
    WorkerAnswer { value: v.to_string() }
}

#[test]
fn read_answer_is_kept() {
    let c = coerce(Some(answer("84.00000000000001")), "{\"value\": 84.00000000000001}".to_string());
    assert!(c.is_parsed());
    assert_eq!(c.answer().value, "84.00000000000001");
}

#[test]
fn unreadable_answer_defaults_to_zero() {
    let c = coerce(None, "the answer is four".to_string());
    assert!(!c.is_parsed());
    assert!(matches!(&c, Coercion::Defaulted(raw) if raw == "the answer is four"));
    assert_eq!(c.answer().value, "0");
    assert_eq!(WorkerAnswer::fallback().value, "0");
}

#[test]
fn prompt_is_rendered_exactly() {
    let p = build_verification_prompt("2 + 2", "4");
    let expected = format!(
        "\n    You are a strict verifier.\n\n    User question:\n    {}\n\n    Solver answer:\n    {}{}",
        "2 + 2", "4", TEMPLATE_TAIL
    );
    assert_eq!(p, expected);
    assert_eq!(p, build_verification_prompt("2 + 2", "4"));
}

#[test]
fn worker_answer_reaches_the_prompt() {
    let mut run = Pipeline::new("2 + 2".to_string());
    assert!(matches!(run.start(), Action::InvokeWorker(q) if q == "2 + 2"));
    let a = run.step(Event::WorkerReturned {
        parsed: Some(answer("4")),
        raw: "{\"value\": 4}".to_string(),
    });
    match a {
        Action::InvokeVerifier(p) => {
            assert!(p.contains("4"));
            assert!(p.contains("2 + 2"));
            assert!(p.contains("Solver answer:\n    4\n"));
        }
        _ => panic!("expected the verifier to be invoked"),
    }
    assert!(matches!(run.stage, Stage::RunVerifier));
    assert!(!run.defaulted);
}

#[test]
fn full_run_emits_the_normalized_verdict() {
    let mut run = Pipeline::new("2 + 2".to_string());
    let _ = run.start();
    let _ = run.step(Event::WorkerReturned { parsed: None, raw: "four".to_string() });
    assert!(run.defaulted);
    assert_eq!(run.answer.as_ref().map(|a| a.value.clone()), Some("0".to_string()));
    let verdict = run.step(Event::VerifierReturned {
        raw: "Here you go:\n```json\n{\"final_answer\": \"4\"}\n```".to_string(),
    });
    assert!(matches!(verdict, Action::Emit(t) if t == "{\n  \"final_answer\": \"4\"\n}"));
    assert!(matches!(run.stage, Stage::Done));
}

#[test]
fn verifier_text_without_json_is_emitted_verbatim() {
    let mut run = Pipeline::new("q".to_string());
    let _ = run.step(Event::WorkerReturned { parsed: Some(answer("1")), raw: String::new() });
    let verdict = run.step(Event::VerifierReturned { raw: "I think it's 4, no JSON here".to_string() });
    assert!(matches!(verdict, Action::Emit(t) if t == "I think it's 4, no JSON here"));
}

#[test]
fn verifier_result_before_worker_fails_the_run() {
    let mut run = Pipeline::new("q".to_string());
    let a = run.step(Event::VerifierReturned { raw: "{}".to_string() });
    assert!(matches!(a, Action::Abort));
    assert!(matches!(run.stage, Stage::Failed));
    assert!(run.answer.is_none());
    assert!(matches!(run.start(), Action::Abort));
}

#[test]
fn engine_failure_is_fatal() {
    let mut run = Pipeline::new("q".to_string());
    let _ = run.step(Event::WorkerReturned { parsed: Some(answer("3")), raw: String::new() });
    let a = run.step(Event::EngineFailed);
    assert!(matches!(a, Action::Abort));
    assert!(matches!(run.stage, Stage::Failed));
}
