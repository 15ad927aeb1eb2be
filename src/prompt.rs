//! The verification request handed to the verifier agent.
use vstd::prelude::*;

verus! {

/// The template text before the question.
pub open spec fn prompt_head() -> Seq<char> {
    "\n    You are a strict verifier.\n\n    User question:\n    "@
}

/// The template text between the question and the worker's answer.
pub open spec fn prompt_middle() -> Seq<char> {
    "\n\n    Solver answer:\n    "@
}

/// The template text after the worker's answer: the three tasks and the JSON
/// shape that the verifier must return.
pub open spec fn prompt_tail() -> Seq<char> {
    "\n\n    Tasks:\n    1) Decide if the solver answer is correct.\n    2) If incorrect or incomplete, correct it.\n    3) Return ONLY valid JSON:\n    {\n      \"is_correct\": boolean,\n      \"issues\": [string, ...],\n      \"final_answer\": string\n    }\n    "@
}

/// The verification request for `question` and the worker's answer `value`.
pub open spec fn prompt_text(question: Seq<char>, value: Seq<char>) -> Seq<char> {
    prompt_head() + question + prompt_middle() + value + prompt_tail()
}

/// Renders the verification request: the question and the worker's answer
/// put into the fixed template, with no escaping.
pub fn build_verification_prompt(question: &str, value: &str) -> (r: String)
    ensures
        r@ == prompt_text(question@, value@),
{
    let mut out = String::from_str("\n    You are a strict verifier.\n\n    User question:\n    ");
    out.append(question);
    out.append("\n\n    Solver answer:\n    ");
    out.append(value);
    out.append(
        "\n\n    Tasks:\n    1) Decide if the solver answer is correct.\n    2) If incorrect or incomplete, correct it.\n    3) Return ONLY valid JSON:\n    {\n      \"is_correct\": boolean,\n      \"issues\": [string, ...],\n      \"final_answer\": string\n    }\n    ",
    );
    out
}

/// The request holds the question and the worker's answer verbatim, each at
/// its fixed place in the template.
pub proof fn prompt_embeds_question_and_answer(question: Seq<char>, value: Seq<char>)
    ensures
        ({
            let p = prompt_text(question, value);
            let q_at: int = prompt_head().len() as int;
            let v_at: int = q_at + question.len() + prompt_middle().len();
            &&& p.subrange(q_at, q_at + question.len()) == question
            &&& p.subrange(v_at, v_at + value.len()) == value
            &&& p.subrange(0, q_at) == prompt_head()
            &&& p.subrange(v_at + value.len(), p.len() as int) == prompt_tail()
        }),
{
    let p = prompt_text(question, value);
    let q_at: int = prompt_head().len() as int;
    let v_at: int = q_at + question.len() + prompt_middle().len();
    assert(p.subrange(q_at, q_at + question.len()) =~= question);
    assert(p.subrange(v_at, v_at + value.len()) =~= value);
    assert(p.subrange(0, q_at) =~= prompt_head());
    assert(p.subrange(v_at + value.len(), p.len() as int) =~= prompt_tail());
}

} // verus!
