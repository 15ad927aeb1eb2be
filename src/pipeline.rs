//! The two-stage orchestration: run the worker, then the verifier, then emit
//! the verdict. The agents are outside; this machine decides what to ask of
//! them next, given what they returned.
use vstd::prelude::*;

use crate::answer::{coerce, coerced_value, coercion_of, WorkerAnswer};
use crate::extract::{extract_and_format_json, extracted};
use crate::prompt::{build_verification_prompt, prompt_text};

verus! {

/// Where a run stands.
#[derive(Clone, Copy)]
pub enum Stage {
    RunWorker,
    RunVerifier,
    Done,
    Failed,
}

/// What an agent invocation came back with.
pub enum Event {
    /// The worker's raw output, and the answer read from it, if any.
    WorkerReturned { parsed: Option<WorkerAnswer>, raw: String },
    /// The verifier's raw output.
    VerifierReturned { raw: String },
    /// The reasoning engine itself failed.
    EngineFailed,
}

/// What the runner is to do next.
pub enum Action {
    /// Ask the worker to solve this question.
    InvokeWorker(String),
    /// Ask the verifier to judge by this request.
    InvokeVerifier(String),
    /// The run is over; this is its verdict text.
    Emit(String),
    /// The run failed; no result is produced.
    Abort,
}

/// One run of the pipeline on one question.
pub struct Pipeline {
    pub question: String,
    pub stage: Stage,
    /// The worker's coerced answer, once there is one.
    pub answer: Option<WorkerAnswer>,
    /// Whether that answer is the fallback for unreadable output.
    pub defaulted: bool,
}

/// How one event moves a run from `pre` to `post`, and what it asks for.
pub open spec fn stepped(pre: Pipeline, e: Event, post: Pipeline, a: Action) -> bool {
    &&& post.question == pre.question
    &&& match (pre.stage, e) {
        (Stage::RunWorker, Event::WorkerReturned { parsed, raw }) => {
            let v = coerced_value(coercion_of(parsed, raw));
            &&& post.stage is RunVerifier
            &&& post.answer matches Some(w) && w.value@ == v
            &&& post.defaulted == (parsed is None)
            &&& a matches Action::InvokeVerifier(t) && t@ == prompt_text(pre.question@, v)
        },
        (Stage::RunVerifier, Event::VerifierReturned { raw }) => {
            &&& post.stage is Done
            &&& post.answer == pre.answer
            &&& post.defaulted == pre.defaulted
            &&& a matches Action::Emit(t) && t@ == extracted(raw@)
        },
        _ => {
            &&& post.stage is Failed
            &&& post.answer == pre.answer
            &&& post.defaulted == pre.defaulted
            &&& a is Abort
        },
    }
}

impl Pipeline {
    /// A run on `question`, before the worker is invoked.
    pub fn new(question: String) -> (r: Pipeline)
        ensures
            r.question == question,
            r.stage is RunWorker,
            r.answer is None,
            !r.defaulted,
    {
        Pipeline { question, stage: Stage::RunWorker, answer: None, defaulted: false }
    }

    /// The first action of a run: the question goes to the worker.
    pub fn start(&self) -> (a: Action)
        ensures
            self.stage is RunWorker ==> (a matches Action::InvokeWorker(t) && t@ == self.question@),
            !(self.stage is RunWorker) ==> a is Abort,
    {
        match self.stage {
            Stage::RunWorker => Action::InvokeWorker(self.question.clone()),
            _ => Action::Abort,
        }
    }

    /// Moves the run on by what an agent returned, and says what to do next.
    /// An engine failure, or an event that the stage does not expect, ends
    /// the run as failed.
    pub fn step(&mut self, e: Event) -> (a: Action)
        ensures
            stepped(*old(self), e, *final(self), a),
    {
        match (self.stage, e) {
            (Stage::RunWorker, Event::WorkerReturned { parsed, raw }) => {
                let was_read = parsed.is_some();
                let answer = coerce(parsed, raw).answer();
                let prompt = build_verification_prompt(self.question.as_str(), answer.value.as_str());
                self.stage = Stage::RunVerifier;
                self.answer = Some(answer);
                self.defaulted = !was_read;
                Action::InvokeVerifier(prompt)
            },
            (Stage::RunVerifier, Event::VerifierReturned { raw }) => {
                let verdict = extract_and_format_json(raw.as_str());
                self.stage = Stage::Done;
                Action::Emit(verdict)
            },
            _ => {
                self.stage = Stage::Failed;
                Action::Abort
            },
        }
    }
}

/// The verification request is never built before the worker's coerced
/// answer exists: a step that invokes the verifier is taken from the worker
/// stage, on the worker's result, and its request carries that answer.
pub proof fn verifier_follows_worker(pre: Pipeline, e: Event, post: Pipeline, a: Action)
    requires
        stepped(pre, e, post, a),
        a is InvokeVerifier,
    ensures
        pre.stage is RunWorker,
        e is WorkerReturned,
        post.answer is Some,
        a->InvokeVerifier_0@ == prompt_text(pre.question@, post.answer->Some_0.value@),
{
}

/// A run never goes back to its worker stage: the worker is invoked once, at
/// the start, and every later step moves to the verifier, to the end, or to
/// failure.
pub proof fn worker_stage_is_left_for_good(pre: Pipeline, e: Event, post: Pipeline, a: Action)
    requires
        stepped(pre, e, post, a),
    ensures
        !(post.stage is RunWorker),
        !(a is InvokeWorker),
{
}

} // verus!
