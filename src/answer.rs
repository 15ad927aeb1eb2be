//! The worker's typed answer and the best-effort coercion that yields it.
use vstd::prelude::*;

verus! {

/// The worker's final numeric answer, as the decimal text of the number.
pub struct WorkerAnswer {
    pub value: String,
}

/// The value that stands for an answer that could not be read: zero.
pub open spec fn fallback_value() -> Seq<char> {
    seq!['0']
}

impl WorkerAnswer {
    /// The answer that a malformed worker response is replaced by.
    pub fn fallback() -> (r: WorkerAnswer)
        ensures
            r.value@ == fallback_value(),
    {
        let r = WorkerAnswer { value: String::from_str("0") };
        proof {
            reveal_strlit("0");
        }
        r
    }
}

/// The outcome of coercing the worker's raw output: the answer it held, or
/// the raw text that could not be read as one.
pub enum Coercion {
    Parsed(WorkerAnswer),
    Defaulted(String),
}

/// The answer that a coercion yields, as a decimal text.
pub open spec fn coerced_value(c: Coercion) -> Seq<char> {
    match c {
        Coercion::Parsed(a) => a.value@,
        Coercion::Defaulted(_) => fallback_value(),
    }
}

/// The coercion of a reading `parsed` of the raw output `raw`.
pub open spec fn coercion_of(parsed: Option<WorkerAnswer>, raw: String) -> Coercion {
    match parsed {
        Some(a) => Coercion::Parsed(a),
        None => Coercion::Defaulted(raw),
    }
}

/// Records the outcome of reading `raw` as a worker answer: `parsed` is what
/// the reading gave. A failed reading is kept, with its raw text, never raised.
pub fn coerce(parsed: Option<WorkerAnswer>, raw: String) -> (r: Coercion)
    ensures
        r == coercion_of(parsed, raw),
{
    match parsed {
        Some(a) => Coercion::Parsed(a),
        None => Coercion::Defaulted(raw),
    }
}

impl Coercion {
    /// The answer to pass on: the parsed one, or the fallback of zero.
    pub fn answer(self) -> (r: WorkerAnswer)
        ensures
            r.value@ == coerced_value(self),
            self matches Coercion::Parsed(a) ==> r == a,
    {
        match self {
            Coercion::Parsed(a) => a,
            Coercion::Defaulted(_) => WorkerAnswer::fallback(),
        }
    }

    /// Whether the answer was read from the worker's output rather than
    /// defaulted.
    pub fn is_parsed(&self) -> (r: bool)
        ensures
            r == (self is Parsed),
    {
        match self {
            Coercion::Parsed(_) => true,
            Coercion::Defaulted(_) => false,
        }
    }
}

/// Coercion idempotence: an answer that was read is passed on exactly as it
/// was read, and output that could not be read yields zero.
pub proof fn coercion_keeps_read_answers(parsed: Option<WorkerAnswer>, raw: String)
    ensures
        parsed matches Some(a) ==> coerced_value(coercion_of(parsed, raw)) == a.value@,
        parsed is None ==> coerced_value(coercion_of(parsed, raw)) == fallback_value(),
{
}

} // verus!
