//! The tolerant JSON extractor: finds a JSON payload in free text, possibly
//! inside a fenced block, and renders it as indented JSON, or hands the text
//! back unchanged.
use vstd::prelude::*;

use crate::json::{
    all_white, json_parse, parse_json, pretty_json, to_pretty, trim, trim_of,
    white_text_trims_to_empty,
};
use crate::text::chars_of;

verus! {

/// The marker that opens a fenced JSON block.
pub open spec fn open_fence() -> Seq<char> {
    seq!['`', '`', '`', 'j', 's', 'o', 'n']
}

/// The marker that closes a fenced block.
pub open spec fn close_fence() -> Seq<char> {
    seq!['`', '`', '`']
}

/// The first position at or after `from` where `pat` occurs in `s`.
pub open spec fn find_from(s: Seq<char>, pat: Seq<char>, from: int) -> Option<int>
    decreases s.len() + 1 - from,
{
    if from < 0 || from + pat.len() > s.len() {
        None
    } else if s.subrange(from, from + pat.len()) == pat {
        Some(from)
    } else {
        find_from(s, pat, from + 1)
    }
}

/// The text between the first opening marker and the next closing marker
/// (or the end of the text, if none closes it); the whole text if no block
/// is opened.
pub open spec fn fenced_body(s: Seq<char>) -> Seq<char> {
    match find_from(s, open_fence(), 0) {
        Some(i) => {
            let start = i + open_fence().len();
            match find_from(s, close_fence(), start) {
                Some(j) => s.subrange(start, j),
                None => s.subrange(start, s.len() as int),
            }
        },
        None => s,
    }
}

/// What is parsed: the fenced body with surrounding whitespace removed.
pub open spec fn json_candidate(s: Seq<char>) -> Seq<char> {
    trim_of(fenced_body(s))
}

/// The indented rendering of the candidate, where it parses and renders.
pub open spec fn rendering(s: Seq<char>) -> Option<Seq<char>> {
    match json_parse(json_candidate(s)) {
        Some(v) => Some(pretty_json(v)),
        None => None,
    }
}

/// The extractor's result: the rendering, or the original text.
pub open spec fn extracted(s: Seq<char>) -> Seq<char> {
    match rendering(s) {
        Some(t) => t,
        None => s,
    }
}

proof fn lemma_find_found(s: Seq<char>, pat: Seq<char>, from: int, i: int)
    requires
        0 <= from <= i,
        i + pat.len() <= s.len(),
        s.subrange(i, i + pat.len()) == pat,
        forall|k: int| from <= k < i ==> #[trigger] s.subrange(k, k + pat.len()) != pat,
    ensures
        find_from(s, pat, from) == Some(i),
    decreases i - from,
{
    if from < i {
        lemma_find_found(s, pat, from + 1, i);
    }
}

proof fn lemma_find_none(s: Seq<char>, pat: Seq<char>, from: int)
    requires
        0 <= from,
        forall|k: int| from <= k && k + pat.len() <= s.len() ==> #[trigger] s.subrange(k, k + pat.len()) != pat,
    ensures
        find_from(s, pat, from) is None,
    decreases s.len() + 1 - from,
{
    if from + pat.len() <= s.len() {
        lemma_find_none(s, pat, from + 1);
    }
}

proof fn lemma_find_bounds(s: Seq<char>, pat: Seq<char>, from: int)
    requires
        0 <= from,
    ensures
        find_from(s, pat, from) matches Some(i) ==> from <= i && i + pat.len() <= s.len()
            && s.subrange(i, i + pat.len()) == pat,
    decreases s.len() + 1 - from,
{
    if from + pat.len() <= s.len() && s.subrange(from, from + pat.len()) != pat {
        lemma_find_bounds(s, pat, from + 1);
    }
}

/// Whether `pat` occurs in `s` at position `i`.
fn matches_at(s: &Vec<char>, pat: &Vec<char>, i: usize) -> (r: bool)
    requires
        i <= s.len(),
        pat.len() <= s.len() - i,
    ensures
        r == (s@.subrange(i as int, i + pat.len()) == pat@),
{
    let mut k: usize = 0;
    while k < pat.len()
        invariant
            k <= pat.len(),
            i + pat.len() <= s.len(),
            forall|j: int| 0 <= j < k ==> s@[i + j] == pat@[j],
        decreases pat.len() - k,
    {
        if s[i + k] != pat[k] {
            assert(s@.subrange(i as int, i + pat.len())[k as int] != pat@[k as int]);
            return false;
        }
        k = k + 1;
    }
    assert(s@.subrange(i as int, i + pat.len()) =~= pat@);
    true
}

/// The first position at or after `from` where `pat` occurs in `s`.
fn find_in(s: &Vec<char>, pat: &Vec<char>, from: usize) -> (r: Option<usize>)
    requires
        from <= s.len(),
    ensures
        match r {
            Some(i) => find_from(s@, pat@, from as int) == Some(i as int),
            None => find_from(s@, pat@, from as int) is None,
        },
{
    let n = s.len();
    let m = pat.len();
    let mut i: usize = from;
    while i <= n && m <= n - i
        invariant
            from <= i,
            n == s.len(),
            m == pat.len(),
            forall|k: int| from <= k < i ==> #[trigger] s@.subrange(k, k + m) != pat@,
        decreases n + 1 - i,
    {
        if matches_at(s, pat, i) {
            proof {
                lemma_find_found(s@, pat@, from as int, i as int);
            }
            return Some(i);
        }
        proof {
            if m == 0 {
                assert(s@.subrange(i as int, i + m) =~= pat@);
            }
        }
        i = i + 1;
    }
    proof {
        lemma_find_none(s@, pat@, from as int);
    }
    None
}

/// The text of `response` that the extractor parses, before trimming: the
/// body of the first fenced JSON block, up to the next closing fence or the
/// end of the text; the whole text where no block is opened.
pub fn fenced_json_body(response: &str) -> (r: &str)
    ensures
        r@ == fenced_body(response@),
{
    let s = chars_of(response);
    let open: Vec<char> = vec!['`', '`', '`', 'j', 's', 'o', 'n'];
    let close: Vec<char> = vec!['`', '`', '`'];
    assert(open@ == open_fence());
    assert(close@ == close_fence());
    match find_in(&s, &open, 0) {
        Some(i) => {
            proof {
                lemma_find_bounds(s@, open@, 0);
            }
            let start = i + 7;
            match find_in(&s, &close, start) {
                Some(j) => {
                    proof {
                        lemma_find_bounds(s@, close@, start as int);
                    }
                    response.substring_char(start, j)
                },
                None => response.substring_char(start, s.len()),
            }
        },
        None => response,
    }
}

/// The verdict text given what rendering the payload produced: the rendering
/// where there is one, else the response unchanged.
pub fn choose_verdict(response: &str, rendered: Option<String>) -> (r: String)
    ensures
        r@ == match rendered {
            Some(t) => t@,
            None => response@,
        },
{
    match rendered {
        Some(t) => t,
        None => String::from_str(response),
    }
}

/// Extracts the JSON payload of `response` and renders it as indented JSON;
/// where the payload does not parse, the response comes back verbatim. So it
/// does where the payload is empty or white space alone.
pub fn extract_and_format_json(response: &str) -> (r: String)
    ensures
        r@ == extracted(response@),
        all_white(fenced_body(response@)) ==> r@ == response@,
{
    proof {
        if all_white(fenced_body(response@)) {
            white_text_trims_to_empty(fenced_body(response@));
        }
    }
    let body = fenced_json_body(response);
    let candidate = trim(body);
    let rendered = match parse_json(candidate) {
        Ok(v) => match to_pretty(&v) {
            Ok(t) => Some(t),
            Err(_) => None,
        },
        Err(_) => None,
    };
    choose_verdict(response, rendered)
}

/// The extractor is a function of its input text alone: equal texts give
/// equal results.
pub proof fn extraction_is_deterministic(a: Seq<char>, b: Seq<char>)
    requires
        a == b,
    ensures
        extracted(a) == extracted(b),
{
}

/// Where the payload does not parse as JSON, the result is the input,
/// verbatim.
pub proof fn extraction_falls_back_to_input(s: Seq<char>)
    requires
        json_parse(json_candidate(s)) is None,
    ensures
        extracted(s) == s,
{
}

/// Whether a text holds no backtick.
pub open spec fn no_backtick(s: Seq<char>) -> bool {
    forall|i: int| 0 <= i < s.len() ==> s[i] != '`'
}

/// A text without backticks, then a fenced JSON block whose body has no
/// backticks, then anything: the body of that block is what is parsed, and
/// the result is its indented rendering where it parses and renders.
pub proof fn fenced_block_is_extracted(
    prefix: Seq<char>,
    body: Seq<char>,
    rest: Seq<char>,
)
    requires
        no_backtick(prefix),
        no_backtick(body),
    ensures
        fenced_body(prefix + open_fence() + body + close_fence() + rest) == body,
        json_candidate(prefix + open_fence() + body + close_fence() + rest) == trim_of(body),
        extracted(prefix + open_fence() + body + close_fence() + rest) == match json_parse(
            trim_of(body),
        ) {
            Some(v) => pretty_json(v),
            None => prefix + open_fence() + body + close_fence() + rest,
        },
{
    let s = prefix + open_fence() + body + close_fence() + rest;
    let o = open_fence();
    let c = close_fence();
    let p = prefix.len() as int;
    let start = p + o.len();
    let end = start + body.len();
    assert forall|k: int| 0 <= k < p implies #[trigger] s.subrange(k, k + o.len()) != o by {
        assert(s[k] == prefix[k]);
        assert(s.subrange(k, k + o.len())[0] == s[k]);
    }
    assert(s.subrange(p, p + o.len()) =~= o);
    lemma_find_found(s, o, 0, p);
    assert forall|k: int| start <= k < end implies #[trigger] s.subrange(k, k + c.len()) != c by {
        assert(s[k] == body[k - start]);
        if k + c.len() <= s.len() {
            assert(s.subrange(k, k + c.len())[0] == s[k]);
        }
    }
    assert(s.subrange(end, end + c.len()) =~= c);
    lemma_find_found(s, c, start, end);
    assert(s.subrange(start, end) =~= body);
}

} // verus!
