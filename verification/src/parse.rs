//! Response parser: splits one free-text model response into a
//! question/answer pair on the literal `"Answer:"` delimiter, falling back to
//! a fixed sentinel whenever the delimiter does not occur exactly once.

use vstd::prelude::*;

use crate::text::{find_from, matches_at, occurs_at, trim_spec, trim_to_string};

verus! {

/// The delimiter separating question from answer in a model response.
pub open spec fn answer_delim() -> Seq<char> {
    "Answer:"@
}

/// The marker stripped from the front of the question segment.
pub open spec fn question_marker() -> Seq<char> {
    "Question:"@
}

/// The sentinel question text returned when parsing fails.
pub open spec fn failed_question_text() -> Seq<char> {
    "Failed to generate a question."@
}

/// The sentinel answer text returned when parsing fails.
pub open spec fn failed_answer_text() -> Seq<char> {
    "N/A"@
}

/// `pat` occurs in `s` at `i` and nowhere else.
pub open spec fn unique_occurrence(s: Seq<char>, pat: Seq<char>, i: int) -> bool {
    occurs_at(s, pat, i) && (forall|j: int| occurs_at(s, pat, j) ==> j == i)
}

/// The question segment with a leading `"Question:"` marker, if present,
/// removed.
pub open spec fn strip_question_marker(s: Seq<char>) -> Seq<char> {
    if question_marker().len() <= s.len() && s.subrange(0, question_marker().len() as int)
        == question_marker() {
        s.subrange(question_marker().len() as int, s.len() as int)
    } else {
        s
    }
}

/// The question a response yields when the delimiter's sole occurrence is at
/// `i`: everything before the delimiter, with a leading `"Question:"` marker
/// and surrounding whitespace removed.
pub open spec fn question_of(s: Seq<char>, i: int) -> Seq<char> {
    trim_spec(strip_question_marker(s.subrange(0, i)))
}

/// The answer a response yields when the delimiter's sole occurrence is at
/// `i`: everything after the delimiter, with surrounding whitespace removed.
pub open spec fn answer_of(s: Seq<char>, i: int) -> Seq<char> {
    trim_spec(s.subrange(i + answer_delim().len() as int, s.len() as int))
}

/// A practice question with its answer, parsed from one model response.
pub struct PracticeQuestion {
    /// The practice question text.
    pub question: String,
    /// The answer text, for verification by the caller.
    pub answer: String,
}

/// The fixed sentinel result returned whenever a response does not split
/// cleanly into question and answer.
pub fn sentinel_practice_question() -> (r: PracticeQuestion)
    ensures
        r.question@ == failed_question_text(),
        r.answer@ == failed_answer_text(),
{
    PracticeQuestion {
        question: String::from_str("Failed to generate a question."),
        answer: String::from_str("N/A"),
    }
}

/// Strips a leading `"Question:"` marker, if any.
fn strip_question_prefix<'a>(s: &'a str) -> (r: &'a str)
    ensures
        r@ == strip_question_marker(s@),
{
    let n = s.unicode_len();
    proof {
        reveal_strlit("Question:");
    }
    if n >= 9 {
        if matches_at(s, "Question:", 0) {
            let r = s.substring_char(9, n);
            return r;
        }
    }
    s
}

/// Parses one model response into a question/answer pair. When the
/// `"Answer:"` delimiter occurs exactly once, the text before it (with a
/// leading `"Question:"` marker and surrounding whitespace removed) is the
/// question and the trimmed text after it is the answer; otherwise — no
/// occurrence, or more than one — the fixed sentinel pair is returned, never
/// an error.
pub fn parse_practice_response(raw: &str) -> (r: PracticeQuestion)
    ensures
        forall|i: int|
            unique_occurrence(raw@, answer_delim(), i) ==> r.question@ == question_of(raw@, i)
                && r.answer@ == answer_of(raw@, i),
        !(exists|i: int| unique_occurrence(raw@, answer_delim(), i)) ==> r.question@
            == failed_question_text() && r.answer@ == failed_answer_text(),
{
    let n = raw.unicode_len();
    proof {
        reveal_strlit("Answer:");
    }
    match find_from(raw, "Answer:", 0) {
        None => sentinel_practice_question(),
        Some(i) => {
            match find_from(raw, "Answer:", i + 1) {
                Some(_) => {
                    proof {
                        assert(forall|k: int| !unique_occurrence(raw@, answer_delim(), k));
                    }
                    sentinel_practice_question()
                },
                None => {
                    proof {
                        assert(unique_occurrence(raw@, answer_delim(), i as int));
                    }
                    let qseg = raw.substring_char(0, i);
                    let q1 = strip_question_prefix(qseg);
                    let question = trim_to_string(q1);
                    let aseg = raw.substring_char(i + 7, n);
                    let answer = trim_to_string(aseg);
                    proof {
                        assert(question@ == question_of(raw@, i as int));
                        assert(answer@ == answer_of(raw@, i as int));
                        assert(forall|k: int|
                            unique_occurrence(raw@, answer_delim(), k) ==> k == i as int);
                    }
                    PracticeQuestion { question, answer }
                },
            }
        },
    }
}

/// Law: the failure sentinel is a fixed point of parsing. Neither sentinel
/// text holds an occurrence of the `"Answer:"` delimiter, so by the contract
/// of `parse_practice_response`, re-parsing either field of a failed result
/// yields the same sentinel again.
pub proof fn lemma_sentinel_reparse_fails()
    ensures
        !(exists|i: int| unique_occurrence(failed_question_text(), answer_delim(), i)),
        !(exists|i: int| unique_occurrence(failed_answer_text(), answer_delim(), i)),
{
    reveal_strlit("Answer:");
    reveal_strlit("Failed to generate a question.");
    reveal_strlit("N/A");
    let q = failed_question_text();
    let a = failed_answer_text();
    let d = answer_delim();
    assert forall|i: int| !occurs_at(q, d, i) by {
        if occurs_at(q, d, i) {
            assert(q.subrange(i, i + d.len() as int)[0] == q[i]);
            assert(q[i] == 'A');
            assert(forall|k: int| 0 <= k < q.len() ==> q[k] != 'A');
        }
    }
    assert(forall|i: int| occurs_at(a, d, i) ==> i + 7 <= 3);
}

} // verus!
