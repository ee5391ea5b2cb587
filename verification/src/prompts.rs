//! Prompt builder: pure functions rendering typed educational requests into
//! fixed natural-language templates for the model gateway.

use vstd::prelude::*;

use crate::text::{contains_seq, dec_digit, dec_rep, occurs_at, u8_to_decimal};

verus! {

/// A typed request for an explanation: what to explain and how deep to go.
pub struct EduPrompt {
    /// The school subject, e.g. mathematics.
    pub subject: String,
    /// The specific topic within the subject.
    pub topic: String,
    /// The user's question or request.
    pub question: String,
    /// Intended difficulty, 1 (beginner) to 5 (advanced); not validated,
    /// any value is rendered into the prompt verbatim.
    pub difficulty: u8,
}

/// The explanation prompt: the fixed template with subject, topic, question
/// and the decimal rendering of the difficulty spliced in verbatim.
pub open spec fn edu_prompt_text(
    subject: Seq<char>,
    topic: Seq<char>,
    question: Seq<char>,
    difficulty: u8,
) -> Seq<char> {
    "You are an expert educator in "@ + subject + ". Provide a detailed explanation for "@
        + topic + " related to '"@ + question + "'. Adjust the explanation to difficulty level "@
        + dec_rep(difficulty as nat)
        + " (1 = beginner, 5 = advanced). Keep it concise, clear, and educational."@
}

/// The practice prompt: the fixed template with subject, topic and the
/// decimal rendering of the difficulty spliced in verbatim. It instructs the
/// model to answer in the `Question: ... Answer: ...` shape that the
/// response parser expects.
pub open spec fn practice_prompt_text(subject: Seq<char>, topic: Seq<char>, difficulty: u8) -> Seq<
    char,
> {
    "Generate a practice question for "@ + subject + " on the topic '"@ + topic
        + "'. The question should match difficulty level "@ + dec_rep(difficulty as nat)
        + " (1 = easy, 5 = very hard). Provide the question and its answer in this format: 'Question: <text> Answer: <text>'."@
}

/// Renders the explanation prompt for a request.
pub fn build_edu_prompt(input: EduPrompt) -> (r: String)
    ensures
        r@ == edu_prompt_text(input.subject@, input.topic@, input.question@, input.difficulty),
{
    let mut r = String::from_str("You are an expert educator in ");
    r.append(input.subject.as_str());
    r.append(". Provide a detailed explanation for ");
    r.append(input.topic.as_str());
    r.append(" related to '");
    r.append(input.question.as_str());
    r.append("'. Adjust the explanation to difficulty level ");
    let d = u8_to_decimal(input.difficulty);
    r.append(d.as_str());
    r.append(" (1 = beginner, 5 = advanced). Keep it concise, clear, and educational.");
    proof {
        assert(r@ =~= edu_prompt_text(
            input.subject@,
            input.topic@,
            input.question@,
            input.difficulty,
        ));
    }
    r
}

/// Renders the practice-question prompt.
pub fn build_practice_prompt(subject: String, topic: String, difficulty: u8) -> (r: String)
    ensures
        r@ == practice_prompt_text(subject@, topic@, difficulty),
{
    let mut r = String::from_str("Generate a practice question for ");
    r.append(subject.as_str());
    r.append(" on the topic '");
    r.append(topic.as_str());
    r.append("'. The question should match difficulty level ");
    let d = u8_to_decimal(difficulty);
    r.append(d.as_str());
    r.append(
        " (1 = easy, 5 = very hard). Provide the question and its answer in this format: 'Question: <text> Answer: <text>'.",
    );
    proof {
        assert(r@ =~= practice_prompt_text(subject@, topic@, difficulty));
    }
    r
}

/// `s` holds a brace character, the shape of an unfilled template
/// placeholder.
pub open spec fn has_brace(s: Seq<char>) -> bool {
    exists|k: int| 0 <= k < s.len() && (s[k] == '{' || s[k] == '}')
}

proof fn lemma_dec_rep_no_brace(n: nat)
    ensures
        !has_brace(dec_rep(n)),
    decreases n,
{
    reveal_with_fuel(dec_rep, 2);
    if n < 10 {
        assert(dec_rep(n) =~= seq![dec_digit(n)]);
    } else {
        lemma_dec_rep_no_brace(n / 10);
        assert(forall|k: int| 0 <= k < dec_rep(n).len() - 1 ==> dec_rep(n)[k] == dec_rep(n / 10)[k]);
    }
}

proof fn lemma_concat_no_brace(a: Seq<char>, b: Seq<char>)
    requires
        !has_brace(a),
        !has_brace(b),
    ensures
        !has_brace(a + b),
{
    assert forall|k: int| 0 <= k < (a + b).len() implies !((a + b)[k] == '{' || (a + b)[k] == '}')
        by {
        if k < a.len() {
            assert((a + b)[k] == a[k]);
        } else {
            assert((a + b)[k] == b[k - a.len()]);
        }
    }
}

/// Law: the explanation prompt embeds the subject, the topic, the question
/// and the decimal rendering of the difficulty verbatim, each as one
/// contiguous block; and the template itself introduces no brace characters,
/// so a prompt built from brace-free fields holds no placeholder-shaped
/// text.
pub proof fn lemma_edu_prompt_embeds_fields(
    subject: Seq<char>,
    topic: Seq<char>,
    question: Seq<char>,
    difficulty: u8,
)
    ensures
        contains_seq(edu_prompt_text(subject, topic, question, difficulty), subject),
        contains_seq(edu_prompt_text(subject, topic, question, difficulty), topic),
        contains_seq(edu_prompt_text(subject, topic, question, difficulty), question),
        contains_seq(
            edu_prompt_text(subject, topic, question, difficulty),
            dec_rep(difficulty as nat),
        ),
        !has_brace(subject) && !has_brace(topic) && !has_brace(question) ==> !has_brace(
            edu_prompt_text(subject, topic, question, difficulty),
        ),
{
    let p = edu_prompt_text(subject, topic, question, difficulty);
    let l1 = "You are an expert educator in "@;
    let l2 = ". Provide a detailed explanation for "@;
    let l3 = " related to '"@;
    let l4 = "'. Adjust the explanation to difficulty level "@;
    let d = dec_rep(difficulty as nat);
    let o1 = l1.len() as int;
    let o2 = o1 + subject.len() + l2.len();
    let o3 = o2 + topic.len() + l3.len();
    let o4 = o3 + question.len() + l4.len();
    assert(p.subrange(o1, o1 + subject.len()) =~= subject);
    assert(occurs_at(p, subject, o1));
    assert(p.subrange(o2, o2 + topic.len()) =~= topic);
    assert(occurs_at(p, topic, o2));
    assert(p.subrange(o3, o3 + question.len()) =~= question);
    assert(occurs_at(p, question, o3));
    assert(p.subrange(o4, o4 + d.len()) =~= d);
    assert(occurs_at(p, d, o4));
    if !has_brace(subject) && !has_brace(topic) && !has_brace(question) {
        let l5 = " (1 = beginner, 5 = advanced). Keep it concise, clear, and educational."@;
        reveal_strlit("You are an expert educator in ");
        reveal_strlit(". Provide a detailed explanation for ");
        reveal_strlit(" related to '");
        reveal_strlit("'. Adjust the explanation to difficulty level ");
        reveal_strlit(" (1 = beginner, 5 = advanced). Keep it concise, clear, and educational.");
        assert(!has_brace(l1));
        assert(!has_brace(l2));
        assert(!has_brace(l3));
        assert(!has_brace(l4));
        assert(!has_brace(l5));
        lemma_dec_rep_no_brace(difficulty as nat);
        lemma_concat_no_brace(l1, subject);
        lemma_concat_no_brace(l1 + subject, l2);
        lemma_concat_no_brace(l1 + subject + l2, topic);
        lemma_concat_no_brace(l1 + subject + l2 + topic, l3);
        lemma_concat_no_brace(l1 + subject + l2 + topic + l3, question);
        lemma_concat_no_brace(l1 + subject + l2 + topic + l3 + question, l4);
        lemma_concat_no_brace(l1 + subject + l2 + topic + l3 + question + l4, d);
        lemma_concat_no_brace(l1 + subject + l2 + topic + l3 + question + l4 + d, l5);
    }
}

} // verus!
