use edu_assistant::parse::parse_practice_response;

const FAILED_QUESTION: &str = "Failed to generate a question.";
const FAILED_ANSWER: &str = "N/A";

#[test]
fn parses_well_formed_response() {
    let r = parse_practice_response("Question: What is 2+2? Answer: 4");
    assert_eq!(r.question, "What is 2+2?");
    assert_eq!(r.answer, "4");
}

#[test]
fn missing_delimiter_yields_sentinel() {
    let r = parse_practice_response("no delimiter here");
    assert_eq!(r.question, FAILED_QUESTION);
    assert_eq!(r.answer, FAILED_ANSWER);
}

#[test]
fn repeated_delimiter_yields_sentinel() {
    let r = parse_practice_response("Answer: a Answer: b");
    assert_eq!(r.question, FAILED_QUESTION);
    assert_eq!(r.answer, FAILED_ANSWER);

    let r = parse_practice_response("Question: q Answer: a Answer: b Answer: c");
    assert_eq!(r.question, FAILED_QUESTION);
    assert_eq!(r.answer, FAILED_ANSWER);
}

#[test]
fn empty_response_yields_sentinel() {
    let r = parse_practice_response("");
    assert_eq!(r.question, FAILED_QUESTION);
    assert_eq!(r.answer, FAILED_ANSWER);
}

#[test]
fn reparsing_the_sentinel_is_idempotent() {
    let first = parse_practice_response("gibberish with no marker");
    let again = parse_practice_response(&first.question);
    assert_eq!(again.question, FAILED_QUESTION);
    assert_eq!(again.answer, FAILED_ANSWER);
    let once_more = parse_practice_response(&again.answer);
    assert_eq!(once_more.question, FAILED_QUESTION);
    assert_eq!(once_more.answer, FAILED_ANSWER);
}

#[test]
fn question_marker_is_optional() {
    let r = parse_practice_response("Define a variable Answer: a named value");
    assert_eq!(r.question, "Define a variable");
    assert_eq!(r.answer, "a named value");
}

#[test]
fn only_the_leading_marker_is_stripped() {
    let r = parse_practice_response("Question:Question: odd Answer: yes");
    assert_eq!(r.question, "Question: odd");
    assert_eq!(r.answer, "yes");
}

#[test]
fn marker_after_whitespace_is_kept() {
    let r = parse_practice_response("  Question: q Answer: a");
    assert_eq!(r.question, "Question: q");
    assert_eq!(r.answer, "a");
}

#[test]
fn surrounding_whitespace_is_trimmed() {
    let r = parse_practice_response("Question:\tWhat?\u{a0} Answer:\n 42 \r\n");
    assert_eq!(r.question, "What?");
    assert_eq!(r.answer, "42");
}

#[test]
fn empty_segments_parse_to_empty_fields() {
    let r = parse_practice_response("Answer:");
    assert_eq!(r.question, "");
    assert_eq!(r.answer, "");
}

#[test]
fn delimiter_must_match_exactly() {
    let r = parse_practice_response("Question: q answer: a");
    assert_eq!(r.question, FAILED_QUESTION);
    assert_eq!(r.answer, FAILED_ANSWER);
}

#[test]
fn non_ascii_content_is_preserved() {
    let r = parse_practice_response("Question: Was ist „Zähler“? Answer: Ein Teil des Bruchs — oben.");
    assert_eq!(r.question, "Was ist „Zähler“?");
    assert_eq!(r.answer, "Ein Teil des Bruchs — oben.");
}
