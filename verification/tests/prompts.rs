use edu_assistant::prompts::{build_edu_prompt, build_practice_prompt, EduPrompt};
use edu_assistant::text::u8_to_decimal;

fn request(subject: &str, topic: &str, question: &str, difficulty: u8) -> EduPrompt {
    EduPrompt {
        subject: subject.to_string(),
        topic: topic.to_string(),
        question: question.to_string(),
        difficulty,
    }
}

#[test]
fn explanation_prompt_exact_text() {
    let p = build_edu_prompt(request("Mathematics", "Algebra", "What is a variable?", 3));
    assert_eq!(
        p,
        "You are an expert educator in Mathematics. Provide a detailed explanation for Algebra \
         related to 'What is a variable?'. Adjust the explanation to difficulty level 3 \
         (1 = beginner, 5 = advanced). Keep it concise, clear, and educational."
    );
}

#[test]
fn explanation_prompt_embeds_fields_for_all_difficulties() {
    for d in 1u8..=5 {
        let p = build_edu_prompt(request("Science", "Motion", "Why do objects fall?", d));
        assert!(p.contains("Science"));
        assert!(p.contains("Motion"));
        assert!(p.contains("Why do objects fall?"));
        assert!(p.contains(&format!("difficulty level {} ", d)));
        assert!(!p.contains("{}"));
        assert!(!p.contains('{'));
        assert!(!p.contains('}'));
    }
}

#[test]
fn explanation_prompt_interpolates_unvalidated_fields_verbatim() {
    let p = build_edu_prompt(request("", "", "", 0));
    assert_eq!(
        p,
        "You are an expert educator in . Provide a detailed explanation for  related to ''. \
         Adjust the explanation to difficulty level 0 (1 = beginner, 5 = advanced). \
         Keep it concise, clear, and educational."
    );
}

#[test]
fn practice_prompt_exact_text() {
    let p = build_practice_prompt("Physics".to_string(), "Kinematics".to_string(), 5);
    assert_eq!(
        p,
        "Generate a practice question for Physics on the topic 'Kinematics'. The question \
         should match difficulty level 5 (1 = easy, 5 = very hard). Provide the question and \
         its answer in this format: 'Question: <text> Answer: <text>'."
    );
}

#[test]
fn practice_prompt_instructs_the_parsers_format() {
    let p = build_practice_prompt("History".to_string(), "Rome".to_string(), 2);
    assert!(p.contains("Question:"));
    assert!(p.contains("Answer:"));
    assert!(p.contains("History"));
    assert!(p.contains("Rome"));
    assert!(p.contains("difficulty level 2 "));
}

#[test]
fn decimal_rendering_exact_values() {
    assert_eq!(u8_to_decimal(0), "0");
    assert_eq!(u8_to_decimal(5), "5");
    assert_eq!(u8_to_decimal(10), "10");
    assert_eq!(u8_to_decimal(42), "42");
    assert_eq!(u8_to_decimal(100), "100");
    assert_eq!(u8_to_decimal(207), "207");
    assert_eq!(u8_to_decimal(255), "255");
}
