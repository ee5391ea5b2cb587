use edu_assistant::chat::{assemble, normalize_role, system_instruction, EduChatMessage, Role};

const INSTRUCTION: &str =
    "You are a helpful educational assistant. Provide clear, concise, and accurate answers.";

fn turn(role: &str, content: &str, timestamp: u64) -> EduChatMessage {
    EduChatMessage { role: role.to_string(), content: content.to_string(), timestamp }
}

#[test]
fn normalize_role_known_labels() {
    assert_eq!(normalize_role("user"), Role::User);
    assert_eq!(normalize_role("system"), Role::System);
}

#[test]
fn normalize_role_defaults_to_user() {
    assert_eq!(normalize_role(""), Role::User);
    assert_eq!(normalize_role("SYSTEM"), Role::User);
    assert_eq!(normalize_role("admin"), Role::User);
    assert_eq!(normalize_role("assistant"), Role::User);
    assert_eq!(normalize_role("User"), Role::User);
    assert_eq!(normalize_role("system "), Role::User);
}

#[test]
fn system_instruction_exact_text() {
    assert_eq!(system_instruction(), INSTRUCTION);
}

#[test]
fn assemble_empty_history_yields_only_the_instruction() {
    let r = assemble(&Vec::new());
    assert_eq!(r.len(), 1);
    assert_eq!(r[0].role, Role::System);
    assert_eq!(r[0].content, INSTRUCTION);
}

#[test]
fn assemble_single_user_turn() {
    let r = assemble(&vec![turn("user", "hi", 7)]);
    assert_eq!(r.len(), 2);
    assert_eq!(r[0].role, Role::System);
    assert_eq!(r[0].content, INSTRUCTION);
    assert_eq!(r[1].role, Role::User);
    assert_eq!(r[1].content, "hi");
}

#[test]
fn assemble_preserves_order_and_normalizes_each_role() {
    let history = vec![
        turn("user", "first", 1),
        turn("system", "second", 2),
        turn("assistant", "third", 3),
        turn("", "fourth", 4),
    ];
    let r = assemble(&history);
    assert_eq!(r.len(), 5);
    assert_eq!(r[0].role, Role::System);
    assert_eq!(r[1].role, Role::User);
    assert_eq!(r[1].content, "first");
    assert_eq!(r[2].role, Role::System);
    assert_eq!(r[2].content, "second");
    assert_eq!(r[3].role, Role::User);
    assert_eq!(r[3].content, "third");
    assert_eq!(r[4].role, Role::User);
    assert_eq!(r[4].content, "fourth");
}
