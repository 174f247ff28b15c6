use tllama::chat::{
    classify_line, parse_command, ChatSession, Command, LineKind, Turn, DEFAULT_SYSTEM_PROMPT,
};
use tllama::template::{Message, TemplateData};

fn turn(role: &str, content: &str) -> Turn {
    Turn { role: role.to_string(), content: content.to_string() }
}

fn message(role: &str, content: &str) -> Message {
    Message {
        role: role.to_string(),
        content: Some(content.to_string()),
        tool_calls: None,
        name: None,
    }
}

#[test]
fn lines_are_classified() {
    assert_eq!(classify_line(""), LineKind::Empty);
    assert_eq!(classify_line("  \t "), LineKind::Empty);
    assert_eq!(classify_line(" .help"), LineKind::Command);
    assert_eq!(classify_line(". "), LineKind::Command);
    assert_eq!(classify_line("hello .exit"), LineKind::Turn);
    assert_eq!(classify_line("  hi  "), LineKind::Turn);
}

#[test]
fn exit_has_four_spellings() {
    for line in [".exit", ".quit", ".q", ".bye", "  .exit  ", ".q now"] {
        assert_eq!(parse_command(line), Command::Exit, "{}", line);
    }
}

#[test]
fn commands_are_read_by_their_first_word() {
    assert_eq!(parse_command(".help"), Command::Help);
    assert_eq!(parse_command(".clear"), Command::Clear);
    assert_eq!(parse_command(".history"), Command::History);
    assert_eq!(parse_command(".history all"), Command::History);
    assert_eq!(parse_command(".Help"), Command::Unknown);
    assert_eq!(parse_command(".exits"), Command::Unknown);
    assert_eq!(parse_command("."), Command::Unknown);
    assert_eq!(parse_command(""), Command::Unknown);
    assert_eq!(parse_command("help"), Command::Unknown);
}

#[test]
fn system_takes_the_rest_of_the_line() {
    assert_eq!(parse_command(".system"), Command::System(None));
    assert_eq!(
        parse_command(".system You are a pirate."),
        Command::System(Some("You are a pirate.".to_string()))
    );
    assert_eq!(parse_command("  .system  two  spaces "), Command::System(Some(" two  spaces".to_string())));
    assert_eq!(parse_command(".system\tx"), Command::Unknown);
}

#[test]
fn new_session_has_the_default_system_prompt() {
    let session = ChatSession::new();
    assert_eq!(session.system_prompt(), DEFAULT_SYSTEM_PROMPT);
    assert_eq!(
        DEFAULT_SYSTEM_PROMPT,
        "You are a helpful, respectful and honest AI assistant."
    );
    assert!(session.history().is_empty());
}

#[test]
fn turns_build_the_conversation() {
    let mut session = ChatSession::new();
    let data = session.chat("Hi");
    assert_eq!(
        data,
        TemplateData::new()
            .with_system(Some(DEFAULT_SYSTEM_PROMPT.to_string()))
            .with_messages(Some(vec![message("user", "Hi")]))
    );
    session.reply("Hello!".to_string());
    let data = session.chat("Bye");
    assert_eq!(
        data.messages,
        Some(vec![message("user", "Hi"), message("assistant", "Hello!"), message("user", "Bye")])
    );
    assert_eq!(
        session.history(),
        &vec![turn("user", "Hi"), turn("assistant", "Hello!"), turn("user", "Bye")]
    );
}

#[test]
fn commands_change_the_session() {
    let mut session = ChatSession::new();
    session.chat("Hi");
    assert!(session.handle_command(&Command::Help));
    assert!(session.handle_command(&Command::History));
    assert!(session.handle_command(&Command::Unknown));
    assert!(session.handle_command(&Command::System(None)));
    assert_eq!(session.system_prompt(), DEFAULT_SYSTEM_PROMPT);
    assert_eq!(session.history().len(), 1);
    assert!(session.handle_command(&Command::System(Some("Be a pirate.".to_string()))));
    assert_eq!(session.system_prompt(), "Be a pirate.");
    assert_eq!(session.history().len(), 1);
    assert!(session.handle_command(&Command::Clear));
    assert!(session.history().is_empty());
    assert_eq!(session.system_prompt(), "Be a pirate.");
    assert_eq!(session.chat("x").system, Some("Be a pirate.".to_string()));
    assert!(!session.handle_command(&Command::Exit));
    assert_eq!(session.history().len(), 1);
}
