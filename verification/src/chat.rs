//! The decisions of an interactive chat session: what a line of input
//! means, and what the conversation is after each turn.

use crate::template::{message_views, Message, MessageView, TemplateData};
use crate::text::{chars_of, first_index_of, same_text, string_of, trim, trimmed};
use crate::model::text_view;
use vstd::prelude::*;
use vstd::slice::slice_subrange;

verus! {

/// The system prompt of a session that was given none.
pub const DEFAULT_SYSTEM_PROMPT: &'static str =
    "You are a helpful, respectful and honest AI assistant.";

/// What a line that begins with `.` asks for.
#[derive(Debug, Clone, PartialEq, Eq)]
pub enum Command {
    /// Leave the session.
    Exit,
    /// Show the commands.
    Help,
    /// Show the system prompt, or set it to the text that follows.
    System(Option<String>),
    /// Forget the conversation.
    Clear,
    /// Show the conversation.
    History,
    /// Anything else.
    Unknown,
}

/// What a command asks for, with its text as a sequence of characters.
pub enum CommandView {
    Exit,
    Help,
    System(Option<Seq<char>>),
    Clear,
    History,
    Unknown,
}

impl View for Command {
    type V = CommandView;

    open spec fn view(&self) -> CommandView {
        match *self {
            Command::Exit => CommandView::Exit,
            Command::Help => CommandView::Help,
            Command::System(text) => CommandView::System(text_view(text)),
            Command::Clear => CommandView::Clear,
            Command::History => CommandView::History,
            Command::Unknown => CommandView::Unknown,
        }
    }
}

/// The word of a command: the line up to its first blank.
pub open spec fn command_word(line: Seq<char>) -> Seq<char> {
    line.take(first_index_of(line, ' '))
}

/// What follows the first blank of the line, if there is a blank.
pub open spec fn command_argument(line: Seq<char>) -> Option<Seq<char>> {
    if first_index_of(line, ' ') < line.len() {
        Some(line.skip(first_index_of(line, ' ') + 1))
    } else {
        None
    }
}

/// The command of a line that has no white space around it.
pub open spec fn command_in(line: Seq<char>) -> CommandView {
    let word = command_word(line);
    if word == ".exit"@ || word == ".quit"@ || word == ".q"@ || word == ".bye"@ {
        CommandView::Exit
    } else if word == ".help"@ {
        CommandView::Help
    } else if word == ".system"@ {
        CommandView::System(command_argument(line))
    } else if word == ".clear"@ {
        CommandView::Clear
    } else if word == ".history"@ {
        CommandView::History
    } else {
        CommandView::Unknown
    }
}

/// The command of a line, read without the white space around it.
pub open spec fn command_of(input: Seq<char>) -> CommandView {
    command_in(trimmed(input))
}

/// Reads the command of a line.
pub fn parse_command(input: &str) -> (command: Command)
    ensures
        command@ == command_of(input@),
{
    let line = trim(input);
    read_command(line.as_str())
}

/// Reads the command of a line that has no white space around it.
pub fn read_command(line_text: &str) -> (command: Command)
    ensures
        command@ == command_in(line_text@),
{
    let line = chars_of(line_text);
    let mut at: usize = 0;
    while at < line.len() && line[at] != ' '
        invariant
            0 <= at <= line.len(),
            forall|k: int| 0 <= k < at ==> line@[k] != ' ',
        decreases line.len() - at,
    {
        at += 1;
    }
    proof {
        crate::text::lemma_first_index_of_is(line@, ' ', at as int);
    }
    let word = string_of(slice_subrange(line.as_slice(), 0, at));
    let word = word.as_str();
    if same_text(word, ".exit") || same_text(word, ".quit") || same_text(word, ".q") || same_text(
        word,
        ".bye",
    ) {
        Command::Exit
    } else if same_text(word, ".help") {
        Command::Help
    } else if same_text(word, ".system") {
        if at < line.len() {
            Command::System(Some(string_of(slice_subrange(line.as_slice(), at + 1, line.len()))))
        } else {
            Command::System(None)
        }
    } else if same_text(word, ".clear") {
        Command::Clear
    } else if same_text(word, ".history") {
        Command::History
    } else {
        Command::Unknown
    }
}

/// What a line of input is.
#[derive(Clone, Copy, Debug, PartialEq, Eq, Structural)]
pub enum LineKind {
    /// Nothing but white space: it is passed over.
    Empty,
    /// A command: it begins with `.`.
    Command,
    /// A turn of the user.
    Turn,
}

/// What a line of input is, read without the white space around it.
pub fn classify_line(input: &str) -> (kind: LineKind)
    ensures
        kind == if trimmed(input@).len() == 0 {
            LineKind::Empty
        } else if trimmed(input@)[0] == '.' {
            LineKind::Command
        } else {
            LineKind::Turn
        },
{
    let line_text = trim(input);
    let line = chars_of(line_text.as_str());
    if line.len() == 0 {
        LineKind::Empty
    } else if line[0] == '.' {
        LineKind::Command
    } else {
        LineKind::Turn
    }
}

/// One turn of a session.
#[derive(Debug, Clone, PartialEq, Eq)]
pub struct Turn {
    pub role: String,
    pub content: String,
}

/// A turn as the template reads it: role and content, no tool calls and no
/// name.
pub open spec fn turn_view(turn: Turn) -> MessageView {
    MessageView { role: turn.role@, content: Some(turn.content@), tool_calls: None, name: None }
}

/// The turns as the template reads them.
pub open spec fn turn_views(turns: Seq<Turn>) -> Seq<MessageView> {
    turns.map_values(|t: Turn| turn_view(t))
}

/// A chat session: the conversation so far and the system prompt.
pub struct ChatSession {
    data: Vec<Turn>,
    system_prompt: String,
}

impl ChatSession {
    /// The conversation so far.
    pub closed spec fn turns(&self) -> Seq<Turn> {
        self.data@
    }

    /// The system prompt.
    pub closed spec fn system(&self) -> Seq<char> {
        self.system_prompt@
    }

    /// A session without turns, with the default system prompt.
    pub fn new() -> (session: Self)
        ensures
            session.turns() == Seq::<Turn>::empty(),
            session.system() == DEFAULT_SYSTEM_PROMPT@,
    {
        ChatSession { data: Vec::new(), system_prompt: DEFAULT_SYSTEM_PROMPT.to_owned() }
    }

    /// The conversation so far.
    pub fn history(&self) -> (turns: &Vec<Turn>)
        ensures
            turns@ == self.turns(),
    {
        &self.data
    }

    /// The system prompt.
    pub fn system_prompt(&self) -> (prompt: &String)
        ensures
            prompt@ == self.system(),
    {
        &self.system_prompt
    }

    /// Carries a command out and says whether the session goes on. Only
    /// `Exit` ends it; `System` with a text sets the system prompt; `Clear`
    /// empties the conversation; the other commands change nothing.
    pub fn handle_command(&mut self, command: &Command) -> (goes_on: bool)
        ensures
            goes_on == !(command@ is Exit),
            final(self).system() == (match command@ {
                CommandView::System(Some(text)) => text,
                _ => old(self).system(),
            }),
            final(self).turns() == (match command@ {
                CommandView::Clear => Seq::<Turn>::empty(),
                _ => old(self).turns(),
            }),
    {
        match command {
            Command::Exit => false,
            Command::System(Some(text)) => {
                self.system_prompt = text.clone();
                true
            },
            Command::Clear => {
                self.data.clear();
                true
            },
            _ => true,
        }
    }

    /// Adds a turn of the user and gives the data from which the prompt of
    /// the next generation is rendered: the system prompt and the whole
    /// conversation.
    pub fn chat(&mut self, user_input: &str) -> (data: TemplateData)
        ensures
            final(self).system() == old(self).system(),
            final(self).turns().len() == old(self).turns().len() + 1,
            final(self).turns().drop_last() == old(self).turns(),
            final(self).turns().last().role@ == "user"@,
            final(self).turns().last().content@ == user_input@,
            text_view(data.system) == Some(old(self).system()),
            data.messages matches Some(messages) && message_views(messages@) == turn_views(
                final(self).turns(),
            ),
            data == (TemplateData { system: data.system, messages: data.messages, ..TemplateData {
                system: None,
                tools: None,
                messages: None,
                prompt: None,
                response: None,
                suffix: None,
                think: None,
                think_level: None,
                is_think_set: None,
                force_legacy: false,
            } }),
    {
        self.data.push(Turn { role: "user".to_owned(), content: user_input.to_owned() });
        assert(self.data@.drop_last() =~= old(self).data@);
        let mut messages: Vec<Message> = Vec::new();
        let mut i: usize = 0;
        while i < self.data.len()
            invariant
                0 <= i <= self.data.len(),
                message_views(messages@) == turn_views(self.data@.take(i as int)),
            decreases self.data.len() - i,
        {
            let turn = &self.data[i];
            let message = Message {
                role: turn.role.clone(),
                content: Some(turn.content.clone()),
                tool_calls: None,
                name: None,
            };
            let ghost before = message_views(messages@);
            messages.push(message);
            i += 1;
            assert(message_views(messages@) =~= before.push(message@));
            assert(message_views(messages@) =~= turn_views(self.data@.take(i as int)));
        }
        assert(self.data@.take(self.data.len() as int) =~= self.data@);
        TemplateData::new().with_system(Some(self.system_prompt.clone())).with_messages(
            Some(messages),
        )
    }

    /// Adds the turn of the assistant that ended a generation.
    pub fn reply(&mut self, text: String)
        ensures
            final(self).system() == old(self).system(),
            final(self).turns().len() == old(self).turns().len() + 1,
            final(self).turns().drop_last() == old(self).turns(),
            final(self).turns().last().role@ == "assistant"@,
            final(self).turns().last().content == text,
    {
        self.data.push(Turn { role: "assistant".to_owned(), content: text });
        assert(self.data@.drop_last() =~= old(self).data@);
    }
}

} // verus!
