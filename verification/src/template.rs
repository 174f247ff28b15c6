//! Chat templates: the data a template is rendered from, and the merging of
//! a conversation before it is rendered.

use crate::model::{text_view, Model, ModelType};
use crate::text::{join, join_strings, same_text, views};
use std::collections::HashMap;
use vstd::prelude::*;

verus! {

/// The template used for a model that brings none, in Go template syntax.
/// The text is a protocol constant: models are prompted with it as it stands.
pub const GO_DEFAULT_TEMPLATE: &'static str = r#"{{- if .Messages }}
{{- if or .System .Tools }}<|im_start|>system
{{- if .System }}
{{ .System }}
{{- end }}
{{- if .Tools }}

# Tools

You may call one or more functions to assist with the user query.

You are provided with function signatures within <tools></tools> XML tags:
<tools>
{{- range .Tools }}
{"type": "function", "function": {{ .Function }}}
{{- end }}
</tools>

For each function call, return a json object with function name and arguments within <tool_call></tool_call> XML tags:
<tool_call>
{"name": <function-name>, "arguments": <args-json-object>}
</tool_call>
{{- end }}<|im_end|>
{{ end }}
{{- range $i, $_ := .Messages }}
{{- $last := eq (len (slice $.Messages $i)) 1 -}}
{{- if eq .Role "user" }}<|im_start|>user
{{ .Content }}<|im_end|>
{{ else if eq .Role "assistant" }}<|im_start|>assistant
{{ if .Content }}{{ .Content }}
{{- else if .ToolCalls }}<tool_call>
{{ range .ToolCalls }}{"name": "{{ .Function.Name }}", "arguments": {{ .Function.Arguments }}}
{{ end }}</tool_call>
{{- end }}{{ if not $last }}<|im_end|>
{{ end }}
{{- else if eq .Role "tool" }}<|im_start|>user
<tool_response>
{{ .Content }}
</tool_response><|im_end|>
{{ end }}
{{- if and (ne .Role "assistant") $last }}<|im_start|>assistant
{{ end }}
{{- end }}
{{- else }}
{{- if .System }}<|im_start|>system
{{ .System }}<|im_end|>
{{ end }}{{ if .Prompt }}<|im_start|>user
{{ .Prompt }}<|im_end|>
{{ end }}<|im_start|>assistant
{{ end }}{{ .Response }}{{ if .Response }}<|im_end|>{{ end }}
"#;

/// The same conversation layout in Jinja syntax.
pub const JINJA_DEFAULT_TEMPLATE: &'static str = r#"{%- if Messages %}
{%- if System or Tools %}<|im_start|>system
{%- if System %}
{{ System }}
{%- endif %}
{%- if Tools %}

# Tools

You may call one or more functions to assist with the user query.

You are provided with function signatures within <tools></tools> XML tags:
<tools>
{%- for Tool in Tools %}
{"type": "function", "function": {{ Tool.Function }}}
{%- endfor %}
</tools>

For each function call, return a json object with function name and arguments within <tool_call></tool_call> XML tags:
<tool_call>
{"name": <function-name>, "arguments": <args-json-object>}
</tool_call>
{%- endif %}<|im_end|>
{% endif %}
{%- for message in Messages %}
{%- if message.Role == "user" %}<|im_start|>user
{{ message.Content }}<|im_end|>
{% elif message.Role == "assistant" %}<|im_start|>assistant
{% if message.Content %}{{ message.Content }}
{%- elif message.ToolCalls %}<tool_call>
{% for tool_call in message.ToolCalls %}{"name": "{{ tool_call.Function.Name }}", "arguments": {{ tool_call.Function.Arguments }}}
{% endfor %}</tool_call>
{%- endif %}{% if not loop.last %}<|im_end|>
{% endif %}
{%- elif message.Role == "tool" %}<|im_start|>user
<tool_response>
{{ message.Content }}
</tool_response><|im_end|>
{% endif %}
{%- if message.Role != "assistant" and loop.last %}<|im_start|>assistant
{% endif %}
{%- endfor %}
{%- else %}
{%- if System %}<|im_start|>system
{{ System }}<|im_end|>
{% endif %}{% if Prompt %}<|im_start|>user
{{ Prompt }}<|im_end|>
{% endif %}<|im_start|>assistant
{% endif %}{{ Response }}{% if Response %}<|im_end|>{{ endif }}
"#;

/// One property of a tool's parameters.
#[derive(Debug, Clone, PartialEq)]
pub struct ToolProperty {
    pub property_type: String,
    pub description: Option<String>,
    pub enum_values: Option<Vec<String>>,
}

/// The parameters of a tool's function.
#[derive(Debug, Clone, PartialEq)]
pub struct FunctionParameters {
    pub param_type: String,
    pub properties: Option<HashMap<String, ToolProperty>>,
    pub required: Option<Vec<String>>,
}

/// A function that a tool offers, or a call of one.
#[derive(Debug, Clone, PartialEq)]
pub struct Function {
    pub name: String,
    pub description: Option<String>,
    pub parameters: Option<FunctionParameters>,
    pub arguments: Option<serde_json::Value>,
}

/// A call of a tool by the assistant.
#[derive(Debug, Clone, PartialEq)]
pub struct ToolCall {
    pub function: Function,
    pub id: Option<String>,
}

/// A tool offered to the model.
#[derive(Debug, Clone, PartialEq)]
pub struct Tool {
    pub tool_type: String,
    pub function: Function,
}

/// One turn of a conversation.
#[derive(Debug, Clone, PartialEq)]
pub struct Message {
    pub role: String,
    pub content: Option<String>,
    pub tool_calls: Option<Vec<ToolCall>>,
    pub name: Option<String>,
}

/// Everything a chat template can be rendered from.
#[derive(Debug, Clone, PartialEq)]
pub struct TemplateData {
    pub system: Option<String>,
    pub tools: Option<Vec<Tool>>,
    pub messages: Option<Vec<Message>>,
    pub prompt: Option<String>,
    pub response: Option<String>,
    pub suffix: Option<String>,
    pub think: Option<bool>,
    pub think_level: Option<String>,
    pub is_think_set: Option<bool>,
    pub force_legacy: bool,
}

/// Parameters that come with a named template.
#[derive(Debug, Clone, PartialEq)]
pub struct TemplateParameters {
    pub stop: Option<Vec<String>>,
}

/// A template known by name.
#[derive(Debug, Clone, PartialEq)]
pub struct NamedTemplate {
    pub name: String,
    pub template: String,
    pub bytes: Vec<u8>,
    pub parameters: Option<TemplateParameters>,
}

/// The template language that a model's chat template is written in.
#[derive(Clone, Copy, Debug, PartialEq, Eq, Structural)]
pub enum TemplateEngine {
    Go,
    Jinja,
}

/// The language by the model's format: Go templates come with GGUF models,
/// Jinja templates with Transformers models.
pub open spec fn engine_for(format: ModelType) -> TemplateEngine {
    match format {
        ModelType::Gguf => TemplateEngine::Go,
        ModelType::Transformers => TemplateEngine::Jinja,
    }
}

/// Chooses the renderer for a model's chat template.
pub fn select_engine(model: &Model) -> (engine: TemplateEngine)
    ensures
        engine == engine_for(model.format),
{
    match model.format {
        ModelType::Gguf => TemplateEngine::Go,
        ModelType::Transformers => TemplateEngine::Jinja,
    }
}

/// The built-in default template.
pub fn get_default_template() -> (template: String)
    ensures
        template@ == GO_DEFAULT_TEMPLATE@,
{
    GO_DEFAULT_TEMPLATE.to_owned()
}

/// The template a model is prompted with: its own, or the built-in default.
pub fn effective_template(model: &Model) -> (template: String)
    ensures
        template@ == (match model.template {
            Some(t) => t@,
            None => GO_DEFAULT_TEMPLATE@,
        }),
{
    match &model.template {
        Some(t) => t.clone(),
        None => get_default_template(),
    }
}

impl TemplateData {
    /// Data with nothing set.
    pub fn new() -> (data: Self)
        ensures
            data == (TemplateData {
                system: None,
                tools: None,
                messages: None,
                prompt: None,
                response: None,
                suffix: None,
                think: None,
                think_level: None,
                is_think_set: None,
                force_legacy: false,
            }),
    {
        TemplateData {
            system: None,
            tools: None,
            messages: None,
            prompt: None,
            response: None,
            suffix: None,
            think: None,
            think_level: None,
            is_think_set: None,
            force_legacy: false,
        }
    }

    /// The data with the system prompt replaced.
    pub fn with_system(self, system: Option<String>) -> (data: Self)
        ensures
            data == (TemplateData { system, ..self }),
    {
        let mut data = self;
        data.system = system;
        data
    }

    /// The data with the tools replaced.
    pub fn with_tools(self, tools: Option<Vec<Tool>>) -> (data: Self)
        ensures
            data == (TemplateData { tools, ..self }),
    {
        let mut data = self;
        data.tools = tools;
        data
    }

    /// The data with the conversation replaced.
    pub fn with_messages(self, messages: Option<Vec<Message>>) -> (data: Self)
        ensures
            data == (TemplateData { messages, ..self }),
    {
        let mut data = self;
        data.messages = messages;
        data
    }

    /// The data with the prompt replaced.
    pub fn with_prompt(self, prompt: Option<String>) -> (data: Self)
        ensures
            data == (TemplateData { prompt, ..self }),
    {
        let mut data = self;
        data.prompt = prompt;
        data
    }

    /// The data with the response replaced.
    pub fn with_response(self, response: Option<String>) -> (data: Self)
        ensures
            data == (TemplateData { response, ..self }),
    {
        let mut data = self;
        data.response = response;
        data
    }

    /// The data with the suffix replaced.
    pub fn with_suffix(self, suffix: Option<String>) -> (data: Self)
        ensures
            data == (TemplateData { suffix, ..self }),
    {
        let mut data = self;
        data.suffix = suffix;
        data
    }

    /// The data with the thinking switch replaced.
    pub fn with_think(self, think: Option<bool>) -> (data: Self)
        ensures
            data == (TemplateData { think, ..self }),
    {
        let mut data = self;
        data.think = think;
        data
    }

    /// The data with the level of thinking replaced.
    pub fn with_think_level(self, think_level: Option<String>) -> (data: Self)
        ensures
            data == (TemplateData { think_level, ..self }),
    {
        let mut data = self;
        data.think_level = think_level;
        data
    }

    /// The data with the mark replaced that says whether thinking was chosen.
    pub fn with_is_think_set(self, is_think_set: Option<bool>) -> (data: Self)
        ensures
            data == (TemplateData { is_think_set, ..self }),
    {
        let mut data = self;
        data.is_think_set = is_think_set;
        data
    }

    /// The data with the switch to the older layout replaced.
    pub fn with_force_legacy(self, force_legacy: bool) -> (data: Self)
        ensures
            data == (TemplateData { force_legacy, ..self }),
    {
        let mut data = self;
        data.force_legacy = force_legacy;
        data
    }

    /// The data as a Go template reads them: a response that is not set is
    /// the empty text, so that the template never prints a missing value.
    pub fn for_go_template(self) -> (data: Self)
        ensures
            text_view(data.response) == (match self.response {
                Some(r) => Some(r@),
                None => Some(Seq::<char>::empty()),
            }),
            data == (TemplateData { response: data.response, ..self }),
    {
        let mut data = self;
        if data.response.is_none() {
            data.response = Some(String::new());
        }
        data
    }
}

impl Default for TemplateData {
    fn default() -> (data: Self)
        ensures
            data == (TemplateData {
                system: None,
                tools: None,
                messages: None,
                prompt: None,
                response: None,
                suffix: None,
                think: None,
                think_level: None,
                is_think_set: None,
                force_legacy: false,
            }),
    {
        TemplateData::new()
    }
}

/// The text between two merged contents, and between two system prompts.
pub open spec fn paragraph_break() -> Seq<char> {
    seq!['\n', '\n']
}

/// `s` between double quotes.
pub open spec fn quoted(s: Seq<char>) -> Seq<char> {
    seq!['"'] + s + seq!['"']
}

/// Each of `values` between double quotes.
pub open spec fn quoted_all(values: Seq<Seq<char>>) -> Seq<Seq<char>> {
    values.map_values(|v: Seq<char>| quoted(v))
}

/// The TypeScript type that stands for a property of the given JSON schema
/// type: a string with listed values is the union of those values as
/// literals; the other schema types have one type each; an unknown schema
/// type is `any`.
pub open spec fn type_script_type(property_type: Seq<char>, enum_values: Option<Seq<Seq<char>>>) -> Seq<char> {
    if property_type == "string"@ {
        match enum_values {
            Some(values) => if values.len() == 0 {
                "string"@
            } else {
                join(quoted_all(values), " | "@)
            },
            None => "string"@,
        }
    } else if property_type == "number"@ {
        "number"@
    } else if property_type == "integer"@ {
        "number"@
    } else if property_type == "boolean"@ {
        "boolean"@
    } else if property_type == "array"@ {
        "any[]"@
    } else if property_type == "object"@ {
        "Record<string, any>"@
    } else {
        "any"@
    }
}

/// The views of an optional list of texts.
pub open spec fn list_view(list: Option<Vec<String>>) -> Option<Seq<Seq<char>>> {
    match list {
        Some(l) => Some(views(l@)),
        None => None,
    }
}

impl ToolProperty {
    /// The TypeScript type of this property.
    pub fn to_type_script_type(&self) -> (ts: String)
        ensures
            ts@ == type_script_type(self.property_type@, list_view(self.enum_values)),
    {
        let kind = self.property_type.as_str();
        if same_text(kind, "string") {
            match &self.enum_values {
                Some(values) => {
                    if values.len() == 0 {
                        "string".to_owned()
                    } else {
                        let mut literals: Vec<String> = Vec::new();
                        let mut i: usize = 0;
                        while i < values.len()
                            invariant
                                0 <= i <= values.len(),
                                views(literals@) == quoted_all(views(values@).take(i as int)),
                            decreases values.len() - i,
                        {
                            let mut literal = String::new();
                            literal.push('"');
                            literal.append(values[i].as_str());
                            literal.push('"');
                            assert(literal@ =~= quoted(values@[i as int]@));
                            let ghost before = views(literals@);
                            literals.push(literal);
                            i += 1;
                            assert(views(literals@) =~= before.push(literal@));
                            assert(views(literals@) =~= quoted_all(views(values@).take(i as int)));
                        }
                        assert(views(values@).take(values.len() as int) =~= views(values@));
                        join_strings(literals.as_slice(), " | ")
                    }
                },
                None => "string".to_owned(),
            }
        } else if same_text(kind, "number") {
            "number".to_owned()
        } else if same_text(kind, "integer") {
            "number".to_owned()
        } else if same_text(kind, "boolean") {
            "boolean".to_owned()
        } else if same_text(kind, "array") {
            "any[]".to_owned()
        } else if same_text(kind, "object") {
            "Record<string, any>".to_owned()
        } else {
            "any".to_owned()
        }
    }
}

/// What a message says, with its texts as sequences of characters. Tool
/// calls and the name are carried as they are.
pub struct MessageView {
    pub role: Seq<char>,
    pub content: Option<Seq<char>>,
    pub tool_calls: Option<Vec<ToolCall>>,
    pub name: Option<String>,
}

impl View for Message {
    type V = MessageView;

    open spec fn view(&self) -> MessageView {
        MessageView {
            role: self.role@,
            content: text_view(self.content),
            tool_calls: self.tool_calls,
            name: self.name,
        }
    }
}

/// The views of a list of messages.
pub open spec fn message_views(list: Seq<Message>) -> Seq<MessageView> {
    list.map_values(|m: Message| m@)
}

/// Whether a message belongs to the system prompt.
pub open spec fn is_system(m: MessageView) -> bool {
    m.role == "system"@
}

/// Whether `m` is merged into the message before it: both have the same
/// role, which is not `tool`, and both have content.
pub open spec fn merges_into(last: MessageView, m: MessageView) -> bool {
    &&& last.role == m.role
    &&& m.role != "tool"@
    &&& last.content is Some
    &&& m.content is Some
}

/// `last` with the content of `m` added after a paragraph break.
pub open spec fn merged(last: MessageView, m: MessageView) -> MessageView {
    MessageView { content: Some(last.content->0 + paragraph_break() + m.content->0), ..last }
}

/// The merged conversation after one more message.
pub open spec fn collate_step(acc: Seq<MessageView>, m: MessageView) -> Seq<MessageView> {
    if is_system(m) {
        acc
    } else if acc.len() > 0 && merges_into(acc.last(), m) {
        acc.drop_last().push(merged(acc.last(), m))
    } else {
        acc.push(m)
    }
}

/// The conversation without its system messages, neighbours of one role
/// merged.
pub open spec fn collated(messages: Seq<MessageView>) -> Seq<MessageView>
    decreases messages.len(),
{
    if messages.len() == 0 {
        Seq::empty()
    } else {
        collate_step(collated(messages.drop_last()), messages.last())
    }
}

/// The contents of the system messages that have one, in order.
pub open spec fn system_parts(messages: Seq<MessageView>) -> Seq<Seq<char>>
    decreases messages.len(),
{
    if messages.len() == 0 {
        Seq::empty()
    } else {
        let before = system_parts(messages.drop_last());
        let m = messages.last();
        if is_system(m) && m.content is Some {
            before.push(m.content->0)
        } else {
            before
        }
    }
}

/// The system prompt of a conversation: the system contents joined by
/// paragraph breaks, or none where there is no such content.
pub open spec fn system_prompt(messages: Seq<MessageView>) -> Option<Seq<char>> {
    let parts = system_parts(messages);
    if parts.len() == 0 {
        None
    } else {
        Some(join(parts, paragraph_break()))
    }
}

/// Splits a conversation into its system prompt and its other messages,
/// merging neighbours of one role.
pub fn collate_messages(messages: Vec<Message>) -> (out: (Option<String>, Vec<Message>))
    ensures
        text_view(out.0) == system_prompt(message_views(messages@)),
        message_views(out.1@) == collated(message_views(messages@)),
{
    let mut parts: Vec<String> = Vec::new();
    let mut merged_list: Vec<Message> = Vec::new();
    let ghost all = message_views(messages@);
    proof {
        reveal_strlit("\n\n");
        assert("\n\n"@ =~= paragraph_break());
    }
    for msg in it: messages
        invariant
            all == message_views(it.seq()),
            views(parts@) == system_parts(all.take(it.index() as int)),
            message_views(merged_list@) == collated(all.take(it.index() as int)),
            "\n\n"@ == paragraph_break(),
    {
        proof {
            let done = all.take(it.index() as int);
            let next = all.take(it.index() + 1);
            assert(next.drop_last() =~= done);
            assert(next.last() == msg@);
        }
        if same_text(msg.role.as_str(), "system") {
            if let Some(content) = msg.content {
                assert(views(parts@.push(content)) =~= views(parts@).push(content@));
                parts.push(content);
            }
        } else {
            let mut folded = false;
            if merged_list.len() > 0 {
                let last_index = merged_list.len() - 1;
                let same_role = same_text(merged_list[last_index].role.as_str(), msg.role.as_str());
                if same_role && !same_text(msg.role.as_str(), "tool")
                    && merged_list[last_index].content.is_some() && msg.content.is_some() {
                    let ghost before = message_views(merged_list@);
                    let last = merged_list.pop().unwrap();
                    let mut content = last.content.unwrap();
                    content.append("\n\n");
                    content.append(msg.content.as_ref().unwrap().as_str());
                    let joined = Message {
                        role: last.role,
                        content: Some(content),
                        tool_calls: last.tool_calls,
                        name: last.name,
                    };
                    assert(joined@ == merged(before.last(), msg@));
                    assert(message_views(merged_list@) =~= before.drop_last());
                    assert(message_views(merged_list@.push(joined)) =~= before.drop_last().push(
                        joined@,
                    ));
                    merged_list.push(joined);
                    folded = true;
                }
            }
            if !folded {
                assert(message_views(merged_list@.push(msg)) =~= message_views(merged_list@).push(
                    msg@,
                ));
                merged_list.push(msg);
            }
        }
    }
    assert(all.take(all.len() as int) =~= all);
    let system = if parts.len() == 0 {
        None
    } else {
        Some(join_strings(parts.as_slice(), "\n\n"))
    };
    (system, merged_list)
}

} // verus!
