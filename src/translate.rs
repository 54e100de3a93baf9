use vstd::prelude::*;
use crate::model::{
    contents_view, non_text_of, text_of, Content, ContentView, Message, MessageView, Role,
};

verus! {

/// The output-token cap sent when the model configuration sets none.
pub const DEFAULT_MAX_TOKENS: u32 = 8192;

/// The model settings of one call.
#[derive(Debug)]
pub struct ModelConfig {
    pub model_name: String,
    pub fast_model: Option<String>,
    pub context_limit: Option<usize>,
    pub max_tokens: Option<u32>,
}

/// A tool declaration: its name, what it does, and its input schema as JSON text.
#[derive(Debug)]
pub struct Tool {
    pub name: String,
    pub description: String,
    pub input_schema: String,
}

pub struct ToolView {
    pub name: Seq<char>,
    pub description: Seq<char>,
    pub input_schema: Seq<char>,
}

impl View for Tool {
    type V = ToolView;

    open spec fn view(&self) -> ToolView {
        ToolView { name: self.name@, description: self.description@, input_schema: self.input_schema@ }
    }
}

pub open spec fn tools_view(t: Seq<Tool>) -> Seq<ToolView> {
    t.map_values(|x: Tool| x@)
}

pub open spec fn messages_view(m: Seq<Message>) -> Seq<MessageView> {
    m.map_values(|x: Message| x@)
}

/// One message as the vendor receives it: a role, the message's text joined into
/// one string, and its tool blocks as typed items.
#[derive(Debug)]
pub struct WireMessage {
    pub role: Role,
    pub text: String,
    pub tool_items: Vec<Content>,
}

pub struct WireMessageView {
    pub role: Role,
    pub text: Seq<char>,
    pub tool_items: Seq<ContentView>,
}

impl View for WireMessage {
    type V = WireMessageView;

    open spec fn view(&self) -> WireMessageView {
        WireMessageView { role: self.role, text: self.text@, tool_items: contents_view(self.tool_items@) }
    }
}

/// The vendor request body, before it is written out as JSON.
#[derive(Debug)]
pub struct RequestPayload {
    pub model: String,
    pub max_tokens: u32,
    pub messages: Vec<WireMessage>,
    pub system: Option<String>,
    pub tools: Vec<Tool>,
    pub stream: bool,
}

pub struct RequestPayloadView {
    pub model: Seq<char>,
    pub max_tokens: u32,
    pub messages: Seq<WireMessageView>,
    pub system: Option<Seq<char>>,
    pub tools: Seq<ToolView>,
    pub stream: bool,
}

impl View for RequestPayload {
    type V = RequestPayloadView;

    open spec fn view(&self) -> RequestPayloadView {
        RequestPayloadView {
            model: self.model@,
            max_tokens: self.max_tokens,
            messages: self.messages@.map_values(|w: WireMessage| w@),
            system: match self.system {
                Some(s) => Some(s@),
                None => None,
            },
            tools: tools_view(self.tools@),
            stream: self.stream,
        }
    }
}

/// How one message is sent.
pub open spec fn wire_of(m: MessageView) -> WireMessageView {
    WireMessageView { role: m.role, text: text_of(m.content), tool_items: non_text_of(m.content) }
}

/// The payload that a call sends: fixed by the model settings, the system text,
/// the messages, the tools and the streaming flag alone.
pub open spec fn payload_of(
    model: Seq<char>,
    max_tokens: Option<u32>,
    system: Seq<char>,
    messages: Seq<MessageView>,
    tools: Seq<ToolView>,
    stream: bool,
) -> RequestPayloadView {
    RequestPayloadView {
        model,
        max_tokens: match max_tokens {
            Some(n) => n,
            None => DEFAULT_MAX_TOKENS,
        },
        messages: messages.map_values(|m: MessageView| wire_of(m)),
        system: if system.len() == 0 { None } else { Some(system) },
        tools,
        stream,
    }
}

fn copy_tool(t: &Tool) -> (r: Tool)
    ensures
        r@ == t@,
{
    Tool { name: t.name.clone(), description: t.description.clone(), input_schema: t.input_schema.clone() }
}

/// Encodes one message for the vendor.
pub fn encode_message(m: &Message) -> (r: WireMessage)
    ensures
        r@ == wire_of(m@),
{
    let text = m.text();
    let mut items: Vec<Content> = Vec::new();
    let mut i: usize = 0;
    while i < m.content.len()
        invariant
            i <= m.content@.len(),
            contents_view(items@) == non_text_of(m@.content.take(i as int)),
        decreases m.content@.len() - i,
    {
        assert(m@.content.take(i + 1).drop_last() =~= m@.content.take(i as int));
        match &m.content[i] {
            Content::Text(_) => {
                assert(non_text_of(m@.content.take(i as int)) + Seq::<ContentView>::empty()
                    =~= non_text_of(m@.content.take(i as int)));
            },
            b => {
                let c = b.duplicate();
                let ghost prev = items@;
                items.push(c);
                assert(contents_view(items@) =~= contents_view(prev).push(c@));
                assert(seq![c@] + Seq::<ContentView>::empty() =~= seq![c@]);
                assert(contents_view(prev).push(c@) =~= contents_view(prev) + seq![c@]);
            },
        }
        i = i + 1;
    }
    assert(m@.content.take(i as int) =~= m@.content);
    WireMessage { role: m.role, text, tool_items: items }
}

/// Builds the vendor request for a call. Every message becomes one wire message
/// with the same role, in the same order; the system text is attached only when
/// it is not empty.
pub fn translate(
    config: &ModelConfig,
    system: &str,
    messages: &Vec<Message>,
    tools: &Vec<Tool>,
    stream: bool,
) -> (r: RequestPayload)
    ensures
        r@ == payload_of(
            config.model_name@,
            config.max_tokens,
            system@,
            messages_view(messages@),
            tools_view(tools@),
            stream,
        ),
        r@.messages.len() == messages@.len(),
        forall|i: int| 0 <= i < messages@.len() ==> (#[trigger] r@.messages[i]).role == messages@[i].role,
{
    let mut wire: Vec<WireMessage> = Vec::new();
    let mut i: usize = 0;
    while i < messages.len()
        invariant
            i <= messages@.len(),
            wire@.len() == i,
            forall|j: int| 0 <= j < i ==> (#[trigger] wire@[j])@ == wire_of(messages@[j]@),
        decreases messages@.len() - i,
    {
        wire.push(encode_message(&messages[i]));
        i = i + 1;
    }
    let mut tool_copies: Vec<Tool> = Vec::new();
    let mut k: usize = 0;
    while k < tools.len()
        invariant
            k <= tools@.len(),
            tool_copies@.len() == k,
            forall|j: int| 0 <= j < k ==> (#[trigger] tool_copies@[j])@ == tools@[j]@,
        decreases tools@.len() - k,
    {
        tool_copies.push(copy_tool(&tools[k]));
        k = k + 1;
    }
    let max_tokens = match config.max_tokens {
        Some(n) => n,
        None => DEFAULT_MAX_TOKENS,
    };
    let sys = if system.is_empty() { None } else { Some(String::from_str(system)) };
    let r = RequestPayload {
        model: config.model_name.clone(),
        max_tokens,
        messages: wire,
        system: sys,
        tools: tool_copies,
        stream,
    };
    assert(r@.messages =~= messages_view(messages@).map_values(|m: MessageView| wire_of(m)));
    assert(r@.tools =~= tools_view(tools@));
    r
}

/// Translating the same inputs twice gives the same payload: nothing but the
/// model settings, the system text, the messages, the tools and the streaming
/// flag goes into it.
pub proof fn translate_is_deterministic(
    config: &ModelConfig,
    system: &str,
    messages: &Vec<Message>,
    tools: &Vec<Tool>,
    stream: bool,
    first: RequestPayloadView,
    second: RequestPayloadView,
)
    requires
        first == payload_of(config.model_name@, config.max_tokens, system@, messages_view(messages@), tools_view(tools@), stream),
        second == payload_of(config.model_name@, config.max_tokens, system@, messages_view(messages@), tools_view(tools@), stream),
    ensures
        first == second,
{
}

/// Every message of the payload has the role of the message it came from, and
/// there is one for each.
pub proof fn payload_keeps_roles(
    model: Seq<char>,
    max_tokens: Option<u32>,
    system: Seq<char>,
    messages: Seq<MessageView>,
    tools: Seq<ToolView>,
    stream: bool,
)
    ensures
        payload_of(model, max_tokens, system, messages, tools, stream).messages.len() == messages.len(),
        forall|i: int| 0 <= i < messages.len() ==> {
            let role = (#[trigger] payload_of(model, max_tokens, system, messages, tools, stream).messages[i]).role;
            &&& role == messages[i].role
            &&& (role == Role::User || role == Role::Assistant)
        },
{
}

} // verus!
