use vstd::prelude::*;

verus! {

/// Who wrote a message.
#[derive(Clone, Copy, Debug, PartialEq, Eq, Structural)]
pub enum Role {
    User,
    Assistant,
}

/// Token accounting for one completion. A counter that the vendor did not
/// report is `None`, never zero.
#[derive(Clone, Copy, Debug, PartialEq, Eq, Structural)]
pub struct Usage {
    pub input_tokens: Option<u64>,
    pub output_tokens: Option<u64>,
    pub total_tokens: Option<u64>,
}

/// The total that goes with two counters: their sum when both are known.
pub open spec fn derived_total(input: Option<u64>, output: Option<u64>) -> Option<u64> {
    match (input, output) {
        (Some(i), Some(o)) => if i + o <= u64::MAX { Some((i + o) as u64) } else { None },
        _ => None,
    }
}

impl Usage {
    /// Builds a usage record, deriving the total from the two counters.
    pub fn new(input_tokens: Option<u64>, output_tokens: Option<u64>) -> (r: Usage)
        ensures
            r.input_tokens == input_tokens,
            r.output_tokens == output_tokens,
            r.total_tokens == derived_total(input_tokens, output_tokens),
    {
        let total = match (input_tokens, output_tokens) {
            (Some(i), Some(o)) => i.checked_add(o),
            _ => None,
        };
        Usage { input_tokens, output_tokens, total_tokens: total }
    }
}

} // verus!

verus! {

/// One block of a message's content.
#[derive(Debug)]
pub enum Content {
    Text(String),
    ToolRequest { id: String, name: String, arguments: String },
    ToolResponse { id: String, output: String },
}

pub enum ContentView {
    Text(Seq<char>),
    ToolRequest { id: Seq<char>, name: Seq<char>, arguments: Seq<char> },
    ToolResponse { id: Seq<char>, output: Seq<char> },
}

impl View for Content {
    type V = ContentView;

    open spec fn view(&self) -> ContentView {
        match self {
            Content::Text(t) => ContentView::Text(t@),
            Content::ToolRequest { id, name, arguments } => ContentView::ToolRequest {
                id: id@,
                name: name@,
                arguments: arguments@,
            },
            Content::ToolResponse { id, output } => ContentView::ToolResponse {
                id: id@,
                output: output@,
            },
        }
    }
}

impl Content {
    /// A block with the same contents.
    pub fn duplicate(&self) -> (r: Content)
        ensures
            r@ == self@,
    {
        match self {
            Content::Text(t) => Content::Text(t.clone()),
            Content::ToolRequest { id, name, arguments } => Content::ToolRequest {
                id: id.clone(),
                name: name.clone(),
                arguments: arguments.clone(),
            },
            Content::ToolResponse { id, output } => Content::ToolResponse {
                id: id.clone(),
                output: output.clone(),
            },
        }
    }
}

pub open spec fn contents_view(c: Seq<Content>) -> Seq<ContentView> {
    c.map_values(|b: Content| b@)
}

/// The text of a sequence of blocks: its text blocks joined in order.
pub open spec fn text_of(c: Seq<ContentView>) -> Seq<char>
    decreases c.len(),
{
    if c.len() == 0 {
        Seq::empty()
    } else {
        text_of(c.drop_last()) + match c.last() {
            ContentView::Text(t) => t,
            _ => Seq::empty(),
        }
    }
}

/// The blocks of a sequence that are not text, in order.
pub open spec fn non_text_of(c: Seq<ContentView>) -> Seq<ContentView>
    decreases c.len(),
{
    if c.len() == 0 {
        Seq::empty()
    } else {
        non_text_of(c.drop_last()) + match c.last() {
            ContentView::Text(_) => Seq::empty(),
            b => seq![b],
        }
    }
}

/// A conversation turn: a role and its ordered content blocks.
#[derive(Debug)]
pub struct Message {
    pub role: Role,
    pub content: Vec<Content>,
}

pub struct MessageView {
    pub role: Role,
    pub content: Seq<ContentView>,
}

impl View for Message {
    type V = MessageView;

    open spec fn view(&self) -> MessageView {
        MessageView { role: self.role, content: contents_view(self.content@) }
    }
}

impl Message {
    /// An empty message of the given role.
    pub fn new(role: Role) -> (r: Message)
        ensures
            r@.role == role,
            r@.content.len() == 0,
    {
        Message { role, content: Vec::new() }
    }

    /// An assistant message that holds one text block.
    pub fn assistant_text(text: String) -> (r: Message)
        ensures
            r@.role == Role::Assistant,
            r@.content == seq![ContentView::Text(text@)],
    {
        let ghost tv = text@;
        let mut content = Vec::new();
        content.push(Content::Text(text));
        let r = Message { role: Role::Assistant, content };
        assert(r@.content =~= seq![ContentView::Text(tv)]);
        r
    }

    /// Appends a block; the blocks already there stay as they are.
    pub fn push(&mut self, block: Content)
        ensures
            final(self)@.role == old(self)@.role,
            final(self)@.content == old(self)@.content.push(block@),
    {
        self.content.push(block);
        assert(self@.content =~= old(self)@.content.push(block@));
    }

    /// The text of the message: its text blocks joined in order.
    pub fn text(&self) -> (r: String)
        ensures
            r@ == text_of(self@.content),
    {
        let mut r = String::new();
        let mut i: usize = 0;
        while i < self.content.len()
            invariant
                i <= self.content@.len(),
                r@ == text_of(self@.content.take(i as int)),
            decreases self.content@.len() - i,
        {
            assert(self@.content.take(i + 1).drop_last() =~= self@.content.take(i as int));
            match &self.content[i] {
                Content::Text(t) => {
                    r.append(t.as_str());
                },
                _ => {
                    assert(r@ + Seq::<char>::empty() =~= r@);
                },
            }
            i = i + 1;
        }
        assert(self@.content.take(i as int) =~= self@.content);
        r
    }
}

} // verus!
