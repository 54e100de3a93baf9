use vstd::prelude::*;
use crate::errors::ProviderError;
use crate::model::{ContentView, Message, MessageView, Role, Usage, derived_total, text_of};
use crate::translate::wire_of;

verus! {

/// One item of the vendor's `content` array; `text` is absent for items that
/// carry no text.
#[derive(Debug)]
pub struct ResponseBlock {
    pub text: Option<String>,
}

/// The vendor's `usage` object, with each counter as it was written.
#[derive(Clone, Copy, Debug, PartialEq, Eq, Structural)]
pub struct ResponseUsage {
    pub input_tokens: Option<i64>,
    pub output_tokens: Option<i64>,
}

/// A vendor batch response, as far as the decoder reads it.
#[derive(Debug)]
pub struct BatchResponse {
    pub content: Option<Vec<ResponseBlock>>,
    pub usage: Option<ResponseUsage>,
}

pub open spec fn block_texts(blocks: Seq<ResponseBlock>) -> Seq<Option<Seq<char>>> {
    blocks.map_values(|b: ResponseBlock| match b.text {
        Some(t) => Some(t@),
        None => None,
    })
}

/// The first text among the items, or the empty text when none has one.
pub open spec fn first_text(texts: Seq<Option<Seq<char>>>) -> Seq<char>
    decreases texts.len(),
{
    if texts.len() == 0 {
        Seq::empty()
    } else {
        match texts[0] {
            Some(t) => t,
            None => first_text(texts.drop_first()),
        }
    }
}

pub open spec fn response_text(r: BatchResponse) -> Seq<char> {
    match r.content {
        Some(blocks) => first_text(block_texts(blocks@)),
        None => Seq::empty(),
    }
}

/// A counter read from the response: absent stays absent; a negative one is
/// malformed.
pub open spec fn counter_ok(c: Option<i64>) -> bool {
    match c {
        Some(n) => n >= 0,
        None => true,
    }
}

pub open spec fn counter_of(c: Option<i64>) -> Option<u64> {
    match c {
        Some(n) => Some(n as u64),
        None => None,
    }
}

pub open spec fn usage_ok(u: Option<ResponseUsage>) -> bool {
    match u {
        Some(u) => counter_ok(u.input_tokens) && counter_ok(u.output_tokens),
        None => true,
    }
}

pub open spec fn usage_of(u: Option<ResponseUsage>) -> Usage {
    match u {
        Some(u) => Usage {
            input_tokens: counter_of(u.input_tokens),
            output_tokens: counter_of(u.output_tokens),
            total_tokens: derived_total(counter_of(u.input_tokens), counter_of(u.output_tokens)),
        },
        None => Usage { input_tokens: None, output_tokens: None, total_tokens: None },
    }
}

fn read_counter(c: Option<i64>) -> (r: Result<Option<u64>, ProviderError>)
    ensures
        r is Ok <==> counter_ok(c),
        r is Ok ==> r->Ok_0 == counter_of(c),
        r is Err ==> r->Err_0@ is RequestFailed,
{
    match c {
        Some(n) => if n >= 0 {
            Ok(Some(n as u64))
        } else {
            Err(ProviderError::RequestFailed("usage counter is negative".to_string()))
        },
        None => Ok(None),
    }
}

/// Reads the usage of a batch response. Missing counters stay `None`.
pub fn decode_usage(u: Option<ResponseUsage>) -> (r: Result<Usage, ProviderError>)
    ensures
        r is Ok <==> usage_ok(u),
        r is Ok ==> r->Ok_0 == usage_of(u),
        r is Err ==> r->Err_0@ is RequestFailed,
{
    match u {
        Some(u) => {
            let input = read_counter(u.input_tokens)?;
            let output = read_counter(u.output_tokens)?;
            Ok(Usage::new(input, output))
        },
        None => Ok(Usage::new(None, None)),
    }
}

/// Decodes a batch response into an assistant message holding the first text of
/// the content array (the empty text when there is none) and its usage. Fails,
/// as a request failure, only on a malformed usage counter.
pub fn decode_batch(resp: &BatchResponse) -> (r: Result<(Message, Usage), ProviderError>)
    ensures
        r is Ok <==> usage_ok(resp.usage),
        r is Ok ==> {
            &&& r->Ok_0.0@.role == Role::Assistant
            &&& r->Ok_0.0@.content == seq![ContentView::Text(response_text(*resp))]
            &&& r->Ok_0.1 == usage_of(resp.usage)
        },
        r is Err ==> r->Err_0@ is RequestFailed,
{
    let usage = decode_usage(resp.usage)?;
    let mut text = String::new();
    match &resp.content {
        Some(blocks) => {
            let mut i: usize = 0;
            let mut found = false;
            assert(block_texts(blocks@).skip(0) =~= block_texts(blocks@));
            while i < blocks.len() && !found
                invariant
                    i <= blocks@.len(),
                    found ==> text@ == first_text(block_texts(blocks@)),
                    !found ==> text@ == Seq::<char>::empty(),
                    !found ==> first_text(block_texts(blocks@)) == first_text(block_texts(blocks@).skip(i as int)),
                decreases blocks@.len() - i + (if found { 0int } else { 1int }),
            {
                let ghost ts = block_texts(blocks@).skip(i as int);
                assert(ts.drop_first() =~= block_texts(blocks@).skip(i + 1));
                match &blocks[i].text {
                    Some(t) => {
                        text = t.clone();
                        found = true;
                    },
                    None => {
                        i = i + 1;
                    },
                }
            }
            if !found {
                assert(block_texts(blocks@).skip(i as int).len() == 0);
                assert(first_text(block_texts(blocks@).skip(i as int)) == Seq::<char>::empty());
                assert(text@ =~= Seq::<char>::empty());
            }
            assert(text@ == first_text(block_texts(blocks@)));
        },
        None => {
            assert(text@ =~= Seq::<char>::empty());
        },
    }
    assert(text@ == response_text(*resp));
    let m = Message::assistant_text(text);
    assert(m@.content == seq![ContentView::Text(response_text(*resp))]);
    Ok((m, usage))
}

/// The text of a message survives the trip to the vendor and back: a message
/// whose only block is the text `t` is sent with the text `t`, and a response
/// whose first item holds that text decodes to a message whose text is `t`.
pub proof fn text_round_trip(role: Role, t: Seq<char>, resp: BatchResponse)
    requires
        t.len() > 0,
        resp.content is Some,
        resp.content->Some_0@.len() > 0,
        block_texts(resp.content->Some_0@)[0] == Some(wire_of(MessageView {
            role,
            content: seq![ContentView::Text(t)],
        }).text),
    ensures
        wire_of(MessageView { role, content: seq![ContentView::Text(t)] }).text == t,
        text_of(seq![ContentView::Text(response_text(resp))]) == t,
{
    let c = seq![ContentView::Text(t)];
    assert(c.drop_last() =~= Seq::<ContentView>::empty());
    assert(text_of(c.drop_last()) == Seq::<char>::empty());
    assert(text_of(c) =~= t);
    let d = seq![ContentView::Text(response_text(resp))];
    assert(d.drop_last() =~= Seq::<ContentView>::empty());
    assert(text_of(d.drop_last()) == Seq::<char>::empty());
    assert(text_of(d) =~= response_text(resp));
}

} // verus!
