use vstd::prelude::*;
use crate::errors::{ProviderError, ProviderErrorView};
use crate::model::{ContentView, Message, Role, Usage, derived_total, text_of};

verus! {

/// The fields of one event frame that the decoder reads, as the frame's JSON
/// gave them: the `type` discriminator, the token counters, the delta text, and
/// an error message.
#[derive(Debug)]
pub struct RawEvent {
    pub kind: Option<String>,
    pub input_tokens: Option<i64>,
    pub output_tokens: Option<i64>,
    pub text: Option<String>,
    pub message: Option<String>,
}

/// One event of the vendor's stream.
#[derive(Debug)]
pub enum StreamEvent {
    MessageStart { input_tokens: Option<u64> },
    ContentDelta(String),
    MessageDelta { output_tokens: Option<u64> },
    MessageStop,
    Error(String),
    /// An event that changes nothing (a ping, the start or end of a block).
    Other,
}

pub enum StreamEventView {
    MessageStart { input_tokens: Option<u64> },
    ContentDelta(Seq<char>),
    MessageDelta { output_tokens: Option<u64> },
    MessageStop,
    Error(Seq<char>),
    Other,
}

impl View for StreamEvent {
    type V = StreamEventView;

    open spec fn view(&self) -> StreamEventView {
        match self {
            StreamEvent::MessageStart { input_tokens } => StreamEventView::MessageStart {
                input_tokens: *input_tokens,
            },
            StreamEvent::ContentDelta(t) => StreamEventView::ContentDelta(t@),
            StreamEvent::MessageDelta { output_tokens } => StreamEventView::MessageDelta {
                output_tokens: *output_tokens,
            },
            StreamEvent::MessageStop => StreamEventView::MessageStop,
            StreamEvent::Error(m) => StreamEventView::Error(m@),
            StreamEvent::Other => StreamEventView::Other,
        }
    }
}

pub open spec fn opt_view(s: Option<String>) -> Option<Seq<char>> {
    match s {
        Some(t) => Some(t@),
        None => None,
    }
}

pub open spec fn text_or_empty(s: Option<Seq<char>>) -> Seq<char> {
    match s {
        Some(t) => t,
        None => Seq::empty(),
    }
}

pub open spec fn counter_fits(c: Option<i64>) -> bool {
    match c {
        Some(n) => n >= 0,
        None => true,
    }
}

pub open spec fn counter_value(c: Option<i64>) -> Option<u64> {
    match c {
        Some(n) => Some(n as u64),
        None => None,
    }
}

/// Whether a frame decodes: it was JSON, it names its kind, and the counter
/// that its kind reads is not negative.
pub open spec fn frame_ok(raw: Option<RawEvent>) -> bool {
    match raw {
        None => false,
        Some(e) => match e.kind {
            None => false,
            Some(k) => if k@ == "message_start"@ {
                counter_fits(e.input_tokens)
            } else if k@ == "message_delta"@ {
                counter_fits(e.output_tokens)
            } else {
                true
            },
        },
    }
}

/// The event that a frame that decodes stands for.
pub open spec fn event_of(e: RawEvent) -> StreamEventView {
    let k = e.kind->Some_0@;
    if k == "message_start"@ {
        StreamEventView::MessageStart { input_tokens: counter_value(e.input_tokens) }
    } else if k == "content_block_delta"@ {
        StreamEventView::ContentDelta(text_or_empty(opt_view(e.text)))
    } else if k == "message_delta"@ {
        StreamEventView::MessageDelta { output_tokens: counter_value(e.output_tokens) }
    } else if k == "message_stop"@ {
        StreamEventView::MessageStop
    } else if k == "error"@ {
        StreamEventView::Error(text_or_empty(opt_view(e.message)))
    } else {
        StreamEventView::Other
    }
}

/// Whether two strings hold the same characters.
pub fn same_text(a: &str, b: &str) -> (r: bool)
    ensures
        r == (a@ == b@),
{
    let n = a.unicode_len();
    if n != b.unicode_len() {
        return false;
    }
    let mut i: usize = 0;
    while i < n
        invariant
            n == a@.len(),
            n == b@.len(),
            i <= n,
            a@.take(i as int) == b@.take(i as int),
        decreases n - i,
    {
        if a.get_char(i) != b.get_char(i) {
            return false;
        }
        assert(a@.take(i + 1) =~= a@.take(i as int).push(a@[i as int]));
        assert(b@.take(i + 1) =~= b@.take(i as int).push(b@[i as int]));
        i = i + 1;
    }
    assert(a@.take(n as int) =~= a@);
    assert(b@.take(n as int) =~= b@);
    true
}

fn copy_text(s: &Option<String>) -> (r: String)
    ensures
        r@ == text_or_empty(opt_view(*s)),
{
    match s {
        Some(t) => t.clone(),
        None => String::new(),
    }
}

fn read_count(c: Option<i64>) -> (r: Result<Option<u64>, ProviderError>)
    ensures
        r is Ok <==> counter_fits(c),
        r is Ok ==> r->Ok_0 == counter_value(c),
        r is Err ==> r->Err_0@ is StreamDecode,
{
    match c {
        Some(n) => if n >= 0 {
            Ok(Some(n as u64))
        } else {
            Err(ProviderError::StreamDecode("token counter is negative".to_string()))
        },
        None => Ok(None),
    }
}

/// Reads one frame; `None` stands for a frame that was not JSON. A frame that
/// was not JSON, has no kind, or carries a negative counter is a stream decode
/// error.
pub fn read_event(raw: &Option<RawEvent>) -> (r: Result<StreamEvent, ProviderError>)
    ensures
        r is Ok <==> frame_ok(*raw),
        r is Ok ==> r->Ok_0@ == event_of(raw->Some_0),
        r is Err ==> r->Err_0@ is StreamDecode,
{
    proof {
        reveal_strlit("message_start");
        reveal_strlit("content_block_delta");
        reveal_strlit("message_delta");
        reveal_strlit("message_stop");
        reveal_strlit("error");
        assert("message_start"@[0] == 'm' && "message_start"@[8] == 's' && "message_start"@[10] == 'a');
        assert("message_delta"@[0] == 'm' && "message_delta"@[8] == 'd');
        assert("message_stop"@[0] == 'm' && "message_stop"@[8] == 's' && "message_stop"@[10] == 'o');
        assert("content_block_delta"@[0] == 'c');
        assert("error"@[0] == 'e');
    }
    let e = match raw {
        Some(e) => e,
        None => {
            return Err(ProviderError::StreamDecode("frame is not JSON".to_string()));
        },
    };
    let k = match &e.kind {
        Some(k) => k.as_str(),
        None => {
            return Err(ProviderError::StreamDecode("frame has no type".to_string()));
        },
    };
    if same_text(k, "message_start") {
        let n = read_count(e.input_tokens)?;
        Ok(StreamEvent::MessageStart { input_tokens: n })
    } else if same_text(k, "content_block_delta") {
        Ok(StreamEvent::ContentDelta(copy_text(&e.text)))
    } else if same_text(k, "message_delta") {
        let n = read_count(e.output_tokens)?;
        Ok(StreamEvent::MessageDelta { output_tokens: n })
    } else if same_text(k, "message_stop") {
        Ok(StreamEvent::MessageStop)
    } else if same_text(k, "error") {
        Ok(StreamEvent::Error(copy_text(&e.message)))
    } else {
        Ok(StreamEvent::Other)
    }
}

/// A usage record whose total is derived from its counters.
pub open spec fn usage_from(input: Option<u64>, output: Option<u64>) -> Usage {
    Usage { input_tokens: input, output_tokens: output, total_tokens: derived_total(input, output) }
}

/// What the decoder has gathered so far.
pub struct DecoderView {
    pub text: Seq<char>,
    pub input_tokens: Option<u64>,
    pub output_tokens: Option<u64>,
    pub stopped: bool,
}

/// What a consumer sees after an event: the message so far and, once counters
/// have been reported, the usage so far.
pub struct SnapshotView {
    pub text: Seq<char>,
    pub usage: Option<Usage>,
}

pub open spec fn initial_decoder() -> DecoderView {
    DecoderView { text: Seq::empty(), input_tokens: None, output_tokens: None, stopped: false }
}

/// How one event changes the decoder, and what it emits.
pub open spec fn step(d: DecoderView, e: StreamEventView) -> (DecoderView, Result<Option<SnapshotView>, ProviderErrorView>) {
    match e {
        StreamEventView::MessageStart { input_tokens } => (
            DecoderView { text: Seq::empty(), input_tokens, output_tokens: None, stopped: false },
            Ok(None),
        ),
        StreamEventView::ContentDelta(t) => (
            DecoderView { text: d.text + t, ..d },
            Ok(Some(SnapshotView { text: d.text + t, usage: None })),
        ),
        StreamEventView::MessageDelta { output_tokens } => {
            let out = if output_tokens is Some { output_tokens } else { d.output_tokens };
            (
                DecoderView { output_tokens: out, ..d },
                Ok(Some(SnapshotView { text: d.text, usage: Some(usage_from(d.input_tokens, out)) })),
            )
        },
        StreamEventView::MessageStop => (
            DecoderView { stopped: true, ..d },
            Ok(Some(SnapshotView { text: d.text, usage: Some(usage_from(d.input_tokens, d.output_tokens)) })),
        ),
        StreamEventView::Error(m) => (d, Err(ProviderErrorView::StreamDecode(m))),
        StreamEventView::Other => (d, Ok(None)),
    }
}

/// A snapshot handed to the consumer.
#[derive(Debug)]
pub struct Snapshot {
    pub message: Message,
    pub usage: Option<Usage>,
}

impl View for Snapshot {
    type V = SnapshotView;

    open spec fn view(&self) -> SnapshotView {
        SnapshotView { text: text_of(self.message@.content), usage: self.usage }
    }
}

pub open spec fn snapshots_view(s: Seq<Snapshot>) -> Seq<SnapshotView> {
    s.map_values(|x: Snapshot| x@)
}

proof fn single_text(t: Seq<char>)
    ensures
        text_of(seq![ContentView::Text(t)]) == t,
{
    let c = seq![ContentView::Text(t)];
    assert(c.drop_last() =~= Seq::<ContentView>::empty());
    assert(text_of(c.drop_last()) == Seq::<char>::empty());
    assert(text_of(c) =~= t);
}

/// Turns stream events, one at a time, into growing assistant messages.
pub struct StreamDecoder {
    text: String,
    input_tokens: Option<u64>,
    output_tokens: Option<u64>,
    stopped: bool,
}

impl View for StreamDecoder {
    type V = DecoderView;

    closed spec fn view(&self) -> DecoderView {
        DecoderView {
            text: self.text@,
            input_tokens: self.input_tokens,
            output_tokens: self.output_tokens,
            stopped: self.stopped,
        }
    }
}

impl StreamDecoder {
    pub fn new() -> (r: StreamDecoder)
        ensures
            r@ == initial_decoder(),
    {
        StreamDecoder { text: String::new(), input_tokens: None, output_tokens: None, stopped: false }
    }

    /// Whether the terminal event has been seen.
    pub fn is_stopped(&self) -> (r: bool)
        ensures
            r == self@.stopped,
    {
        self.stopped
    }

    fn snapshot(&self, usage: Option<Usage>) -> (r: Snapshot)
        ensures
            r@ == (SnapshotView { text: self@.text, usage }),
            r.message@.role == Role::Assistant,
            r.message@.content == seq![ContentView::Text(self@.text)],
    {
        let m = Message::assistant_text(self.text.clone());
        proof {
            single_text(self@.text);
        }
        Snapshot { message: m, usage }
    }

    /// Applies one event and returns what it emits: a snapshot of the message
    /// so far, nothing, or the error that an error event carries.
    pub fn apply(&mut self, event: &StreamEvent) -> (r: Result<Option<Snapshot>, ProviderError>)
        requires
            !old(self)@.stopped,
        ensures
            final(self)@ == step(old(self)@, event@).0,
            match (r, step(old(self)@, event@).1) {
                (Ok(None), Ok(None)) => true,
                (Ok(Some(s)), Ok(Some(v))) => s@ == v && s.message@.role == Role::Assistant,
                (Err(e), Err(v)) => e@ == v,
                _ => false,
            },
    {
        match event {
            StreamEvent::MessageStart { input_tokens } => {
                self.text = String::new();
                self.input_tokens = *input_tokens;
                self.output_tokens = None;
                Ok(None)
            },
            StreamEvent::ContentDelta(t) => {
                self.text.append(t.as_str());
                Ok(Some(self.snapshot(None)))
            },
            StreamEvent::MessageDelta { output_tokens } => {
                if output_tokens.is_some() {
                    self.output_tokens = *output_tokens;
                }
                let u = Usage::new(self.input_tokens, self.output_tokens);
                Ok(Some(self.snapshot(Some(u))))
            },
            StreamEvent::MessageStop => {
                self.stopped = true;
                let u = Usage::new(self.input_tokens, self.output_tokens);
                Ok(Some(self.snapshot(Some(u))))
            },
            StreamEvent::Error(m) => Err(ProviderError::StreamDecode(m.clone())),
            StreamEvent::Other => Ok(None),
        }
    }

    /// Ends the stream: an error unless the terminal event was seen.
    pub fn finish(&self) -> (r: Result<(), ProviderError>)
        ensures
            r is Ok <==> self@.stopped,
            r is Err ==> r->Err_0@ == ProviderErrorView::IncompleteStream,
    {
        if self.stopped {
            Ok(())
        } else {
            Err(ProviderError::IncompleteStream)
        }
    }
}

/// The decoder after reading a run of events, the snapshots emitted, and the
/// error met, if any. Reading ends at an error or at the terminal event.
pub open spec fn run(events: Seq<StreamEventView>) -> (DecoderView, Seq<SnapshotView>, Option<ProviderErrorView>)
    decreases events.len(),
{
    if events.len() == 0 {
        (initial_decoder(), Seq::empty(), None)
    } else {
        let (d, snaps, err) = run(events.drop_last());
        if err is Some || d.stopped {
            (d, snaps, err)
        } else {
            let (d2, out) = step(d, events.last());
            match out {
                Ok(Some(s)) => (d2, snaps.push(s), None),
                Ok(None) => (d2, snaps, None),
                Err(e) => (d2, snaps, Some(e)),
            }
        }
    }
}

/// The error that ends a whole stream: the one met while reading, or an
/// incomplete stream when the events ran out before the terminal event.
pub open spec fn stream_error(events: Seq<StreamEventView>) -> Option<ProviderErrorView> {
    let (d, _, err) = run(events);
    if err is Some {
        err
    } else if d.stopped {
        None
    } else {
        Some(ProviderErrorView::IncompleteStream)
    }
}

/// Everything a whole stream gave: the snapshots emitted in order, and the
/// error that ended it, if any. Snapshots emitted before an error stay.
#[derive(Debug)]
pub struct StreamOutcome {
    pub snapshots: Vec<Snapshot>,
    pub error: Option<ProviderError>,
}

pub open spec fn events_view(e: Seq<StreamEvent>) -> Seq<StreamEventView> {
    e.map_values(|x: StreamEvent| x@)
}

pub open spec fn error_view(e: Option<ProviderError>) -> Option<ProviderErrorView> {
    match e {
        Some(x) => Some(x@),
        None => None,
    }
}

/// Decodes a whole stream of events.
pub fn decode_events(events: &Vec<StreamEvent>) -> (r: StreamOutcome)
    ensures
        snapshots_view(r.snapshots@) == run(events_view(events@)).1,
        error_view(r.error) == stream_error(events_view(events@)),
        forall|i: int| 0 <= i < r.snapshots@.len() ==> (#[trigger] r.snapshots@[i]).message@.role == Role::Assistant,
{
    let ghost ev = events_view(events@);
    let mut dec = StreamDecoder::new();
    let mut snaps: Vec<Snapshot> = Vec::new();
    let mut err: Option<ProviderError> = None;
    let mut i: usize = 0;
    assert(ev.take(0) =~= Seq::<StreamEventView>::empty());
    while i < events.len() && err.is_none() && !dec.is_stopped()
        invariant
            i <= events@.len(),
            ev == events_view(events@),
            run(ev.take(i as int)) == (dec@, snapshots_view(snaps@), error_view(err)),
            forall|j: int| 0 <= j < snaps@.len() ==> (#[trigger] snaps@[j]).message@.role == Role::Assistant,
        decreases events@.len() - i,
    {
        assert(ev.take(i + 1).drop_last() =~= ev.take(i as int));
        assert(ev.take(i + 1).last() == events@[i as int]@);
        let ghost prev = snaps@;
        match dec.apply(&events[i]) {
            Ok(Some(s)) => {
                snaps.push(s);
                assert(snapshots_view(snaps@) =~= snapshots_view(prev).push(s@));
            },
            Ok(None) => {},
            Err(e) => {
                err = Some(e);
            },
        }
        i = i + 1;
    }
    proof {
        if i < events@.len() {
            lemma_run_settled(ev, i as nat);
        } else {
            assert(ev.take(i as int) =~= ev);
        }
    }
    if err.is_none() {
        match dec.finish() {
            Ok(()) => {},
            Err(e) => {
                err = Some(e);
            },
        }
    }
    StreamOutcome { snapshots: snaps, error: err }
}

/// Once reading has ended, later events change nothing.
proof fn lemma_run_settled(ev: Seq<StreamEventView>, k: nat)
    requires
        k <= ev.len(),
        run(ev.take(k as int)).2 is Some || run(ev.take(k as int)).0.stopped,
    ensures
        run(ev) == run(ev.take(k as int)),
    decreases ev.len() - k,
{
    if k < ev.len() {
        assert(ev.take((k + 1) as int).drop_last() =~= ev.take(k as int));
        lemma_run_settled(ev, (k + 1) as nat);
    } else {
        assert(ev.take(k as int) =~= ev);
    }
}

pub open spec fn is_prefix(a: Seq<char>, b: Seq<char>) -> bool {
    a.len() <= b.len() && b.subrange(0, a.len() as int) == a
}

/// The texts of the content deltas among the events, joined in order.
pub open spec fn delta_text(events: Seq<StreamEventView>) -> Seq<char>
    decreases events.len(),
{
    if events.len() == 0 {
        Seq::empty()
    } else {
        delta_text(events.drop_last()) + match events.last() {
            StreamEventView::ContentDelta(t) => t,
            _ => Seq::empty(),
        }
    }
}

/// Events that may come before the terminal one: no error, no terminal event,
/// and a message start only first.
pub open spec fn open_events(events: Seq<StreamEventView>) -> bool {
    forall|i: int| 0 <= i < events.len() ==> {
        &&& !(#[trigger] events[i] is MessageStop)
        &&& !(events[i] is Error)
        &&& (i > 0 ==> !(events[i] is MessageStart))
    }
}

proof fn lemma_open_run(events: Seq<StreamEventView>)
    requires
        open_events(events),
    ensures
        run(events).2 is None,
        !run(events).0.stopped,
        run(events).0.text == delta_text(events),
        forall|i: int| 0 <= i < run(events).1.len() ==> is_prefix(#[trigger] run(events).1[i].text, run(events).0.text),
        forall|i: int| 0 <= i < run(events).1.len() - 1 ==> is_prefix(#[trigger] run(events).1[i].text, run(events).1[i + 1].text),
    decreases events.len(),
{
    if events.len() > 0 {
        let pre = events.drop_last();
        assert forall|i: int| 0 <= i < pre.len() implies {
            &&& !(#[trigger] pre[i] is MessageStop)
            &&& !(pre[i] is Error)
            &&& (i > 0 ==> !(pre[i] is MessageStart))
        } by {
            assert(pre[i] == events[i]);
        }
        lemma_open_run(pre);
        let (d, snaps, err) = run(pre);
        let e = events.last();
        assert(e == events[events.len() - 1]);
        let (d2, out) = step(d, e);
        let snaps2 = run(events).1;
        match e {
            StreamEventView::MessageStart { .. } => {
                assert(events.len() == 1);
                assert(pre.len() == 0);
                assert(snaps2.len() == 0);
            },
            StreamEventView::ContentDelta(t) => {
                assert(snaps2 == snaps.push(SnapshotView { text: d.text + t, usage: None }));
                assert forall|i: int| 0 <= i < snaps2.len() implies is_prefix(#[trigger] snaps2[i].text, d2.text) by {
                    if i < snaps.len() {
                        assert(snaps2[i] == snaps[i]);
                        assert(is_prefix(snaps[i].text, d.text));
                        assert(d2.text.subrange(0, snaps[i].text.len() as int) =~= d.text.subrange(0, snaps[i].text.len() as int));
                    } else {
                        assert(d2.text.subrange(0, d2.text.len() as int) =~= d2.text);
                    }
                }
                assert forall|i: int| 0 <= i < snaps2.len() - 1 implies is_prefix(#[trigger] snaps2[i].text, snaps2[i + 1].text) by {
                    if i + 1 < snaps.len() {
                        assert(snaps2[i] == snaps[i]);
                        assert(snaps2[i + 1] == snaps[i + 1]);
                    } else {
                        assert(snaps2[i] == snaps[i]);
                        assert(is_prefix(snaps[i].text, d.text));
                        assert(d2.text.subrange(0, snaps[i].text.len() as int) =~= d.text.subrange(0, snaps[i].text.len() as int));
                    }
                }
            },
            StreamEventView::MessageDelta { .. } => {
                assert(delta_text(events) =~= delta_text(pre));
                assert forall|i: int| 0 <= i < snaps2.len() implies is_prefix(#[trigger] snaps2[i].text, d2.text) by {
                    if i < snaps.len() {
                        assert(snaps2[i] == snaps[i]);
                    } else {
                        assert(d2.text.subrange(0, d2.text.len() as int) =~= d2.text);
                    }
                }
                assert forall|i: int| 0 <= i < snaps2.len() - 1 implies is_prefix(#[trigger] snaps2[i].text, snaps2[i + 1].text) by {
                    assert(snaps2[i] == snaps[i]);
                    if i + 1 < snaps.len() {
                        assert(snaps2[i + 1] == snaps[i + 1]);
                    }
                }
            },
            StreamEventView::Other => {
                assert(delta_text(events) =~= delta_text(pre));
            },
            _ => {},
        }
    } else {
        assert(delta_text(events) == Seq::<char>::empty());
    }
}

/// A stream that runs to its terminal event with no error in between ends
/// without error; each snapshot's text begins with the text of the one before,
/// and the last snapshot holds exactly the content deltas joined in order.
pub proof fn stream_text_grows(events: Seq<StreamEventView>)
    requires
        events.len() >= 1,
        events.last() is MessageStop,
        open_events(events.drop_last()),
    ensures
        stream_error(events) is None,
        run(events).1.len() >= 1,
        forall|i: int| 0 <= i < run(events).1.len() - 1 ==> is_prefix(#[trigger] run(events).1[i].text, run(events).1[i + 1].text),
        run(events).1.last().text == delta_text(events),
{
    let pre = events.drop_last();
    lemma_open_run(pre);
    let (d, snaps, err) = run(pre);
    let snaps2 = run(events).1;
    assert(snaps2 == snaps.push(SnapshotView { text: d.text, usage: Some(usage_from(d.input_tokens, d.output_tokens)) }));
    assert(delta_text(events) =~= delta_text(pre));
    assert forall|i: int| 0 <= i < snaps2.len() - 1 implies is_prefix(#[trigger] snaps2[i].text, snaps2[i + 1].text) by {
        assert(snaps2[i] == snaps[i]);
        if i + 1 < snaps.len() {
            assert(snaps2[i + 1] == snaps[i + 1]);
        }
    }
}

/// A stream whose events run out before the terminal event ends with an
/// incomplete-stream error, unless an error event came first.
pub proof fn unterminated_stream_fails(events: Seq<StreamEventView>)
    requires
        open_events(events),
    ensures
        stream_error(events) == Some(ProviderErrorView::IncompleteStream),
{
    lemma_open_run(events);
}

} // verus!
