use vstd::prelude::*;

verus! {

pub const NEWLINE: u8 = 10;

pub const CARRIAGE_RETURN: u8 = 13;

/// The bytes of a run of lines, each followed by a newline.
pub open spec fn joined(lines: Seq<Seq<u8>>) -> Seq<u8>
    decreases lines.len(),
{
    if lines.len() == 0 {
        Seq::empty()
    } else {
        joined(lines.drop_last()) + lines.last() + seq![NEWLINE]
    }
}

pub open spec fn no_newline(b: Seq<u8>) -> bool {
    forall|i: int| 0 <= i < b.len() ==> b[i] != NEWLINE
}

pub open spec fn lines_view(lines: Seq<Vec<u8>>) -> Seq<Seq<u8>> {
    lines.map_values(|l: Vec<u8>| l@)
}

/// Assembles whole lines out of chunks of bytes as they arrive. Bytes after the
/// last newline wait for the next chunk.
pub struct LineBuffer {
    pending: Vec<u8>,
}

impl LineBuffer {
    /// The bytes that wait for the end of their line.
    pub closed spec fn pending(&self) -> Seq<u8> {
        self.pending@
    }

    pub open spec fn wf(&self) -> bool {
        no_newline(self.pending())
    }

    pub fn new() -> (r: LineBuffer)
        ensures
            r.wf(),
            r.pending().len() == 0,
    {
        LineBuffer { pending: Vec::new() }
    }

    /// Takes in a chunk and hands out the lines that it completes, without their
    /// newlines. What was waiting, then the chunk, is exactly the lines handed
    /// out, each with its newline, then what waits now.
    pub fn push(&mut self, chunk: &[u8]) -> (lines: Vec<Vec<u8>>)
        requires
            old(self).wf(),
        ensures
            final(self).wf(),
            old(self).pending() + chunk@ == joined(lines_view(lines@)) + final(self).pending(),
            forall|i: int| 0 <= i < lines@.len() ==> no_newline(#[trigger] lines@[i]@),
    {
        let mut lines: Vec<Vec<u8>> = Vec::new();
        let mut i: usize = 0;
        while i < chunk.len()
            invariant
                i <= chunk@.len(),
                no_newline(self.pending@),
                old(self).pending() + chunk@.take(i as int) == joined(lines_view(lines@)) + self.pending@,
                forall|j: int| 0 <= j < lines@.len() ==> no_newline(#[trigger] lines@[j]@),
            decreases chunk@.len() - i,
        {
            let b = chunk[i];
            let ghost before = self.pending@;
            let ghost prev_lines = lines@;
            assert(chunk@.take(i + 1) =~= chunk@.take(i as int).push(b));
            assert(old(self).pending() + chunk@.take(i + 1) =~= (old(self).pending() + chunk@.take(i as int)).push(b));
            if b == NEWLINE {
                let mut line: Vec<u8> = Vec::new();
                std::mem::swap(&mut line, &mut self.pending);
                lines.push(line);
                assert(lines_view(lines@).drop_last() =~= lines_view(prev_lines));
                assert(lines_view(lines@).last() == before);
                assert(self.pending@ =~= Seq::<u8>::empty());
                assert(joined(lines_view(lines@)) + self.pending@ =~= joined(lines_view(prev_lines)) + before + seq![NEWLINE]);
            } else {
                self.pending.push(b);
                assert(joined(lines_view(lines@)) + self.pending@ =~= (joined(lines_view(lines@)) + before).push(b));
            }
            i = i + 1;
        }
        assert(chunk@.take(i as int) =~= chunk@);
        lines
    }

    /// Ends the input: what still waits is the last line, if there is any.
    pub fn finish(&mut self) -> (r: Option<Vec<u8>>)
        requires
            old(self).wf(),
        ensures
            final(self).wf(),
            final(self).pending().len() == 0,
            old(self).pending().len() == 0 ==> r is None,
            old(self).pending().len() > 0 ==> r is Some && r->Some_0@ == old(self).pending(),
    {
        if self.pending.len() == 0 {
            None
        } else {
            let mut line: Vec<u8> = Vec::new();
            std::mem::swap(&mut line, &mut self.pending);
            Some(line)
        }
    }
}

/// `data:`, the prefix of a line that carries an event.
pub open spec fn data_prefix() -> Seq<u8> {
    seq![100u8, 97u8, 116u8, 97u8, 58u8]
}

/// `event:`, the prefix of a line that only names the next event.
pub open spec fn event_prefix() -> Seq<u8> {
    seq![101u8, 118u8, 101u8, 110u8, 116u8, 58u8]
}

pub open spec fn has_prefix(b: Seq<u8>, p: Seq<u8>) -> bool {
    b.len() >= p.len() && b.subrange(0, p.len() as int) == p
}

/// A line without its trailing carriage return.
pub open spec fn trimmed(b: Seq<u8>) -> Seq<u8> {
    if b.len() > 0 && b.last() == CARRIAGE_RETURN { b.drop_last() } else { b }
}

/// What a line of the stream carries: nothing (a blank line, a comment, an event
/// name), or the text of one event.
pub open spec fn line_payload(line: Seq<u8>) -> Option<Seq<u8>> {
    let t = trimmed(line);
    if t.len() == 0 || t[0] == 58u8 || has_prefix(t, event_prefix()) {
        None
    } else if has_prefix(t, data_prefix()) {
        let rest = t.subrange(5, t.len() as int);
        if rest.len() > 0 && rest[0] == 32u8 { Some(rest.drop_first()) } else { Some(rest) }
    } else {
        Some(t)
    }
}

fn slice_from(b: &[u8], start: usize, end: usize) -> (r: Vec<u8>)
    requires
        start <= end <= b@.len(),
    ensures
        r@ == b@.subrange(start as int, end as int),
{
    let mut r: Vec<u8> = Vec::new();
    let mut i: usize = start;
    while i < end
        invariant
            start <= i <= end,
            end <= b@.len(),
            r@ == b@.subrange(start as int, i as int),
        decreases end - i,
    {
        r.push(b[i]);
        assert(b@.subrange(start as int, i + 1) =~= b@.subrange(start as int, i as int).push(b@[i as int]));
        i = i + 1;
    }
    r
}

/// The text of the event that a line carries, if it carries one. The line's
/// trailing carriage return is dropped, and so is the `data:` prefix with one
/// space after it.
pub fn payload_of_line(line: &[u8]) -> (r: Option<Vec<u8>>)
    ensures
        match (r, line_payload(line@)) {
            (Some(v), Some(p)) => v@ == p,
            (None, None) => true,
            _ => false,
        },
{
    let ghost t = trimmed(line@);
    let n: usize = if line.len() > 0 && line[line.len() - 1] == CARRIAGE_RETURN {
        line.len() - 1
    } else {
        line.len()
    };
    assert(line@.subrange(0, n as int) =~= t);
    if n == 0 || line[0] == 58u8 {
        return None;
    }
    if n >= 6 && line[0] == 101u8 && line[1] == 118u8 && line[2] == 101u8 && line[3] == 110u8
        && line[4] == 116u8 && line[5] == 58u8 {
        assert(t.subrange(0, 6) =~= event_prefix());
        return None;
    }
    assert(!has_prefix(t, event_prefix())) by {
        if has_prefix(t, event_prefix()) {
            assert(t.subrange(0, 6)[0] == t[0]);
            assert(t.subrange(0, 6)[1] == t[1]);
            assert(t.subrange(0, 6)[2] == t[2]);
            assert(t.subrange(0, 6)[3] == t[3]);
            assert(t.subrange(0, 6)[4] == t[4]);
            assert(t.subrange(0, 6)[5] == t[5]);
        }
    }
    if n >= 5 && line[0] == 100u8 && line[1] == 97u8 && line[2] == 116u8 && line[3] == 97u8
        && line[4] == 58u8 {
        assert(t.subrange(0, 5) =~= data_prefix());
        let start: usize = if n > 5 && line[5] == 32u8 { 6 } else { 5 };
        let r = slice_from(line, start, n);
        assert(t.subrange(5, t.len() as int) =~= line@.subrange(5, n as int));
        if start == 6 {
            assert(t.subrange(5, t.len() as int).drop_first() =~= line@.subrange(6, n as int));
        }
        return Some(r);
    }
    assert(!has_prefix(t, data_prefix())) by {
        if has_prefix(t, data_prefix()) {
            assert(t.subrange(0, 5)[0] == t[0]);
            assert(t.subrange(0, 5)[1] == t[1]);
            assert(t.subrange(0, 5)[2] == t[2]);
            assert(t.subrange(0, 5)[3] == t[3]);
            assert(t.subrange(0, 5)[4] == t[4]);
        }
    }
    Some(slice_from(line, 0, n))
}

} // verus!
