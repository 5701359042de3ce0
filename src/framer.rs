use vstd::prelude::*;
use vstd::slice::slice_subrange;
use crate::json::{json_done_field, json_response_field, parse_reply_fields};

verus! {

/// What the framer hands to the token sink, as values.
pub enum Emitted {
    Token(Seq<char>),
    Done(Seq<char>),
}

/// One event of a streamed reply: a piece of text, or the terminal event
/// carrying the whole text.
pub enum StreamEvent {
    Token(String),
    Done(String),
}

impl View for StreamEvent {
    type V = Emitted;

    open spec fn view(&self) -> Emitted {
        match self {
            StreamEvent::Token(t) => Emitted::Token(t@),
            StreamEvent::Done(t) => Emitted::Done(t@),
        }
    }
}

/// The state of a framer as values: the bytes of the line being read, the
/// text gathered so far, whether the terminal event has gone out, and every
/// event emitted since the stream began.
pub struct FrameModel {
    pub pending: Seq<u8>,
    pub full: Seq<char>,
    pub finished: bool,
    pub out: Seq<Emitted>,
}

/// ASCII whitespace: space, tab, carriage return, line feed.
pub open spec fn is_blank_byte(b: u8) -> bool {
    b == 0x20u8 || b == 0x09u8 || b == 0x0du8 || b == 0x0au8
}

/// How many whitespace bytes `s` starts with.
pub open spec fn blank_lead(s: Seq<u8>) -> nat
    decreases s.len(),
{
    if s.len() > 0 && is_blank_byte(s[0]) {
        1 + blank_lead(s.drop_first())
    } else {
        0
    }
}

/// How many whitespace bytes `s` ends with.
pub open spec fn blank_trail(s: Seq<u8>) -> nat
    decreases s.len(),
{
    if s.len() > 0 && is_blank_byte(s.last()) {
        1 + blank_trail(s.drop_last())
    } else {
        0
    }
}

/// A line without its surrounding whitespace.
pub open spec fn trim_line(s: Seq<u8>) -> Seq<u8> {
    if blank_lead(s) >= s.len() {
        Seq::empty()
    } else {
        s.subrange(blank_lead(s) as int, s.len() - blank_trail(s))
    }
}

/// The token text a complete line carries, if any: once trimmed, the line
/// is not empty and its "response" field is a non-empty string.
pub open spec fn line_token(line: Seq<u8>) -> Option<Seq<char>> {
    let t = trim_line(line);
    if t.len() > 0 && json_response_field(t) is Some && json_response_field(t)->0.len() > 0 {
        json_response_field(t)
    } else {
        None
    }
}

/// Whether a complete line marks the end of the reply.
pub open spec fn line_done(line: Seq<u8>) -> bool {
    let t = trim_line(line);
    t.len() > 0 && json_done_field(t) == Some(true)
}

/// A framer before the first byte.
pub open spec fn start_model() -> FrameModel {
    FrameModel { pending: Seq::empty(), full: Seq::empty(), finished: false, out: Seq::empty() }
}

/// What reading one complete line does.
pub open spec fn take_line(m: FrameModel) -> FrameModel {
    let line = m.pending;
    let (full, out) = match line_token(line) {
        Some(t) => (m.full + t, m.out.push(Emitted::Token(t))),
        None => (m.full, m.out),
    };
    if line_done(line) {
        FrameModel { pending: Seq::empty(), full, finished: true, out: out.push(Emitted::Done(full)) }
    } else {
        FrameModel { pending: Seq::empty(), full, finished: false, out }
    }
}

/// What one byte of the stream does.
pub open spec fn step(m: FrameModel, b: u8) -> FrameModel {
    if m.finished {
        m
    } else if b == 0x0au8 {
        take_line(m)
    } else {
        FrameModel { pending: m.pending.push(b), ..m }
    }
}

/// The state after reading `bytes` from `m`.
pub open spec fn feed(m: FrameModel, bytes: Seq<u8>) -> FrameModel
    decreases bytes.len(),
{
    if bytes.len() == 0 {
        m
    } else {
        step(feed(m, bytes.drop_last()), bytes.last())
    }
}

/// What the end of the byte stream does: a stream that ends without a
/// completion marker is complete with the text gathered so far.
pub open spec fn end_stream(m: FrameModel) -> FrameModel {
    if m.finished {
        m
    } else {
        FrameModel { pending: Seq::empty(), finished: true, out: m.out.push(Emitted::Done(m.full)), ..m }
    }
}

/// The token texts of `out`, in order, joined.
pub open spec fn joined_tokens(out: Seq<Emitted>) -> Seq<char>
    decreases out.len(),
{
    if out.len() == 0 {
        Seq::empty()
    } else {
        let rest = joined_tokens(out.drop_last());
        match out.last() {
            Emitted::Token(t) => rest + t,
            Emitted::Done(_) => rest,
        }
    }
}

/// The framer's invariant: the gathered text is the join of the tokens sent,
/// and a terminal event, carrying that text, stands last and only once.
pub open spec fn model_ok(m: FrameModel) -> bool {
    &&& m.full == joined_tokens(m.out)
    &&& forall|i: int| 0 <= i < m.out.len() && (#[trigger] m.out[i]) is Done ==> i == m.out.len() - 1
    &&& m.finished <==> (m.out.len() > 0 && m.out.last() is Done)
    &&& m.finished ==> m.out.last() == Emitted::Done(m.full)
}

/// One byte keeps the invariant and only adds events.
pub proof fn lemma_step_ok(m: FrameModel, b: u8)
    requires
        model_ok(m),
    ensures
        model_ok(step(m, b)),
        step(m, b).out.len() >= m.out.len(),
        step(m, b).out.subrange(0, m.out.len() as int) == m.out,
{
    let n = step(m, b);
    assert(n.out.subrange(0, m.out.len() as int) =~= m.out);
    if !m.finished && b == 0x0au8 {
        let line = m.pending;
        let mid_out = match line_token(line) {
            Some(t) => m.out.push(Emitted::Token(t)),
            None => m.out,
        };
        assert(mid_out.subrange(0, m.out.len() as int) =~= m.out);
        if let Some(t) = line_token(line) {
            assert(mid_out.drop_last() =~= m.out);
        }
        assert(joined_tokens(mid_out) == n.full);
        if line_done(line) {
            assert(n.out.drop_last() =~= mid_out);
            assert forall|i: int| 0 <= i < n.out.len() && (#[trigger] n.out[i]) is Done
                implies i == n.out.len() - 1 by {
                if i < n.out.len() - 1 {
                    assert(n.out[i] == mid_out[i]);
                    if i < m.out.len() {
                        assert(mid_out[i] == m.out[i]);
                    }
                }
            }
        } else {
            assert forall|i: int| 0 <= i < n.out.len() && (#[trigger] n.out[i]) is Done
                implies i == n.out.len() - 1 by {
                if i < m.out.len() {
                    assert(n.out[i] == m.out[i]);
                }
            }
        }
    }
}

/// Any bytes keep the invariant and only add events.
pub proof fn lemma_feed_ok(m: FrameModel, bytes: Seq<u8>)
    requires
        model_ok(m),
    ensures
        model_ok(feed(m, bytes)),
        feed(m, bytes).out.len() >= m.out.len(),
        feed(m, bytes).out.subrange(0, m.out.len() as int) == m.out,
    decreases bytes.len(),
{
    if bytes.len() > 0 {
        let p = feed(m, bytes.drop_last());
        lemma_feed_ok(m, bytes.drop_last());
        lemma_step_ok(p, bytes.last());
        let q = step(p, bytes.last());
        assert(q.out.subrange(0, m.out.len() as int) =~= p.out.subrange(0, m.out.len() as int));
    }
}

/// The end of the stream keeps the invariant and finishes the framer.
pub proof fn lemma_end_ok(m: FrameModel)
    requires
        model_ok(m),
    ensures
        model_ok(end_stream(m)),
        end_stream(m).finished,
{
    let n = end_stream(m);
    if !m.finished {
        assert(n.out.drop_last() =~= m.out);
        assert forall|i: int| 0 <= i < n.out.len() && (#[trigger] n.out[i]) is Done
            implies i == n.out.len() - 1 by {
            if i < m.out.len() {
                assert(n.out[i] == m.out[i]);
            }
        }
    }
}

/// Once the terminal event has gone out, no byte that follows emits
/// anything or changes the framer.
pub proof fn lemma_nothing_after_done(m: FrameModel, bytes: Seq<u8>)
    requires
        m.finished,
    ensures
        feed(m, bytes) == m,
        end_stream(m) == m,
    decreases bytes.len(),
{
    if bytes.len() > 0 {
        lemma_nothing_after_done(m, bytes.drop_last());
    }
}

/// Reading `a` then `b` is reading `a + b`.
pub proof fn lemma_feed_append(m: FrameModel, a: Seq<u8>, b: Seq<u8>)
    ensures
        feed(feed(m, a), b) == feed(m, a + b),
    decreases b.len(),
{
    if b.len() > 0 {
        lemma_feed_append(m, a, b.drop_last());
        assert((a + b).drop_last() =~= a + b.drop_last());
        assert((a + b).last() == b.last());
    }
}

/// The events as values.
pub open spec fn event_views(events: Seq<StreamEvent>) -> Seq<Emitted> {
    events.map_values(|e: StreamEvent| e@)
}

/// Splits a byte stream into newline-delimited JSON lines and turns them into
/// token events and one terminal event.
pub struct StreamFramer {
    pending: Vec<u8>,
    full: String,
    finished: bool,
    out: Ghost<Seq<Emitted>>,
}

impl View for StreamFramer {
    type V = FrameModel;

    closed spec fn view(&self) -> FrameModel {
        FrameModel { pending: self.pending@, full: self.full@, finished: self.finished, out: self.out@ }
    }
}

proof fn lemma_blank_lead(s: Seq<u8>, k: int)
    requires
        0 <= k <= s.len(),
        forall|j: int| 0 <= j < k ==> is_blank_byte(s[j]),
        k == s.len() || !is_blank_byte(s[k]),
    ensures
        blank_lead(s) == k,
    decreases k,
{
    if k > 0 {
        let t = s.drop_first();
        assert forall|j: int| 0 <= j < k - 1 implies is_blank_byte(t[j]) by {
            assert(t[j] == s[j + 1]);
        }
        if k < s.len() {
            assert(t[k - 1] == s[k]);
        }
        lemma_blank_lead(t, k - 1);
    }
}

proof fn lemma_blank_trail(s: Seq<u8>, e: int)
    requires
        0 <= e <= s.len(),
        forall|j: int| e <= j < s.len() ==> is_blank_byte(s[j]),
        e == 0 || !is_blank_byte(s[e - 1]),
    ensures
        blank_trail(s) == s.len() - e,
    decreases s.len() - e,
{
    if e < s.len() {
        let t = s.drop_last();
        assert forall|j: int| e <= j < t.len() implies is_blank_byte(t[j]) by {
            assert(t[j] == s[j]);
        }
        if e > 0 {
            assert(t[e - 1] == s[e - 1]);
        }
        lemma_blank_trail(t, e);
    }
}

fn is_blank(b: u8) -> (r: bool)
    ensures
        r == is_blank_byte(b),
{
    b == 0x20u8 || b == 0x09u8 || b == 0x0du8 || b == 0x0au8
}

/// The bounds of `line` without its surrounding whitespace.
fn trim_bounds(line: &[u8]) -> (r: (usize, usize))
    ensures
        r.0 <= r.1 <= line@.len(),
        line@.subrange(r.0 as int, r.1 as int) == trim_line(line@),
{
    let n = line.len();
    let mut st: usize = 0;
    while st < n && is_blank(line[st])
        invariant
            st <= n == line@.len(),
            forall|j: int| 0 <= j < st ==> is_blank_byte(line@[j]),
        decreases n - st,
    {
        st = st + 1;
    }
    proof {
        lemma_blank_lead(line@, st as int);
    }
    if st == n {
        assert(line@.subrange(n as int, n as int) =~= Seq::<u8>::empty());
        return (n, n);
    }
    let mut en = n;
    while en > st + 1 && is_blank(line[en - 1])
        invariant
            st < en <= n == line@.len(),
            !is_blank_byte(line@[st as int]),
            forall|j: int| en <= j < n ==> is_blank_byte(line@[j]),
        decreases en - st,
    {
        en = en - 1;
    }
    proof {
        lemma_blank_trail(line@, en as int);
    }
    (st, en)
}

impl StreamFramer {
    /// A framer at the start of a stream.
    pub fn new() -> (r: StreamFramer)
        ensures
            r@ == start_model(),
            model_ok(r@),
    {
        let r = StreamFramer { pending: Vec::new(), full: String::new(), finished: false, out: Ghost(Seq::empty()) };
        assert(r@.pending =~= Seq::<u8>::empty());
        r
    }

    /// Whether the terminal event has gone out.
    pub fn is_finished(&self) -> (r: bool)
        ensures
            r == self@.finished,
    {
        self.finished
    }

    /// The text gathered so far.
    pub fn text(&self) -> (r: String)
        ensures
            r@ == self@.full,
    {
        self.full.clone()
    }

    fn take_line(&mut self) -> (events: Vec<StreamEvent>)
        requires
            model_ok(old(self)@),
            !old(self)@.finished,
        ensures
            final(self)@ == take_line(old(self)@),
            old(self)@.out + event_views(events@) == final(self)@.out,
    {
        let mut events: Vec<StreamEvent> = Vec::new();
        let ghost m0 = self@;
        let (a, b) = trim_bounds(self.pending.as_slice());
        if a < b {
            let fields = parse_reply_fields(slice_subrange(self.pending.as_slice(), a, b));
            if let Some(t) = fields.response {
                if t.unicode_len() > 0 {
                    self.full.append(t.as_str());
                    proof {
                        self.out@ = self.out@.push(Emitted::Token(t@));
                    }
                    events.push(StreamEvent::Token(t));
                }
            }
            if fields.done == Some(true) {
                self.finished = true;
                proof {
                    self.out@ = self.out@.push(Emitted::Done(self.full@));
                }
                events.push(StreamEvent::Done(self.full.clone()));
            }
        }
        self.pending = Vec::new();
        assert(self@.pending =~= Seq::<u8>::empty());
        assert(m0.out + event_views(events@) =~= self@.out);
        events
    }

    /// Reads one chunk of the stream and returns the events it completes, in
    /// order. Bytes after the terminal event are ignored.
    pub fn push_chunk(&mut self, chunk: &[u8]) -> (events: Vec<StreamEvent>)
        requires
            model_ok(old(self)@),
        ensures
            final(self)@ == feed(old(self)@, chunk@),
            model_ok(final(self)@),
            old(self)@.out + event_views(events@) == final(self)@.out,
    {
        let mut events: Vec<StreamEvent> = Vec::new();
        let ghost m0 = self@;
        let mut i: usize = 0;
        while i < chunk.len()
            invariant
                i <= chunk@.len(),
                self@ == feed(m0, chunk@.subrange(0, i as int)),
                model_ok(self@),
                m0.out + event_views(events@) == self@.out,
            decreases chunk@.len() - i,
        {
            let ghost before = self@;
            let b = chunk[i];
            proof {
                lemma_step_ok(before, b);
                assert(chunk@.subrange(0, i + 1).drop_last() =~= chunk@.subrange(0, i as int));
            }
            if self.finished {
            } else if b == 0x0au8 {
                let mut more = self.take_line();
                let ghost ev0 = events@;
                let ghost mv = more@;
                events.append(&mut more);
                assert(event_views(events@) =~= event_views(ev0) + event_views(mv));
                assert(m0.out + event_views(events@) =~= (m0.out + event_views(ev0)) + event_views(mv));
            } else {
                self.pending.push(b);
            }
            i = i + 1;
        }
        assert(chunk@.subrange(0, chunk@.len() as int) =~= chunk@);
        events
    }

    /// The byte stream has ended. Unless the terminal event already went out,
    /// returns it, carrying the text gathered so far.
    pub fn end_of_stream(&mut self) -> (r: Option<StreamEvent>)
        requires
            model_ok(old(self)@),
        ensures
            final(self)@ == end_stream(old(self)@),
            model_ok(final(self)@),
            match r {
                Some(e) => !old(self)@.finished && e@ == Emitted::Done(old(self)@.full),
                None => old(self)@.finished,
            },
    {
        proof {
            lemma_end_ok(self@);
        }
        if self.finished {
            None
        } else {
            self.finished = true;
            self.pending = Vec::new();
            proof {
                self.out@ = self.out@.push(Emitted::Done(self.full@));
            }
            assert(self@.pending =~= Seq::<u8>::empty());
            Some(StreamEvent::Done(self.full.clone()))
        }
    }
}

/// All the bytes of `chunks`, in order.
pub open spec fn joined_chunks(chunks: Seq<Vec<u8>>) -> Seq<u8>
    decreases chunks.len(),
{
    if chunks.len() == 0 {
        Seq::empty()
    } else {
        joined_chunks(chunks.drop_last()) + chunks.last()@
    }
}

/// The state after a whole stream made of `bytes`.
pub open spec fn framed(bytes: Seq<u8>) -> FrameModel {
    end_stream(feed(start_model(), bytes))
}

/// Frames a whole stream, given as the chunks in which it arrived: returns
/// every event, the terminal one last, and the full text of the reply.
pub fn frame_stream(chunks: &Vec<Vec<u8>>) -> (r: (Vec<StreamEvent>, String))
    ensures
        event_views(r.0@) == framed(joined_chunks(chunks@)).out,
        r.1@ == framed(joined_chunks(chunks@)).full,
        // the token texts, joined in order, are the text of the terminal
        // event, which comes last and only once
        r.0@.len() > 0,
        r.0@.last()@ == Emitted::Done(r.1@),
        r.1@ == joined_tokens(event_views(r.0@)),
        forall|i: int| 0 <= i < r.0@.len() - 1 ==> (#[trigger] r.0@[i])@ is Token,
{
    proof {
        lemma_tokens_join_to_final_text(joined_chunks(chunks@));
    }
    let mut framer = StreamFramer::new();
    let mut events: Vec<StreamEvent> = Vec::new();
    let mut i: usize = 0;
    while i < chunks.len()
        invariant
            i <= chunks@.len(),
            model_ok(framer@),
            framer@ == feed(start_model(), joined_chunks(chunks@.subrange(0, i as int))),
            event_views(events@) == framer@.out,
        decreases chunks@.len() - i,
    {
        let mut more = framer.push_chunk(chunks[i].as_slice());
        proof {
            let sub = chunks@.subrange(0, i + 1);
            assert(sub.drop_last() =~= chunks@.subrange(0, i as int));
            lemma_feed_append(start_model(), joined_chunks(chunks@.subrange(0, i as int)), chunks@[i as int]@);
        }
        let ghost ev0 = events@;
        let ghost mv = more@;
        events.append(&mut more);
        assert(event_views(events@) =~= event_views(ev0) + event_views(mv));
        i = i + 1;
    }
    assert(chunks@.subrange(0, chunks@.len() as int) =~= chunks@);
    match framer.end_of_stream() {
        Some(e) => {
            let ghost ev0 = events@;
            events.push(e);
            assert(event_views(events@) =~= event_views(ev0).push(e@));
        },
        None => {},
    }
    let text = framer.text();
    proof {
        let m = framed(joined_chunks(chunks@));
        lemma_end_ok(feed(start_model(), joined_chunks(chunks@)));
        assert(event_views(events@).len() == events@.len());
        assert forall|i: int| 0 <= i < events@.len() - 1 implies (#[trigger] events@[i])@ is Token by {
            assert(event_views(events@)[i] == events@[i]@);
        }
        assert(event_views(events@)[events@.len() - 1] == events@.last()@);
    }
    (events, text)
}

/// Whatever bytes a stream holds, the token texts emitted for it, joined in
/// order, are the text that the terminal event carries, and the terminal event
/// comes last and only once.
pub proof fn lemma_tokens_join_to_final_text(bytes: Seq<u8>)
    ensures
        framed(bytes).out.len() > 0,
        framed(bytes).out.last() == Emitted::Done(joined_tokens(framed(bytes).out)),
        forall|i: int| 0 <= i < framed(bytes).out.len() - 1 ==> (#[trigger] framed(bytes).out[i]) is Token,
{
    let s = start_model();
    assert(model_ok(s));
    lemma_feed_ok(s, bytes);
    lemma_end_ok(feed(s, bytes));
    let m = framed(bytes);
    assert forall|i: int| 0 <= i < m.out.len() - 1 implies (#[trigger] m.out[i]) is Token by {
        if m.out[i] is Done {
        }
    }
}

} // verus!