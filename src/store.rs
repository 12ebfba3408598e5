use vstd::prelude::*;
use vstd::slice::slice_to_vec;
use vstd::utf8::encode_utf8;

use crate::event::Event;
use crate::overstrike::{decode_runs, parse_styled_spans, spans_match, StyledSpan};

verus! {

/// What the line store holds: every line received so far, in order, and
/// whether the input has ended.
pub struct StoreView {
    pub lines: Seq<Seq<char>>,
    pub reached_eof: bool,
}

/// The store after a batch of lines arrives.
pub open spec fn after_new_lines(v: StoreView, batch: Seq<Seq<char>>) -> StoreView {
    StoreView { lines: v.lines + batch, reached_eof: v.reached_eof }
}

/// The store after each batch of `batches` has arrived, in order.
pub open spec fn after_batches(v: StoreView, batches: Seq<Seq<Seq<char>>>) -> StoreView
    decreases batches.len(),
{
    if batches.len() == 0 {
        v
    } else {
        after_new_lines(after_batches(v, batches.drop_last()), batches.last())
    }
}

/// The number of lines in all of `batches`.
pub open spec fn batches_size(batches: Seq<Seq<Seq<char>>>) -> nat
    decreases batches.len(),
{
    if batches.len() == 0 {
        0
    } else {
        batches_size(batches.drop_last()) + batches.last().len()
    }
}

/// The styled runs that a stored line shows.
pub open spec fn styled_line(line: Seq<char>) -> Seq<(Seq<u8>, crate::overstrike::SpanStyle)> {
    decode_runs(encode_utf8(line))
}

/// How many lines a request for `count` lines from `start` gets when
/// `len` lines are stored.
pub open spec fn visible_count(len: nat, start: nat, count: nat) -> nat {
    if count == 0 || start >= len {
        0
    } else if count < len - start {
        count
    } else {
        (len - start) as nat
    }
}

pub open spec fn strings_view(v: Seq<String>) -> Seq<Seq<char>> {
    Seq::new(v.len(), |i: int| v[i]@)
}

/// The lines received from the input, append-only.
#[derive(Debug)]
pub struct OpenedInput {
    lines: Vec<String>,
    reached_eof: bool,
    current_total_lines: usize,
}

impl View for OpenedInput {
    type V = StoreView;

    closed spec fn view(&self) -> StoreView {
        StoreView { lines: strings_view(self.lines@), reached_eof: self.reached_eof }
    }
}

impl OpenedInput {
    /// The running count agrees with the stored lines.
    pub closed spec fn wf(&self) -> bool {
        self.current_total_lines == self.lines@.len()
    }

    /// An empty store for an input that has just been opened.
    pub fn new() -> (r: OpenedInput)
        ensures
            r.wf(),
            r@.lines == Seq::<Seq<char>>::empty(),
            !r@.reached_eof,
    {
        let r = OpenedInput { lines: Vec::new(), reached_eof: false, current_total_lines: 0 };
        assert(r@.lines =~= Seq::<Seq<char>>::empty());
        r
    }

    pub fn reached_eof(&self) -> (r: bool)
        ensures
            r == self@.reached_eof,
    {
        self.reached_eof
    }

    pub fn current_total_lines(&self) -> (r: usize)
        requires
            self.wf(),
        ensures
            r == self@.lines.len(),
    {
        self.current_total_lines
    }

    /// Takes in what the reader sent: a batch is appended, the end of input
    /// is recorded, a reader failure is handed back.
    pub fn handle_event(&mut self, event: Event) -> (r: Result<(), color_eyre::eyre::Report>)
        requires
            old(self).wf(),
            event is NewLines || event is EOF || event is ReaderFailed,
        ensures
            final(self).wf(),
            match event {
                Event::NewLines(batch) => r is Ok && final(self)@ == after_new_lines(
                    old(self)@,
                    strings_view(batch@),
                ),
                Event::EOF => r is Ok && final(self)@ == (StoreView {
                    lines: old(self)@.lines,
                    reached_eof: true,
                }),
                Event::ReaderFailed(e) => r == Err::<(), color_eyre::eyre::Report>(e) && final(self)@
                    == old(self)@,
                _ => false,
            },
    {
        match event {
            Event::NewLines(batch) => {
                let ghost before = self.lines@;
                let mut batch = batch;
                let ghost added = batch@;
                self.lines.append(&mut batch);
                self.current_total_lines = self.lines.len();
                assert(strings_view(self.lines@) =~= strings_view(before) + strings_view(added));
                Ok(())
            },
            Event::EOF => {
                self.reached_eof = true;
                Ok(())
            },
            Event::ReaderFailed(e) => Err(e),
            _ => Ok(()),
        }
    }

    /// Up to `count` decoded lines from line `start` on, as many as are
    /// stored now; none when `start` is past the end or `count` is zero.
    pub fn lines(&self, start: usize, count: usize) -> (r: Vec<Vec<StyledSpan>>)
        ensures
            r@.len() == visible_count(self@.lines.len(), start as nat, count as nat),
            forall|k: int|
                0 <= k < r@.len() ==> spans_match(
                    (#[trigger] r@[k])@,
                    styled_line(self@.lines[start + k]),
                ),
    {
        let mut out: Vec<Vec<StyledSpan>> = Vec::new();
        if count == 0 || self.lines.len() <= start {
            return out;
        }
        let total = self.lines.len();
        let n = if count < total - start {
            count
        } else {
            total - start
        };
        let mut k: usize = 0;
        while k < n
            invariant
                n == visible_count(self@.lines.len(), start as nat, count as nat),
                total == self.lines@.len(),
                start + n <= total,
                k <= n,
                out@.len() == k,
                forall|j: int|
                    0 <= j < k ==> spans_match(
                        (#[trigger] out@[j])@,
                        styled_line(self@.lines[start + j]),
                    ),
            decreases n - k,
        {
            let line = &self.lines[start + k];
            let bytes = slice_to_vec(line.as_str().as_bytes());
            assert(self@.lines[start + k] == line@);
            out.push(parse_styled_spans(bytes));
            k = k + 1;
        }
        out
    }
}

proof fn lemma_after_batches_len(v: StoreView, batches: Seq<Seq<Seq<char>>>)
    ensures
        after_batches(v, batches).lines.len() == v.lines.len() + batches_size(batches),
    decreases batches.len(),
{
    if batches.len() > 0 {
        lemma_after_batches_len(v, batches.drop_last());
    }
}

proof fn lemma_prefix_size(batches: Seq<Seq<Seq<char>>>, j: int)
    requires
        0 <= j <= batches.len(),
    ensures
        batches_size(batches.take(j)) <= batches_size(batches),
    decreases batches.len(),
{
    if j < batches.len() {
        assert(batches.take(j) == batches.drop_last().take(j));
        lemma_prefix_size(batches.drop_last(), j);
    } else {
        assert(batches.take(j) == batches);
    }
}

/// Each batch adds its own size to the stored lines, so the count after
/// every arrival is the count before plus the sizes of the batches so far,
/// and it never decreases.
pub proof fn lemma_count_is_cumulative(v: StoreView, batches: Seq<Seq<Seq<char>>>)
    ensures
        forall|k: int|
            0 <= k <= batches.len() ==> (#[trigger] after_batches(v, batches.take(k))).lines.len()
                == v.lines.len() + batches_size(batches.take(k)),
        forall|j: int, k: int|
            0 <= j <= k <= batches.len() ==> (#[trigger] after_batches(v, batches.take(j))).lines.len()
                <= (#[trigger] after_batches(v, batches.take(k))).lines.len(),
{
    assert forall|k: int| 0 <= k <= batches.len() implies (#[trigger] after_batches(
        v,
        batches.take(k),
    )).lines.len() == v.lines.len() + batches_size(batches.take(k)) by {
        lemma_after_batches_len(v, batches.take(k));
    }
    assert forall|j: int, k: int| 0 <= j <= k <= batches.len() implies (#[trigger] after_batches(
        v,
        batches.take(j),
    )).lines.len() <= (#[trigger] after_batches(v, batches.take(k))).lines.len() by {
        lemma_after_batches_len(v, batches.take(j));
        lemma_after_batches_len(v, batches.take(k));
        assert(batches.take(k).take(j) == batches.take(j));
        lemma_prefix_size(batches.take(k), j);
    }
}

} // verus!
