use vstd::prelude::*;

use crate::store::strings_view;
use crate::text::{text_from_utf8_lossy, utf8_lossy};

verus! {

pub const NEWLINE: u8 = 0x0a;

pub const TAB: u8 = 0x09;

pub const SPACE: u8 = 0x20;

/// A pending batch is sent once this long (16 ms) has passed since the last one.
pub const FLUSH_INTERVAL_NANOS: u128 = 16_000_000;

/// The number of line terminators in `bytes`.
pub open spec fn newline_count(bytes: Seq<u8>) -> nat
    decreases bytes.len(),
{
    if bytes.len() == 0 {
        0
    } else {
        newline_count(bytes.drop_last()) + if bytes.last() == NEWLINE {
            1nat
        } else {
            0nat
        }
    }
}

/// `bytes` with each tab replaced by two spaces.
pub open spec fn expand_tabs(bytes: Seq<u8>) -> Seq<u8>
    decreases bytes.len(),
{
    if bytes.len() == 0 {
        seq![]
    } else {
        expand_tabs(bytes.drop_last()) + if bytes.last() == TAB {
            seq![SPACE, SPACE]
        } else {
            seq![bytes.last()]
        }
    }
}

/// The text of a raw line once its tabs are expanded.
pub open spec fn line_text(raw: Seq<u8>) -> Seq<char> {
    utf8_lossy(expand_tabs(raw))
}

/// Completed lines waiting to be sent, and the bytes of a line not yet
/// terminated.
pub struct AssemblerView {
    pub batch: Seq<Seq<char>>,
    pub partial: Seq<u8>,
}

/// One more input byte: a terminator completes the pending line.
pub open spec fn push_byte(v: AssemblerView, b: u8) -> AssemblerView {
    let p = v.partial.push(b);
    if b == NEWLINE {
        AssemblerView { batch: v.batch.push(line_text(p)), partial: seq![] }
    } else {
        AssemblerView { batch: v.batch, partial: p }
    }
}

/// The assembler after every byte of `chunk`, in order.
pub open spec fn push_bytes(v: AssemblerView, chunk: Seq<u8>) -> AssemblerView
    decreases chunk.len(),
{
    if chunk.len() == 0 {
        v
    } else {
        push_byte(push_bytes(v, chunk.drop_last()), chunk.last())
    }
}

/// The lines still owed at the end of the input: the batch, then the
/// unterminated rest as a last line of its own when there is one.
pub open spec fn final_lines(v: AssemblerView) -> Seq<Seq<char>> {
    if v.partial.len() > 0 {
        v.batch.push(line_text(v.partial))
    } else {
        v.batch
    }
}

/// Counts the line terminators in a buffer.
pub fn count_lines(bytes: &[u8]) -> (r: usize)
    ensures
        r == newline_count(bytes@),
{
    let mut count: usize = 0;
    let mut i: usize = 0;
    while i < bytes.len()
        invariant
            i <= bytes@.len(),
            count == newline_count(bytes@.take(i as int)),
            count <= i,
        decreases bytes@.len() - i,
    {
        assert(bytes@.take(i + 1).drop_last() == bytes@.take(i as int));
        if bytes[i] == NEWLINE {
            count = count + 1;
        }
        i = i + 1;
    }
    assert(bytes@.take(i as int) == bytes@);
    count
}

/// Replaces each tab by two spaces, so that columns line up the same
/// whatever tab width the terminal uses.
pub fn expand_line_tabs(bytes: &[u8]) -> (r: Vec<u8>)
    ensures
        r@ == expand_tabs(bytes@),
{
    let mut out: Vec<u8> = Vec::new();
    let mut i: usize = 0;
    while i < bytes.len()
        invariant
            i <= bytes@.len(),
            out@ == expand_tabs(bytes@.take(i as int)),
        decreases bytes@.len() - i,
    {
        assert(bytes@.take(i + 1).drop_last() == bytes@.take(i as int));
        if bytes[i] == TAB {
            out.push(SPACE);
            out.push(SPACE);
        } else {
            out.push(bytes[i]);
        }
        i = i + 1;
        assert(out@ =~= expand_tabs(bytes@.take(i as int)));
    }
    assert(bytes@.take(i as int) == bytes@);
    out
}

/// Splits the bytes of the input into lines and holds completed lines
/// until they are sent.
pub struct LineAssembler {
    batch: Vec<String>,
    partial: Vec<u8>,
}

impl View for LineAssembler {
    type V = AssemblerView;

    closed spec fn view(&self) -> AssemblerView {
        AssemblerView { batch: strings_view(self.batch@), partial: self.partial@ }
    }
}

impl LineAssembler {
    pub fn new() -> (r: LineAssembler)
        ensures
            r@.batch == Seq::<Seq<char>>::empty(),
            r@.partial == Seq::<u8>::empty(),
    {
        let r = LineAssembler { batch: Vec::new(), partial: Vec::new() };
        assert(r@.batch =~= Seq::<Seq<char>>::empty());
        r
    }

    /// Completes the pending line with what it holds and moves it to the batch.
    fn complete_line(&mut self)
        ensures
            final(self)@ == (AssemblerView {
                batch: old(self)@.batch.push(line_text(old(self)@.partial)),
                partial: seq![],
            }),
    {
        let expanded = expand_line_tabs(self.partial.as_slice());
        let text = text_from_utf8_lossy(expanded.as_slice());
        let ghost before = self.batch@;
        self.batch.push(text);
        self.partial.clear();
        assert(strings_view(self.batch@) =~= strings_view(before).push(text@));
    }

    /// Takes in a chunk of the input: each terminator completes a line
    /// (terminator included); what follows the last one stays pending.
    pub fn push_chunk(&mut self, chunk: &[u8])
        ensures
            final(self)@ == push_bytes(old(self)@, chunk@),
    {
        let mut i: usize = 0;
        while i < chunk.len()
            invariant
                i <= chunk@.len(),
                self@ == push_bytes(old(self)@, chunk@.take(i as int)),
            decreases chunk@.len() - i,
        {
            assert(chunk@.take(i + 1).drop_last() == chunk@.take(i as int));
            let b = chunk[i];
            self.partial.push(b);
            if b == NEWLINE {
                self.complete_line();
            }
            i = i + 1;
            assert(self@ =~= push_bytes(old(self)@, chunk@.take(i as int)));
        }
        assert(chunk@.take(i as int) == chunk@);
    }

    /// At the end of the input: the last lines to send, the unterminated
    /// rest included, or `None` when nothing is left.
    pub fn end_of_input(&mut self) -> (r: Option<Vec<String>>)
        ensures
            final(self)@.batch == Seq::<Seq<char>>::empty(),
            final(self)@.partial == Seq::<u8>::empty(),
            final_lines(old(self)@).len() == 0 ==> r is None,
            final_lines(old(self)@).len() > 0 ==> (r matches Some(v) && strings_view(v@)
                == final_lines(old(self)@)),
    {
        if self.partial.len() > 0 {
            self.complete_line();
        }
        let mut out: Vec<String> = Vec::new();
        std::mem::swap(&mut out, &mut self.batch);
        assert(self@.batch =~= Seq::<Seq<char>>::empty());
        if out.len() > 0 {
            Some(out)
        } else {
            Option::None
        }
    }

    /// The batch to send now, if it is due: at least the flush interval has
    /// passed since the last one and it holds a line.
    pub fn take_due(&mut self, elapsed_nanos: u128) -> (r: Option<Vec<String>>)
        ensures
            elapsed_nanos >= FLUSH_INTERVAL_NANOS && old(self)@.batch.len() > 0 ==> {
                &&& r matches Some(v) && strings_view(v@) == old(self)@.batch
                &&& final(self)@ == (AssemblerView { batch: seq![], partial: old(self)@.partial })
            },
            !(elapsed_nanos >= FLUSH_INTERVAL_NANOS && old(self)@.batch.len() > 0) ==> {
                &&& r is None
                &&& final(self)@ == old(self)@
            },
    {
        if elapsed_nanos >= FLUSH_INTERVAL_NANOS && self.batch.len() > 0 {
            let mut out: Vec<String> = Vec::new();
            std::mem::swap(&mut out, &mut self.batch);
            assert(self@.batch =~= Seq::<Seq<char>>::empty());
            Some(out)
        } else {
            Option::None
        }
    }
}

/// How long the reader may wait for input before the pending batch falls
/// due: what is left of the flush interval, or zero.
pub fn poll_timeout_nanos(elapsed_nanos: u128) -> (r: u128)
    ensures
        r == (if elapsed_nanos < FLUSH_INTERVAL_NANOS {
            FLUSH_INTERVAL_NANOS - elapsed_nanos
        } else {
            0
        }),
{
    FLUSH_INTERVAL_NANOS.saturating_sub(elapsed_nanos)
}

} // verus!
