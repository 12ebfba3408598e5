use vstd::prelude::*;
use vstd::utf8::{decode_utf8, valid_utf8};

use crate::text::{text_from_utf8_lossy, utf8_lossy};

verus! {

pub const BACKSPACE: u8 = 0x08;

pub const UNDERSCORE: u8 = 0x5f;

/// The style that an overstrike pattern gives a character.
#[derive(Clone, Copy, Debug, PartialEq, Eq, Structural)]
pub enum SpanStyle {
    Plain,
    Bold,
    Underline,
}

/// A maximal run of bytes that share one style.
#[derive(Debug, PartialEq, Eq)]
pub struct ByteRun {
    pub bytes: Vec<u8>,
    pub style: SpanStyle,
}

/// A maximal run of text that shares one style.
#[derive(Debug, PartialEq, Eq)]
pub struct StyledSpan {
    pub text: String,
    pub style: SpanStyle,
}

/// The recognizer's state between two bytes.
#[derive(Clone, Copy, Debug, PartialEq, Eq, Structural)]
pub enum DecodeState {
    Idle,
    SawChar(u8),
    SawCharBack(u8),
}

/// One byte of input: the next state and the styled bytes it emits.
pub open spec fn step(state: DecodeState, b: u8) -> (DecodeState, Seq<(u8, SpanStyle)>) {
    match state {
        DecodeState::Idle => (DecodeState::SawChar(b), seq![]),
        DecodeState::SawChar(prev) => if b == BACKSPACE {
            (DecodeState::SawCharBack(prev), seq![])
        } else {
            (DecodeState::SawChar(b), seq![(prev, SpanStyle::Plain)])
        },
        DecodeState::SawCharBack(prev) => if b == prev {
            (DecodeState::Idle, seq![(b, SpanStyle::Bold)])
        } else if prev == UNDERSCORE {
            (DecodeState::Idle, seq![(b, SpanStyle::Underline)])
        } else {
            (DecodeState::Idle, seq![(prev, SpanStyle::Plain), (b, SpanStyle::Plain)])
        },
    }
}

/// The state after `input` and the styled bytes emitted on the way.
pub open spec fn run(input: Seq<u8>) -> (DecodeState, Seq<(u8, SpanStyle)>)
    decreases input.len(),
{
    if input.len() == 0 {
        (DecodeState::Idle, seq![])
    } else {
        let (state, out) = run(input.drop_last());
        let (next, more) = step(state, input.last());
        (next, out + more)
    }
}

/// What is still pending at the end of the input: a lone character is
/// plain text, a character followed by a backspace is dropped.
pub open spec fn flush(state: DecodeState) -> Seq<(u8, SpanStyle)> {
    match state {
        DecodeState::SawChar(c) => seq![(c, SpanStyle::Plain)],
        _ => seq![],
    }
}

/// Every byte that `input` shows, with its style, in order.
pub open spec fn styled_bytes(input: Seq<u8>) -> Seq<(u8, SpanStyle)> {
    let (state, out) = run(input);
    out + flush(state)
}

/// Adjacent styled bytes of equal style merged into runs.
pub open spec fn coalesce(cs: Seq<(u8, SpanStyle)>) -> Seq<(Seq<u8>, SpanStyle)>
    decreases cs.len(),
{
    if cs.len() == 0 {
        seq![]
    } else {
        let prev = coalesce(cs.drop_last());
        let (b, style) = cs.last();
        if prev.len() > 0 && prev.last().1 == style {
            prev.update(prev.len() - 1, (prev.last().0.push(b), style))
        } else {
            prev.push((seq![b], style))
        }
    }
}

/// The styled runs that an overstrike-formatted line decodes to.
pub open spec fn decode_runs(input: Seq<u8>) -> Seq<(Seq<u8>, SpanStyle)> {
    coalesce(styled_bytes(input))
}

proof fn lemma_coalesce_maximal(cs: Seq<(u8, SpanStyle)>)
    ensures
        forall|i: int| 0 <= i < coalesce(cs).len() ==> (#[trigger] coalesce(cs)[i]).0.len() > 0,
        forall|i: int|
            0 <= i < coalesce(cs).len() - 1 ==> (#[trigger] coalesce(cs)[i]).1 != coalesce(cs)[i
                + 1].1,
    decreases cs.len(),
{
    if cs.len() > 0 {
        let prev = coalesce(cs.drop_last());
        lemma_coalesce_maximal(cs.drop_last());
        let (b, style) = cs.last();
        let cur = coalesce(cs);
        if prev.len() > 0 && prev.last().1 == style {
            assert forall|i: int| 0 <= i < cur.len() implies (#[trigger] cur[i]).0.len() > 0 by {
                if i < prev.len() - 1 {
                    assert(cur[i] == prev[i]);
                }
            }
            assert forall|i: int| 0 <= i < cur.len() - 1 implies (#[trigger] cur[i]).1 != cur[i
                + 1].1 by {
                assert(cur[i] == prev[i]);
                assert(cur[i + 1].1 == prev[i + 1].1);
            }
        } else {
            assert forall|i: int| 0 <= i < cur.len() implies (#[trigger] cur[i]).0.len() > 0 by {
                if i < prev.len() {
                    assert(cur[i] == prev[i]);
                }
            }
            assert forall|i: int| 0 <= i < cur.len() - 1 implies (#[trigger] cur[i]).1 != cur[i
                + 1].1 by {
                assert(cur[i] == prev[i]);
                if i + 1 < prev.len() {
                    assert(cur[i + 1] == prev[i + 1]);
                }
            }
        }
    }
}

/// Decoded runs are never empty, and two neighbouring runs differ in style:
/// equal styles are always merged.
pub proof fn lemma_runs_are_maximal(input: Seq<u8>)
    ensures
        forall|i: int|
            0 <= i < decode_runs(input).len() ==> (#[trigger] decode_runs(input)[i]).0.len() > 0,
        forall|i: int|
            0 <= i < decode_runs(input).len() - 1 ==> (#[trigger] decode_runs(input)[i]).1
                != decode_runs(input)[i + 1].1,
{
    lemma_coalesce_maximal(styled_bytes(input));
}

/// The runs as byte sequences with their styles.
pub open spec fn runs_view(rs: Seq<ByteRun>) -> Seq<(Seq<u8>, SpanStyle)> {
    Seq::new(rs.len(), |i: int| (rs[i].bytes@, rs[i].style))
}

/// The runs already closed, then the open one (`text`, `style`), make up `runs`.
spec fn pending_matches(
    closed: Seq<ByteRun>,
    text: Seq<u8>,
    style: SpanStyle,
    runs: Seq<(Seq<u8>, SpanStyle)>,
) -> bool {
    if runs.len() == 0 {
        closed.len() == 0 && text.len() == 0
    } else {
        &&& text.len() > 0
        &&& runs_view(closed) == runs.drop_last()
        &&& runs.last() == (text, style)
    }
}

/// Appends one styled byte: closes the open run when the style changes.
fn emit(
    closed: &mut Vec<ByteRun>,
    text: &mut Vec<u8>,
    style: &mut SpanStyle,
    b: u8,
    new_style: SpanStyle,
    Ghost(cs): Ghost<Seq<(u8, SpanStyle)>>,
)
    requires
        pending_matches(old(closed)@, old(text)@, *old(style), coalesce(cs)),
    ensures
        pending_matches(final(closed)@, final(text)@, *final(style), coalesce(cs.push((b, new_style)))),
{
    let ghost runs = coalesce(cs);
    let ghost cs2 = cs.push((b, new_style));
    assert(cs2.drop_last() == cs);
    assert(cs2.last() == (b, new_style));
    if text.len() > 0 && *style != new_style {
        let mut done: Vec<u8> = Vec::new();
        std::mem::swap(&mut done, text);
        let ghost before = closed@;
        closed.push(ByteRun { bytes: done, style: *style });
        assert(runs == runs.drop_last().push(runs.last()));
        assert(runs_view(closed@) =~= runs_view(before).push((done@, *style)));
        assert(runs_view(closed@) =~= runs);
        assert(coalesce(cs2) == runs.push((seq![b], new_style)));
        *style = new_style;
        text.push(b);
        assert(text@ =~= seq![b]);
        assert(coalesce(cs2).drop_last() =~= runs);
    } else if text.len() > 0 {
        assert(coalesce(cs2) == runs.update(runs.len() - 1, (runs.last().0.push(b), new_style)));
        *style = new_style;
        text.push(b);
        assert(coalesce(cs2).drop_last() =~= runs.drop_last());
    } else {
        assert(coalesce(cs2) == runs.push((seq![b], new_style)));
        *style = new_style;
        text.push(b);
        assert(text@ =~= seq![b]);
        assert(coalesce(cs2).drop_last() =~= runs);
        assert(runs_view(closed@) =~= runs);
    }
}

/// Decodes backspace overstrike: `c\bc` is bold `c`, `_\bc` is underlined
/// `c`, any other byte after a backspace gives both bytes as plain text.
/// Adjacent bytes of one style form one run.
pub fn decode_overstrike(input: &[u8]) -> (r: Vec<ByteRun>)
    ensures
        runs_view(r@) == decode_runs(input@),
{
    let mut closed: Vec<ByteRun> = Vec::new();
    let mut text: Vec<u8> = Vec::new();
    let mut style = SpanStyle::Plain;
    let mut state = DecodeState::Idle;
    let ghost mut out: Seq<(u8, SpanStyle)> = seq![];
    let mut i: usize = 0;
    while i < input.len()
        invariant
            i <= input@.len(),
            run(input@.take(i as int)) == (state, out),
            pending_matches(closed@, text@, style, coalesce(out)),
        decreases input@.len() - i,
    {
        let b = input[i];
        let ghost prefix = input@.take(i as int);
        assert(input@.take(i + 1).drop_last() == prefix);
        match state {
            DecodeState::Idle => {
                state = DecodeState::SawChar(b);
            },
            DecodeState::SawChar(prev) => {
                if b == BACKSPACE {
                    state = DecodeState::SawCharBack(prev);
                } else {
                    emit(&mut closed, &mut text, &mut style, prev, SpanStyle::Plain, Ghost(out));
                    proof {
                        out = out.push((prev, SpanStyle::Plain));
                    }
                    state = DecodeState::SawChar(b);
                }
            },
            DecodeState::SawCharBack(prev) => {
                if b == prev {
                    emit(&mut closed, &mut text, &mut style, b, SpanStyle::Bold, Ghost(out));
                    proof {
                        out = out.push((b, SpanStyle::Bold));
                    }
                } else if prev == UNDERSCORE {
                    emit(&mut closed, &mut text, &mut style, b, SpanStyle::Underline, Ghost(out));
                    proof {
                        out = out.push((b, SpanStyle::Underline));
                    }
                } else {
                    emit(&mut closed, &mut text, &mut style, prev, SpanStyle::Plain, Ghost(out));
                    proof {
                        out = out.push((prev, SpanStyle::Plain));
                    }
                    emit(&mut closed, &mut text, &mut style, b, SpanStyle::Plain, Ghost(out));
                    proof {
                        out = out.push((b, SpanStyle::Plain));
                    }
                }
                state = DecodeState::Idle;
            },
        }
        i = i + 1;
    }
    assert(input@.take(input@.len() as int) == input@);
    if let DecodeState::SawChar(c) = state {
        emit(&mut closed, &mut text, &mut style, c, SpanStyle::Plain, Ghost(out));
        proof {
            out = out.push((c, SpanStyle::Plain));
        }
    }
    assert(out == styled_bytes(input@));
    if text.len() > 0 {
        let ghost before = closed@;
        let ghost runs = decode_runs(input@);
        closed.push(ByteRun { bytes: text, style });
        assert(runs == runs.drop_last().push(runs.last()));
        assert(runs_view(closed@) =~= runs_view(before).push((text@, style)));
        assert(runs_view(closed@) =~= decode_runs(input@));
    }
    closed
}

/// Each span carries the text of the matching run, in the run's style.
pub open spec fn spans_match(spans: Seq<StyledSpan>, runs: Seq<(Seq<u8>, SpanStyle)>) -> bool {
    &&& spans.len() == runs.len()
    &&& forall|i: int|
        0 <= i < runs.len() ==> {
            &&& (#[trigger] spans[i]).style == runs[i].1
            &&& spans[i].text@ == utf8_lossy(runs[i].0)
        }
}

/// Decodes an overstrike-formatted line into styled spans of text; bytes
/// that are not valid UTF-8 show as U+FFFD.
pub fn parse_styled_spans(input: Vec<u8>) -> (r: Vec<StyledSpan>)
    ensures
        spans_match(r@, decode_runs(input@)),
        forall|i: int|
            0 <= i < r@.len() && valid_utf8(#[trigger] decode_runs(input@)[i].0) ==> r@[i].text@
                == decode_utf8(decode_runs(input@)[i].0),
{
    let runs = decode_overstrike(input.as_slice());
    let ghost rv = decode_runs(input@);
    let mut spans: Vec<StyledSpan> = Vec::new();
    let mut i: usize = 0;
    while i < runs.len()
        invariant
            i <= runs@.len(),
            runs_view(runs@) == rv,
            rv == decode_runs(input@),
            spans_match(spans@, rv.take(i as int)),
            forall|k: int|
                0 <= k < i && valid_utf8(#[trigger] rv[k].0) ==> spans@[k].text@ == decode_utf8(
                    rv[k].0,
                ),
        decreases runs@.len() - i,
    {
        let text = text_from_utf8_lossy(runs[i].bytes.as_slice());
        spans.push(StyledSpan { text, style: runs[i].style });
        assert(rv[i as int] == (runs@[i as int].bytes@, runs@[i as int].style));
        i = i + 1;
        assert(spans_match(spans@, rv.take(i as int)));
    }
    assert(rv.take(i as int) =~= rv);
    spans
}

} // verus!
