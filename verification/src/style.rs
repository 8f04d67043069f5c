//! Syntax-highlighting styles of a line: the text and the styled ranges are
//! held in `lapce_xi_rope` structures, and the styles of a line are read
//! from them.
use lapce_xi_rope::spans::{Spans, SpansBuilder};
use lapce_xi_rope::{Interval, LinesMetric, Rope};
use vstd::prelude::*;
use vstd::utf8::encode_utf8;

verus! {

/// The text of a document, held in a rope of `lapce_xi_rope`.
#[verifier::external_body]
pub struct RopeText {
    rope: Rope,
}

/// Highlighting styles attached to ranges of a document's text, held in
/// `lapce_xi_rope` spans.
#[verifier::external_body]
pub struct StyleSpans {
    spans: Spans<Style>,
}

/// How a piece of text is drawn.
#[derive(Clone, Debug, PartialEq, Eq)]
pub struct Style {
    pub fg_color: Option<String>,
}

/// A style applied to the columns `start..end` of a line.
#[derive(Clone, Debug)]
pub struct LineStyle {
    pub start: usize,
    pub end: usize,
    pub style: Style,
}

/// A style, by the color it names.
pub open spec fn style_view(s: Style) -> Option<Seq<char>> {
    match s.fg_color {
        Some(c) => Some(c@),
        None => None,
    }
}

pub open spec fn chunk_view(c: (usize, usize, Style)) -> (usize, usize, Option<Seq<char>>) {
    (c.0, c.1, style_view(c.2))
}

pub open spec fn line_style_view(l: LineStyle) -> (usize, usize, Option<Seq<char>>) {
    (l.start, l.end, style_view(l.style))
}

/// The bytes of the text that a rope holds.
pub uninterp spec fn spec_rope_bytes(text: RopeText) -> Seq<u8>;

/// `Rope::from(text)`.
///
/// Trusted: the rope holds the UTF-8 bytes of the string.
#[verifier::external_body]
fn rope_from_string(text: String) -> (r: RopeText)
    ensures
        spec_rope_bytes(r) == encode_utf8(text@),
{
    RopeText { rope: Rope::from(text) }
}

impl RopeText {
    /// The rope of a text.
    pub fn from_text(text: String) -> (r: RopeText)
        ensures
            spec_rope_bytes(r) == encode_utf8(text@),
    {
        rope_from_string(text)
    }
}

/// The number of line feeds in `b`.
pub open spec fn newline_count(b: Seq<u8>) -> nat
    decreases b.len(),
{
    if b.len() == 0 {
        0
    } else {
        newline_count(b.drop_last()) + if b.last() == 10u8 {
            1nat
        } else {
            0nat
        }
    }
}

/// The offset at which line `line` (counted from 0) of `b` starts: just
/// after its `line`-th line feed, and the length of the text for the line
/// after the last one.
pub open spec fn line_start(b: Seq<u8>, line: nat) -> nat {
    if line == 0 {
        0
    } else if line == newline_count(b) + 1 {
        b.len()
    } else {
        choose|i: nat| i <= b.len() && b[i - 1] == 10u8 && newline_count(b.subrange(0, i as int)) == line
    }
}

/// `text.measure::<LinesMetric>()`.
///
/// Trusted: as the crate's source shows (its lines metric counts the bytes
/// `\n`), the number of line feeds in the rope's text.
#[verifier::external_body]
fn rope_newlines(text: &RopeText) -> (r: usize)
    ensures
        r == newline_count(spec_rope_bytes(*text)),
{
    text.rope.measure::<LinesMetric>()
}

/// `text.offset_of_line(line)`.
///
/// Trusted: as the crate's source shows, the start of the line, or the
/// length of the text for the line after the last; it panics beyond that,
/// which `requires` rules out.
#[verifier::external_body]
fn rope_offset_of_line(text: &RopeText, line: usize) -> (r: usize)
    requires
        line <= newline_count(spec_rope_bytes(*text)) + 1,
    ensures
        r == line_start(spec_rope_bytes(*text), line as nat),
{
    text.rope.offset_of_line(line)
}

/// The chunks that `Spans::iter_chunks` yields for `start..end`: the
/// spans of the leaves from the one holding `start`, up to `end`, each as
/// its range and the color of its style.
pub uninterp spec fn spec_span_chunks(styles: StyleSpans, start: usize, end: usize) -> Seq<
    (usize, usize, Option<Seq<char>>),
>;

/// The styled ranges that spans hold, in order, each as its range and the
/// color of its style.
pub uninterp spec fn spec_spans_contents(styles: StyleSpans) -> Seq<(usize, usize, Option<Seq<char>>)>;

/// The length of the text that spans cover.
pub uninterp spec fn spec_spans_len(styles: StyleSpans) -> usize;

/// `SpansBuilder::new(total_len)`, `add_span` for each span in order, and
/// `build`.
///
/// Trusted: as the crate's source shows, the spans cover `total_len`, and,
/// when every range is non-empty, they hold the ranges added, in order.
/// When the builder merges its last, short leaf into the one before, it
/// clips that leaf's ranges to the leaf and drops the empty ones; ranges
/// that end within `total_len` are not clipped, but an empty one may be
/// dropped, so which ranges are held when some are empty is not stated.
/// The builder also wants each range to end within `total_len`, its start
/// not after its end, and the ranges in nondecreasing order of their
/// starts; `requires` asks for all three.
#[verifier::external_body]
fn build_spans(total_len: usize, spans: Vec<(usize, usize, Style)>) -> (r: StyleSpans)
    requires
        forall|i: int| 0 <= i < spans@.len() ==> #[trigger] spans@[i].0 <= spans@[i].1 && spans@[i].1 <= total_len,
        forall|i: int, j: int| 0 <= i <= j < spans@.len() ==> #[trigger] spans@[i].0 <= #[trigger] spans@[j].0,
    ensures
        spec_spans_len(r) == total_len,
        (forall|i: int| 0 <= i < spans@.len() ==> #[trigger] spans@[i].0 < spans@[i].1) ==> spec_spans_contents(r)
            == spans@.map_values(|c: (usize, usize, Style)| chunk_view(c)),
{
    let mut builder = SpansBuilder::new(total_len);
    for (start, end, style) in spans {
        builder.add_span(Interval::new(start, end), style);
    }
    StyleSpans { spans: builder.build() }
}

impl StyleSpans {
    /// The spans of a text of `total_len` bytes, from its styled ranges in
    /// order of their starts, each within the text; when none of the ranges
    /// is empty, the spans hold exactly those ranges, in order.
    pub fn new(total_len: usize, spans: Vec<(usize, usize, Style)>) -> (r: StyleSpans)
        requires
            forall|i: int| 0 <= i < spans@.len() ==> #[trigger] spans@[i].0 <= spans@[i].1 && spans@[i].1 <= total_len,
            forall|i: int, j: int| 0 <= i <= j < spans@.len() ==> #[trigger] spans@[i].0 <= #[trigger] spans@[j].0,
        ensures
            spec_spans_len(r) == total_len,
            (forall|i: int| 0 <= i < spans@.len() ==> #[trigger] spans@[i].0 < spans@[i].1) ==> spec_spans_contents(r)
                == spans@.map_values(|c: (usize, usize, Style)| chunk_view(c)),
    {
        build_spans(total_len, spans)
    }
}

/// Whether `chunks` are consecutive elements of `all`, in their order.
pub open spec fn is_run_of<A>(chunks: Seq<A>, all: Seq<A>) -> bool {
    exists|i: int, j: int| 0 <= i <= j <= all.len() && #[trigger] all.subrange(i, j) == chunks
}

/// `styles.iter_chunks(start..end)`, collected.
///
/// Trusted: the chunks are named `spec_span_chunks` of the spans and the
/// range, and, as the crate's source shows, they are a run of consecutive
/// spans of those held: the walk starts at the first span of the leaf that
/// holds `start` and yields whole leaves, in order, until a leaf starts at
/// or after `end`. Where that run begins and ends is not stated.
#[verifier::external_body]
fn span_chunks(styles: &StyleSpans, start: usize, end: usize) -> (r: Vec<(usize, usize, Style)>)
    ensures
        r@.map_values(|c: (usize, usize, Style)| chunk_view(c)) == spec_span_chunks(*styles, start, end),
        is_run_of(r@.map_values(|c: (usize, usize, Style)| chunk_view(c)), spec_spans_contents(*styles)),
{
    let mut out = Vec::new();
    for (iv, style) in styles.spans.iter_chunks(start..end) {
        out.push((iv.start(), iv.end(), style.clone()));
    }
    out
}

/// Whether the span `start..end` touches the line `line_start..=line_end`.
pub open spec fn touches(start: usize, end: usize, line_start: usize, line_end: usize) -> bool {
    !(start > line_end || end < line_start)
}

/// The styles of a line, from the styled chunks (by offset in the text)
/// that were collected for the range `line_start..line_end` of the line:
/// the chunks that touch the line, with offsets made relative to its start
/// (a chunk that begins before the line begins at column 0).
pub open spec fn spec_line_styles(
    chunks: Seq<(usize, usize, Option<Seq<char>>)>,
    line_start: usize,
    line_end: usize,
) -> Seq<(usize, usize, Option<Seq<char>>)>
    decreases chunks.len(),
{
    if chunks.len() == 0 {
        Seq::empty()
    } else {
        let rest = spec_line_styles(chunks.drop_last(), line_start, line_end);
        let (start, end, color) = chunks.last();
        if touches(start, end, line_start, line_end) {
            rest.push(
                (
                    if start >= line_start {
                        (start - line_start) as usize
                    } else {
                        0usize
                    },
                    (end - line_start) as usize,
                    color,
                ),
            )
        } else {
            rest
        }
    }
}

/// The styles of the line `line_start..line_end`, from the chunks
/// collected over that range.
pub fn styles_in_range(chunks: Vec<(usize, usize, Style)>, line_start: usize, line_end: usize) -> (r: Vec<
    LineStyle,
>)
    ensures
        r@.map_values(|l: LineStyle| line_style_view(l)) == spec_line_styles(
            chunks@.map_values(|c: (usize, usize, Style)| chunk_view(c)),
            line_start,
            line_end,
        ),
{
    let ghost all = chunks@;
    let ghost views = all.map_values(|c: (usize, usize, Style)| chunk_view(c));
    let mut chunks = chunks;
    let mut r: Vec<LineStyle> = Vec::new();
    let ghost mut i: int = 0;
    while chunks.len() > 0
        invariant
            0 <= i <= all.len(),
            views == all.map_values(|c: (usize, usize, Style)| chunk_view(c)),
            chunks@ == all.skip(i),
            r@.map_values(|l: LineStyle| line_style_view(l)) == spec_line_styles(
                views.subrange(0, i),
                line_start,
                line_end,
            ),
        decreases chunks.len(),
    {
        let (start, end, style) = chunks.remove(0);
        assert(views.subrange(0, i + 1).drop_last() =~= views.subrange(0, i));
        assert(all[i] == (start, end, style));
        assert(views.subrange(0, i + 1).last() == chunk_view((start, end, style)));
        let ghost before = r@;
        if !(start > line_end || end < line_start) {
            let s = if start >= line_start {
                start - line_start
            } else {
                0
            };
            r.push(LineStyle { start: s, end: end - line_start, style });
            assert(r@.map_values(|l: LineStyle| line_style_view(l)) =~= before.map_values(
                |l: LineStyle| line_style_view(l),
            ).push(line_style_view(r@.last())));
        }
        proof {
            i = i + 1;
        }
        assert(chunks@ =~= all.skip(i));
    }
    assert(views.subrange(0, i) =~= views);
    r
}

/// The styles of line `line` of `text`, from the highlighting spans
/// `styles`; none for a line past the end of the text (the line numbered
/// `usize::MAX` is always past it: a text has fewer line feeds than that
/// wherever counting its lines does not overflow).
pub fn line_styles(text: &RopeText, line: usize, styles: &StyleSpans) -> (r: Vec<LineStyle>)
    ensures
        ({
            let bytes = spec_rope_bytes(*text);
            if line >= newline_count(bytes) + 1 || line == usize::MAX {
                r@.len() == 0
            } else {
                let start = line_start(bytes, line as nat) as usize;
                let end = line_start(bytes, (line + 1) as nat) as usize;
                &&& r@.map_values(|l: LineStyle| line_style_view(l)) == spec_line_styles(
                    spec_span_chunks(*styles, start, end),
                    start,
                    end,
                )
                &&& is_run_of(spec_span_chunks(*styles, start, end), spec_spans_contents(*styles))
            }
        }),
{
    let newlines = rope_newlines(text);
    if line > newlines || line == usize::MAX {
        return Vec::new();
    }
    let start_offset = rope_offset_of_line(text, line);
    let end_offset = rope_offset_of_line(text, line + 1);
    styles_in_range(span_chunks(styles, start_offset, end_offset), start_offset, end_offset)
}

} // verus!
