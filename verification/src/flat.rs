//! Drawing a line as one string for a terminal: the spans side by side, cut
//! to the columns that are there, with the escape sequences that colour the
//! emphasised characters and fill the background of the selected line.

use crate::line::{Coloring, ColoringView, Line, LineView, Span, SpanView, Table};
use crate::text::{decimal, push_decimal, spaces};
use crate::ui::{colored_text, Colors, Palette, PaletteColor};
use crate::width::{fitting, fitting_len, lemma_fitting_len_bound, text_width, truncate_to_width};
use vstd::prelude::*;
use vstd::std_specs::iter::IteratorSpec;
use vstd::string::{StrSliceExecFns, StringExecFns};

verus! {

/// Whether the character at offset `k` of a span is emphasised.
pub open spec fn is_colored(coloring: ColoringView, k: int) -> bool {
    match coloring {
        ColoringView::Plain => false,
        ColoringView::All { .. } => true,
        ColoringView::Until { end, .. } => k < end,
        ColoringView::Indices { indices, .. } => holds(indices, k),
    }
}

/// Whether `k` is one of the offsets.
pub open spec fn holds(indices: Seq<usize>, k: int) -> bool {
    exists|j: int| 0 <= j < indices.len() && #[trigger] indices[j] == k
}

/// The emphasis level of a colouring; a plain one has none and counts as 0.
pub open spec fn level_of(coloring: ColoringView) -> usize {
    match coloring {
        ColoringView::Plain => 0,
        ColoringView::All { level } => level,
        ColoringView::Until { level, .. } => level,
        ColoringView::Indices { level, .. } => level,
    }
}

/// The palette's colour for an emphasis level: orange, cyan, green and
/// magenta for the levels 0 to 3, red for every other.
pub open spec fn emphasis(palette: Palette, level: usize) -> PaletteColor {
    if level == 0 {
        palette.orange
    } else if level == 1 {
        palette.cyan
    } else if level == 2 {
        palette.green
    } else if level == 3 {
        palette.magenta
    } else {
        palette.red
    }
}

/// One character as it is written: in the emphasis colour if it is
/// emphasised, else as it is.
pub open spec fn styled_char(c: char, coloring: ColoringView, k: int, palette: Palette) -> Seq<char> {
    if is_colored(coloring, k) {
        colored_text(emphasis(palette, level_of(coloring)), seq![c])
    } else {
        seq![c]
    }
}

/// A text as it is written, character by character.
pub open spec fn styled(text: Seq<char>, coloring: ColoringView, palette: Palette) -> Seq<char>
    decreases text.len(),
{
    if text.len() == 0 {
        Seq::empty()
    } else {
        styled(text.drop_last(), coloring, palette) + styled_char(
            text.last(),
            coloring,
            text.len() - 1,
            palette,
        )
    }
}

/// The columns that are left after a text has been given `budget` columns:
/// what it did not need if it fitted, and none if it had to be cut.
pub open spec fn left_after(text: Seq<char>, budget: nat) -> nat {
    if fitting_len(text, budget) == text.len() {
        (budget - text_width(fitting(text, budget))) as nat
    } else {
        0
    }
}

/// The spans of a line as they are written into `budget` columns, from left
/// to right: each span gets the columns that the spans before it left.
pub open spec fn flat_spans(spans: Seq<SpanView>, budget: nat, palette: Palette) -> Seq<char>
    decreases spans.len(),
{
    if spans.len() == 0 {
        Seq::empty()
    } else {
        styled(fitting(spans[0].text, budget), spans[0].coloring, palette) + flat_spans(
            spans.drop_first(),
            left_after(spans[0].text, budget),
            palette,
        )
    }
}

/// The columns that the spans of a line leave of `budget` columns.
pub open spec fn budget_after(spans: Seq<SpanView>, budget: nat) -> nat
    decreases spans.len(),
{
    if spans.len() == 0 {
        budget
    } else {
        budget_after(spans.drop_first(), left_after(spans[0].text, budget))
    }
}

/// The sequence that selects a background colour.
pub open spec fn background_start(color: PaletteColor) -> Seq<char> {
    match color {
        PaletteColor::EightBit(byte) => "\u{1b}[48;5;"@ + decimal(byte as nat) + "m"@,
        PaletteColor::Rgb((r, g, b)) => "\u{1b}[48;2;"@ + decimal(r as nat) + ";"@ + decimal(
            g as nat,
        ) + ";"@ + decimal(b as nat) + "m"@,
    }
}

/// A line as it is written into `columns` columns. A line that is not
/// selected is its spans. The selected line starts with the arrows, is
/// filled up with spaces to the full width, and stands between the sequence
/// that selects the palette's background colour and the one that goes back
/// to the default background.
pub open spec fn flat_line(
    line: LineView,
    arrows: Seq<char>,
    columns: nat,
    palette: Palette,
) -> Seq<char> {
    if line.selected {
        let budget = left_after(arrows, columns);
        background_start(palette.bg) + fitting(arrows, columns) + flat_spans(
            line.spans,
            budget,
            palette,
        ) + spaces(budget_after(line.spans, budget)) + "\u{1b}[49m"@
    } else {
        flat_spans(line.spans, columns, palette)
    }
}

/// Whether `k` is one of the offsets.
fn holds_offset(indices: &Vec<usize>, k: usize) -> (r: bool)
    ensures
        r == holds(indices@, k as int),
{
    let mut j: usize = 0;
    while j < indices.len()
        invariant
            j <= indices.len(),
            forall|i: int| 0 <= i < j ==> indices@[i] != k,
        decreases indices.len() - j,
    {
        if indices[j] == k {
            return true;
        }
        j += 1;
    }
    false
}

impl Coloring {
    /// Whether the character at offset `k` is emphasised.
    pub fn colors_offset(&self, k: usize) -> (r: bool)
        ensures
            r == is_colored(self@, k as int),
    {
        match self {
            Coloring::Plain => false,
            Coloring::All { .. } => true,
            Coloring::Until { end, .. } => k < *end,
            Coloring::Indices { indices, .. } => holds_offset(indices, k),
        }
    }

    /// The emphasis level; 0 for a plain colouring.
    pub fn level(&self) -> (level: usize)
        ensures
            level == level_of(self@),
    {
        match self {
            Coloring::Plain => 0,
            Coloring::All { level } => *level,
            Coloring::Until { level, .. } => *level,
            Coloring::Indices { level, .. } => *level,
        }
    }
}

/// The palette's colour for an emphasis level.
pub fn emphasis_color(palette: &Palette, level: usize) -> (color: PaletteColor)
    ensures
        color == emphasis(*palette, level),
{
    if level == 0 {
        palette.orange
    } else if level == 1 {
        palette.cyan
    } else if level == 2 {
        palette.green
    } else if level == 3 {
        palette.magenta
    } else {
        palette.red
    }
}

/// Appends a text as it is written, with its emphasised characters in
/// colour.
pub fn push_styled(out: &mut String, text: &str, coloring: &Coloring, colors: &Colors)
    ensures
        final(out)@ == old(out)@ + styled(text@, coloring@, colors.palette),
{
    broadcast use vstd::string::group_string_axioms;

    let len = text.unicode_len();
    let color = emphasis_color(&colors.palette, coloring.level());
    let mut chars = text.chars();
    let mut k: usize = 0;
    proof {
        assert(text@.take(0) =~= Seq::<char>::empty());
        assert(text@.skip(0) =~= text@);
        assert(out@ + Seq::<char>::empty() =~= out@);
    }
    loop
        invariant_except_break
            k <= len == text@.len(),
            chars.remaining() == text@.skip(k as int),
            out@ == old(out)@ + styled(text@.take(k as int), coloring@, colors.palette),
            color == emphasis(colors.palette, level_of(coloring@)),
            chars.obeys_prophetic_iter_laws(),
            chars.decrease() is Some,
        ensures
            out@ == old(out)@ + styled(text@, coloring@, colors.palette),
        decreases chars.decrease()->0,
    {
        let ghost before = out@;
        match chars.next() {
            None => {
                assert(text@.take(k as int) =~= text@);
                break ;
            },
            Some(c) => {
                assert(text@.skip(k as int)[0] == c);
                if coloring.colors_offset(k) {
                    let mut one = String::new();
                    one.push(c);
                    assert(one@ =~= seq![c]);
                    let piece = colors.color(&color, one.as_str());
                    out.append(piece.as_str());
                } else {
                    out.push(c);
                    assert(out@ =~= before + seq![c]);
                }
                proof {
                    let shown = text@.take(k + 1);
                    assert(shown.drop_last() =~= text@.take(k as int));
                    assert(shown.last() == c);
                    assert(text@.skip(k as int).drop_first() =~= text@.skip(k + 1));
                    assert(out@ =~= old(out)@ + styled(shown, coloring@, colors.palette));
                }
                k += 1;
            },
        }
    }
}

impl Span {
    /// The part of the span's text that fits into `remaining_width` columns,
    /// and the columns it takes.
    pub fn render(&self, remaining_width: usize) -> (out: (String, usize))
        ensures
            out.0@ == fitting(self@.text, remaining_width as nat),
            out.1 == text_width(out.0@),
            out.1 <= remaining_width,
    {
        truncate_to_width(self.text.as_str(), remaining_width)
    }
}

/// Appends the part of a text that fits into `budget` columns, as it is
/// written. Returns the columns that are left for what follows.
fn push_fitting(
    out: &mut String,
    text: &str,
    coloring: &Coloring,
    budget: usize,
    colors: &Colors,
) -> (left: usize)
    ensures
        final(out)@ == old(out)@ + styled(fitting(text@, budget as nat), coloring@, colors.palette),
        left == left_after(text@, budget as nat),
        left <= budget,
{
    let (shown, used) = truncate_to_width(text, budget);
    proof {
        lemma_fitting_len_bound(text@, budget as nat);
    }
    push_styled(out, shown.as_str(), coloring, colors);
    if shown.as_str().unicode_len() == text.unicode_len() {
        budget - used
    } else {
        0
    }
}

/// Appends the sequence that selects a background colour.
fn push_background_start(out: &mut String, color: &PaletteColor)
    ensures
        final(out)@ == old(out)@ + background_start(*color),
{
    match color {
        PaletteColor::EightBit(byte) => {
            out.append("\u{1b}[48;5;");
            push_decimal(out, *byte as usize);
            out.append("m");
        },
        PaletteColor::Rgb((r, g, b)) => {
            out.append("\u{1b}[48;2;");
            push_decimal(out, *r as usize);
            out.append(";");
            push_decimal(out, *g as usize);
            out.append(";");
            push_decimal(out, *b as usize);
            out.append("m");
        },
    }
    assert(out@ =~= old(out)@ + background_start(*color));
}

impl Line {
    /// Draws the line as one string of at most `columns` columns of text.
    /// `arrows` is what the selected line starts with.
    pub fn render_flat(&self, colors: &Colors, columns: usize, arrows: &str) -> (out: String)
        ensures
            out@ == flat_line(self@, arrows@, columns as nat, colors.palette),
    {
        let mut out = String::new();
        let plain = Coloring::Plain;
        let mut budget = columns;
        if self.selected {
            push_background_start(&mut out, &colors.palette.bg);
            budget = push_fitting(&mut out, arrows, &plain, budget, colors);
            proof {
                lemma_styled_plain(fitting(arrows@, columns as nat), colors.palette);
            }
        }
        let ghost lead = out@;
        let ghost first_budget = budget as nat;
        let ghost spans = self@.spans;
        let mut i: usize = 0;
        proof {
            assert(spans.skip(0) =~= spans);
            assert(out@ + flat_spans(spans, first_budget, colors.palette) =~= lead + flat_spans(
                spans,
                first_budget,
                colors.palette,
            ));
        }
        while i < self.spans.len()
            invariant
                i <= self.spans.len(),
                spans == self@.spans,
                out@ + flat_spans(spans.skip(i as int), budget as nat, colors.palette) == lead
                    + flat_spans(spans, first_budget, colors.palette),
                budget_after(spans.skip(i as int), budget as nat) == budget_after(
                    spans,
                    first_budget,
                ),
            decreases self.spans.len() - i,
        {
            let span = &self.spans[i];
            let ghost before = out@;
            let ghost rest = spans.skip(i as int);
            let ghost budget_before = budget as nat;
            proof {
                assert(rest[0] == span@);
                assert(rest.drop_first() =~= spans.skip(i + 1));
            }
            budget = push_fitting(&mut out, span.text.as_str(), &span.coloring, budget, colors);
            proof {
                let piece = styled(fitting(span@.text, budget_before), span@.coloring, colors.palette);
                assert(flat_spans(rest, budget_before, colors.palette) == piece + flat_spans(
                    spans.skip(i + 1),
                    budget as nat,
                    colors.palette,
                ));
                assert((before + piece) + flat_spans(spans.skip(i + 1), budget as nat, colors.palette)
                    =~= before + (piece + flat_spans(
                    spans.skip(i + 1),
                    budget as nat,
                    colors.palette,
                )));
            }
            i += 1;
        }
        proof {
            assert(spans.skip(i as int) =~= Seq::<SpanView>::empty());
            assert(out@ + Seq::<char>::empty() =~= out@);
        }
        if self.selected {
            let ghost drawn = out@;
            let mut filled: usize = 0;
            while filled < budget
                invariant
                    filled <= budget,
                    out@ == drawn + spaces(filled as nat),
                decreases budget - filled,
            {
                out.push(' ');
                filled += 1;
                assert(out@ =~= drawn + spaces(filled as nat));
            }
            out.append("\u{1b}[49m");
            assert(out@ =~= flat_line(self@, arrows@, columns as nat, colors.palette));
        }
        out
    }
}

impl Table {
    /// Draws the table as strings, one for each line from top to bottom.
    pub fn render_flat(&self, colors: &Colors, columns: usize, arrows: &str) -> (out: Vec<String>)
        ensures
            out.len() == self@.len(),
            forall|i: int|
                0 <= i < out.len() ==> (#[trigger] out[i])@ == flat_line(
                    self@[i],
                    arrows@,
                    columns as nat,
                    colors.palette,
                ),
    {
        let mut out: Vec<String> = Vec::new();
        let mut i: usize = 0;
        while i < self.lines.len()
            invariant
                i <= self.lines.len(),
                out.len() == i,
                forall|j: int|
                    0 <= j < i ==> (#[trigger] out[j])@ == flat_line(
                        self@[j],
                        arrows@,
                        columns as nat,
                        colors.palette,
                    ),
            decreases self.lines.len() - i,
        {
            let line = self.lines[i].render_flat(colors, columns, arrows);
            out.push(line);
            i += 1;
        }
        out
    }
}

/// A text without emphasis is written as it is.
pub proof fn lemma_styled_plain(text: Seq<char>, palette: Palette)
    ensures
        styled(text, ColoringView::Plain, palette) == text,
    decreases text.len(),
{
    if text.len() > 0 {
        lemma_styled_plain(text.drop_last(), palette);
        assert(text.drop_last() + seq![text.last()] =~= text);
    }
}

} // verus!
