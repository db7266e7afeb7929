//! What the picker draws: spans of text with their colouring, lines made of
//! spans, and the table and frame that a list is drawn into. These are plain
//! descriptions; writing them to the terminal is the caller's business.

use crate::text::{decimal, padded, push_decimal};
use vstd::prelude::*;
use vstd::string::StringExecFns;

verus! {

/// Which characters of a span are drawn in an emphasis colour. A level names
/// one of the emphasis colours of the host's theme.
#[derive(Debug, PartialEq, Eq)]
pub enum Coloring {
    /// No character.
    Plain,
    /// Every character.
    All { level: usize },
    /// The characters at the offsets below `end`.
    Until { level: usize, end: usize },
    /// The characters at the given offsets.
    Indices { level: usize, indices: Vec<usize> },
}

/// The mathematical value of a [`Coloring`].
pub ghost enum ColoringView {
    Plain,
    All { level: usize },
    Until { level: usize, end: usize },
    Indices { level: usize, indices: Seq<usize> },
}

impl View for Coloring {
    type V = ColoringView;

    open spec fn view(&self) -> ColoringView {
        match *self {
            Coloring::Plain => ColoringView::Plain,
            Coloring::All { level } => ColoringView::All { level },
            Coloring::Until { level, end } => ColoringView::Until { level, end },
            Coloring::Indices { level, indices } => ColoringView::Indices { level, indices: indices@ },
        }
    }
}

/// A piece of text with its colouring: one cell of a table row.
#[derive(Debug, PartialEq, Eq)]
pub struct Span {
    pub text: String,
    pub coloring: Coloring,
}

/// The mathematical value of a [`Span`].
pub ghost struct SpanView {
    pub text: Seq<char>,
    pub coloring: ColoringView,
}

impl View for Span {
    type V = SpanView;

    open spec fn view(&self) -> SpanView {
        SpanView { text: self.text@, coloring: self.coloring@ }
    }
}

/// The values of a sequence of spans.
pub open spec fn span_views(spans: Seq<Span>) -> Seq<SpanView> {
    spans.map_values(|s: Span| s@)
}

/// One line of the list: its spans from left to right, and whether it is the
/// selected line, which is drawn on a filled background.
#[derive(Debug, PartialEq, Eq)]
pub struct Line {
    pub spans: Vec<Span>,
    pub selected: bool,
}

/// The mathematical value of a [`Line`].
pub ghost struct LineView {
    pub spans: Seq<SpanView>,
    pub selected: bool,
}

impl View for Line {
    type V = LineView;

    open spec fn view(&self) -> LineView {
        LineView { spans: span_views(self.spans@), selected: self.selected }
    }
}

/// The values of a sequence of lines.
pub open spec fn line_views(lines: Seq<Line>) -> Seq<LineView> {
    lines.map_values(|l: Line| l@)
}

/// A table: a title line and the lines of the entries on display.
#[derive(Debug, PartialEq, Eq)]
pub struct Table {
    pub lines: Vec<Line>,
}

impl View for Table {
    type V = Seq<LineView>;

    open spec fn view(&self) -> Seq<LineView> {
        line_views(self.lines@)
    }
}

/// Everything one drawing of the picker consists of: the search line and the
/// table, each with the place where it goes.
#[derive(Debug, PartialEq, Eq)]
pub struct Frame {
    pub search_indication: Span,
    pub search_x: usize,
    pub search_y: usize,
    pub table: Table,
    pub table_x: usize,
    pub table_y: usize,
    pub table_columns: usize,
    pub table_rows: usize,
}

/// The mathematical value of a [`Frame`].
pub ghost struct FrameView {
    pub search_indication: SpanView,
    pub search_x: usize,
    pub search_y: usize,
    pub table: Seq<LineView>,
    pub table_x: usize,
    pub table_y: usize,
    pub table_columns: usize,
    pub table_rows: usize,
}

impl View for Frame {
    type V = FrameView;

    open spec fn view(&self) -> FrameView {
        FrameView {
            search_indication: self.search_indication@,
            search_x: self.search_x,
            search_y: self.search_y,
            table: self.table@,
            table_x: self.table_x,
            table_y: self.table_y,
            table_columns: self.table_columns,
            table_rows: self.table_rows,
        }
    }
}

/// The width to which tab names are filled up.
pub const NAME_WIDTH: usize = 30;

/// The span that marks the tab which is focused in the host.
pub open spec fn tab_info_span(is_current_tab: bool) -> SpanView {
    SpanView {
        text: if is_current_tab {
            "\u{2588}"@
        } else {
            " "@
        },
        coloring: ColoringView::All { level: 0 },
    }
}

/// The span of a tab's name, with the matched characters coloured when the
/// line is a search result.
pub open spec fn tab_name_span(tab_name: Seq<char>, indices: Option<Seq<usize>>) -> SpanView {
    SpanView {
        text: padded(tab_name, NAME_WIDTH as nat),
        coloring: match indices {
            Some(indices) => ColoringView::Indices { level: 2, indices },
            None => ColoringView::Plain,
        },
    }
}

/// The text that tells how many entries are hidden beyond a boundary line.
pub open spec fn more_text(hidden: nat) -> Seq<char> {
    "+ "@ + decimal(hidden) + " more"@
}

/// The last span of the line of entry `i` when the entries from `first` up
/// to `last` of `results_len` are on display: the key hint on the selected
/// line; else on the first line the number of entries hidden above it and on
/// the last line the number hidden below it; else a blank.
pub open spec fn more_indication(
    i: int,
    first: int,
    last: int,
    results_len: int,
    is_selected: bool,
) -> SpanView {
    if is_selected {
        SpanView {
            text: "<Enter> - Focus on Tab"@,
            coloring: ColoringView::Until { level: 2, end: 7 },
        }
    } else if i == first && i > 0 {
        SpanView { text: more_text(first as nat), coloring: ColoringView::All { level: 0 } }
    } else if i == (if last > 0 {
        last - 1
    } else {
        0
    }) && last < results_len {
        SpanView {
            text: more_text((results_len - last) as nat),
            coloring: ColoringView::All { level: 0 },
        }
    } else {
        SpanView { text: " "@, coloring: ColoringView::Plain }
    }
}

/// The line above the entries, which the table keeps for its title.
pub open spec fn title_line() -> LineView {
    LineView {
        spans: seq![
            SpanView { text: " "@, coloring: ColoringView::Plain },
            SpanView { text: " "@, coloring: ColoringView::Plain },
            SpanView { text: " "@, coloring: ColoringView::Plain },
        ],
        selected: false,
    }
}

/// The search line: the term after its label, with a cursor mark at the end
/// and the label coloured.
pub open spec fn search_indication_span(search_term: Seq<char>) -> SpanView {
    SpanView {
        text: "Search: "@ + search_term + "_"@,
        coloring: ColoringView::Until { level: 2, end: 7 },
    }
}

/// A span without colouring.
pub fn plain_span(text: &str) -> (span: Span)
    ensures
        span@ == (SpanView { text: text@, coloring: ColoringView::Plain }),
{
    Span { text: String::from_str(text), coloring: Coloring::Plain }
}

/// Builds the text that tells how many entries are hidden.
pub fn render_more_text(hidden: usize) -> (text: String)
    ensures
        text@ == more_text(hidden as nat),
{
    let mut text = String::from_str("+ ");
    push_decimal(&mut text, hidden);
    text.append(" more");
    text
}

/// Builds the line that the table keeps for its title.
pub fn render_title_line() -> (line: Line)
    ensures
        line@ == title_line(),
{
    let mut spans: Vec<Span> = Vec::new();
    spans.push(plain_span(" "));
    spans.push(plain_span(" "));
    spans.push(plain_span(" "));
    let line = Line { spans, selected: false };
    assert(line@.spans =~= title_line().spans);
    line
}

/// Builds the search line for a search term.
pub fn render_search_indication(search_term: &str) -> (span: Span)
    ensures
        span@ == search_indication_span(search_term@),
{
    let mut text = String::from_str("Search: ");
    text.append(search_term);
    text.append("_");
    Span { text, coloring: Coloring::Until { level: 2, end: 7 } }
}

} // verus!
