use tab_picker::flat::emphasis_color;
use tab_picker::line::{Coloring, Line, Span, Table};
use tab_picker::ui::{Colors, Palette, PaletteColor};
use tab_picker::width::truncate_to_width;

fn palette() -> Palette {
    Palette {
        bg: PaletteColor::EightBit(236),
        red: PaletteColor::EightBit(1),
        green: PaletteColor::Rgb((0, 200, 5)),
        magenta: PaletteColor::EightBit(5),
        cyan: PaletteColor::EightBit(6),
        orange: PaletteColor::Rgb((255, 128, 0)),
    }
}

fn span(text: &str, coloring: Coloring) -> Span {
    Span { text: text.to_string(), coloring }
}

#[test]
fn bold_wraps_the_text() {
    let colors = Colors::new(palette());
    assert_eq!(colors.bold("hi"), "\u{1b}[1mhi\u{1b}[22m");
    assert_eq!(colors.bold(""), "\u{1b}[1m\u{1b}[22m");
}

#[test]
fn indexed_colours_are_written_by_their_number() {
    let colors = Colors::new(palette());
    assert_eq!(colors.color(&PaletteColor::EightBit(154), "hi"), "\u{1b}[38;5;154;1mhi\u{1b}[39;22m");
    assert_eq!(colors.color(&PaletteColor::EightBit(0), "x"), "\u{1b}[38;5;0;1mx\u{1b}[39;22m");
    assert_eq!(colors.color(&PaletteColor::EightBit(255), ""), "\u{1b}[38;5;255;1m\u{1b}[39;22m");
    assert_eq!(colors.red("r"), "\u{1b}[38;5;1;1mr\u{1b}[39;22m");
    assert_eq!(colors.magenta("m"), "\u{1b}[38;5;5;1mm\u{1b}[39;22m");
    assert_eq!(colors.cyan("c"), "\u{1b}[38;5;6;1mc\u{1b}[39;22m");
}

#[test]
fn rgb_colours_are_written_by_their_parts() {
    let colors = Colors::new(palette());
    assert_eq!(
        colors.color(&PaletteColor::Rgb((1, 20, 255)), "hi"),
        "\u{1b}[38;2;1;20;255;1mhi\u{1b}[39;22m"
    );
    assert_eq!(colors.green("g"), "\u{1b}[38;2;0;200;5;1mg\u{1b}[39;22m");
    assert_eq!(colors.orange("o"), "\u{1b}[38;2;255;128;0;1mo\u{1b}[39;22m");
}

#[test]
fn default_palette_is_colour_zero() {
    let colors = Colors::default();
    assert_eq!(colors.palette.green, PaletteColor::EightBit(0));
    assert_eq!(colors.palette, Palette::default());
    assert_eq!(PaletteColor::default(), PaletteColor::EightBit(0));
    assert_eq!(colors.green("x"), "\u{1b}[38;5;0;1mx\u{1b}[39;22m");
}

#[test]
fn emphasis_levels_map_to_palette_colours() {
    let p = palette();
    assert_eq!(emphasis_color(&p, 0), p.orange);
    assert_eq!(emphasis_color(&p, 1), p.cyan);
    assert_eq!(emphasis_color(&p, 2), p.green);
    assert_eq!(emphasis_color(&p, 3), p.magenta);
    assert_eq!(emphasis_color(&p, 4), p.red);
    assert_eq!(emphasis_color(&p, 99), p.red);
}

#[test]
fn truncation_counts_columns_not_characters() {
    assert_eq!(truncate_to_width("abcdef", 4), ("abcd".to_string(), 4));
    assert_eq!(truncate_to_width("abc", 10), ("abc".to_string(), 3));
    assert_eq!(truncate_to_width("abc", 0), (String::new(), 0));
    assert_eq!(truncate_to_width("", 5), (String::new(), 0));
    // wide glyphs take two columns
    assert_eq!(truncate_to_width("\u{4e2d}\u{6587}", 4), ("\u{4e2d}\u{6587}".to_string(), 4));
    assert_eq!(truncate_to_width("\u{4e2d}\u{6587}", 3), ("\u{4e2d}".to_string(), 2));
    assert_eq!(truncate_to_width("\u{4e2d}\u{6587}", 1), (String::new(), 0));
    assert_eq!(truncate_to_width("a\u{4e2d}b", 2), ("a".to_string(), 1));
    // a combining mark takes none
    assert_eq!(truncate_to_width("e\u{301}x", 1), ("e\u{301}".to_string(), 1));
}

#[test]
fn span_renders_what_fits() {
    let s = span("hello", Coloring::All { level: 1 });
    assert_eq!(s.render(3), ("hel".to_string(), 3));
    assert_eq!(s.render(9), ("hello".to_string(), 5));
}

#[test]
fn coloring_tells_which_offsets_it_colours() {
    assert!(!Coloring::Plain.colors_offset(0));
    assert!(Coloring::All { level: 0 }.colors_offset(5));
    assert!(Coloring::Until { level: 2, end: 7 }.colors_offset(6));
    assert!(!Coloring::Until { level: 2, end: 7 }.colors_offset(7));
    let picked = Coloring::Indices { level: 2, indices: vec![4, 1] };
    assert!(picked.colors_offset(1));
    assert!(picked.colors_offset(4));
    assert!(!picked.colors_offset(2));
    assert_eq!(picked.level(), 2);
    assert_eq!(Coloring::Plain.level(), 0);
}

#[test]
fn flat_line_colours_the_matched_characters() {
    let colors = Colors::new(palette());
    let line = Line {
        spans: vec![
            span("ab", Coloring::Plain),
            span("cdef", Coloring::Indices { level: 2, indices: vec![1, 3] }),
        ],
        selected: false,
    };
    let green = |s: &str| format!("\u{1b}[38;2;0;200;5;1m{}\u{1b}[39;22m", s);
    assert_eq!(line.render_flat(&colors, 80, "> "), format!("abc{}e{}", green("d"), green("f")));
    // cut in the second span
    assert_eq!(line.render_flat(&colors, 4, "> "), format!("abc{}", green("d")));
    assert_eq!(line.render_flat(&colors, 1, "> "), "a");
    assert_eq!(line.render_flat(&colors, 0, "> "), "");
}

#[test]
fn flat_line_gives_nothing_to_spans_after_a_cut() {
    let colors = Colors::new(palette());
    let line = Line {
        spans: vec![span("\u{4e2d}\u{6587}", Coloring::Plain), span("x", Coloring::Plain)],
        selected: false,
    };
    // three columns: the second glyph does not fit, and the column that is left stays empty
    assert_eq!(line.render_flat(&colors, 3, ""), "\u{4e2d}");
    assert_eq!(line.render_flat(&colors, 5, ""), "\u{4e2d}\u{6587}x");
}

#[test]
fn selected_flat_line_is_filled_to_the_full_width() {
    let colors = Colors::new(palette());
    let line = Line {
        spans: vec![
            span("ab", Coloring::All { level: 0 }),
            span(" hint", Coloring::Until { level: 1, end: 2 }),
        ],
        selected: true,
    };
    let orange = |s: &str| format!("\u{1b}[38;2;255;128;0;1m{}\u{1b}[39;22m", s);
    let cyan = |s: &str| format!("\u{1b}[38;5;6;1m{}\u{1b}[39;22m", s);
    assert_eq!(
        line.render_flat(&colors, 12, "> "),
        format!(
            "\u{1b}[48;5;236m> {}{}{}{}int   \u{1b}[49m",
            orange("a"),
            orange("b"),
            cyan(" "),
            cyan("h")
        )
    );
    assert_eq!(
        line.render_flat(&colors, 3, "> "),
        format!("\u{1b}[48;5;236m> {}\u{1b}[49m", orange("a"))
    );
    assert_eq!(line.render_flat(&colors, 1, "> "), "\u{1b}[48;5;236m>\u{1b}[49m");
    let rgb = Colors::new(Palette { bg: PaletteColor::Rgb((1, 2, 3)), ..palette() });
    let empty = Line { spans: vec![], selected: true };
    assert_eq!(empty.render_flat(&rgb, 2, ""), "\u{1b}[48;2;1;2;3m  \u{1b}[49m");
}

#[test]
fn flat_table_has_a_string_for_each_line() {
    let colors = Colors::new(palette());
    let table = Table {
        lines: vec![
            Line { spans: vec![span("one", Coloring::Plain)], selected: false },
            Line { spans: vec![span("two", Coloring::Plain)], selected: true },
        ],
    };
    assert_eq!(
        table.render_flat(&colors, 5, ">"),
        vec!["one".to_string(), "\u{1b}[48;5;236m>two \u{1b}[49m".to_string()]
    );
    assert!(Table { lines: vec![] }.render_flat(&colors, 5, ">").is_empty());
}
