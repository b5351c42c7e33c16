use logview::document::Document;
use logview::geometry::{Geometry, HEADER_ROWS};
use logview::gutter::{digit_count, fit_width, minimal_width, MIN_GUTTER_WIDTH};
use logview::input::{map_key, Command, Key};
use logview::render::{visible_rows, Row};
use logview::view::Flow;
use logview::viewport::Viewport;
use logview::{App, LogView};

fn pairs(rows: &[Row]) -> Vec<(usize, String)> {
    rows.iter().map(|r| (r.number, r.text.clone())).collect()
}

fn sentinel_text(n: usize) -> String {
    let mut s = String::new();
    for i in 1..=n {
        s.push_str(&format!("L{}\n", i));
    }
    s
}

#[test]
fn empty_source_has_one_empty_line() {
    let doc = Document::load("");
    assert_eq!(doc.line_count(), 1);
    assert_eq!(doc.line(1), "");
    let view = LogView::new("empty.log".to_string(), "");
    assert_eq!(view.viewport().offset(), 1);
    let frame = view.frame(20, 5);
    assert_eq!(pairs(&frame.rows), vec![(1, String::new())]);
    assert_eq!(frame.gutter_width, 2);
}

#[test]
fn load_splits_on_newlines() {
    let doc = Document::load("a\n\nb\r\nc");
    assert_eq!(doc.line_count(), 4);
    assert_eq!(doc.line(1), "a");
    assert_eq!(doc.line(2), "");
    assert_eq!(doc.line(3), "b");
    assert_eq!(doc.line(4), "c");
}

#[test]
fn trailing_newline_opens_no_line() {
    let doc = Document::load("x\ny\n");
    assert_eq!(doc.line_count(), 2);
    assert_eq!(doc.line(2), "y");
    let doc = Document::load("\n");
    assert_eq!(doc.line_count(), 1);
    assert_eq!(doc.line(1), "");
    let doc = Document::load("é\nü");
    assert_eq!(doc.line(1), "é");
    assert_eq!(doc.line(2), "ü");
}

#[test]
fn scrolling_is_clamped() {
    let mut v = Viewport::new(5);
    v.scroll_up(1);
    assert_eq!(v.offset(), 1);
    v.scroll_down(3);
    assert_eq!(v.offset(), 4);
    v.scroll_down(10);
    assert_eq!(v.offset(), 5);
    v.scroll_up(2);
    assert_eq!(v.offset(), 3);
    v.scroll_up(usize::MAX);
    assert_eq!(v.offset(), 1);
    v.scroll_down(usize::MAX);
    assert_eq!(v.offset(), 5);
}

#[test]
fn empty_document_counts_as_one_line() {
    let mut v = Viewport::new(0);
    assert_eq!(v.last_line(), 1);
    v.scroll_down(4);
    assert_eq!(v.offset(), 1);
    assert_eq!(v.visible_range(3), (1, 1));
}

#[test]
fn scroll_down_at_end_changes_nothing() {
    let mut v = Viewport::new(7);
    v.scroll_down(6);
    assert_eq!(v.offset(), 7);
    v.scroll_down(1);
    assert_eq!(v.offset(), 7);
    assert_eq!(v.last_line(), 7);
}

#[test]
fn visible_range_stops_at_last_line() {
    let mut v = Viewport::new(10);
    assert_eq!(v.visible_range(4), (1, 4));
    assert_eq!(v.visible_range(0), (1, 0));
    assert_eq!(v.visible_range(usize::MAX), (1, 10));
    v.scroll_down(8);
    assert_eq!(v.visible_range(5), (9, 10));
}

#[test]
fn digit_counts() {
    assert_eq!(digit_count(0), 1);
    assert_eq!(digit_count(9), 1);
    assert_eq!(digit_count(10), 2);
    assert_eq!(digit_count(999), 3);
    assert_eq!(digit_count(1000), 4);
    assert_eq!(digit_count(usize::MAX), usize::MAX.to_string().len());
}

#[test]
fn gutter_width_follows_last_visible_number() {
    assert_eq!(minimal_width(1, 5, 3), 2);
    assert_eq!(minimal_width(95, 10, 200), 4);
    assert_eq!(minimal_width(95, 10, 100), 4);
    assert_eq!(minimal_width(95, 5, 100), 3);
    assert_eq!(minimal_width(1, 0, 100), MIN_GUTTER_WIDTH);
    assert_eq!(minimal_width(usize::MAX, usize::MAX, usize::MAX), 21);
}

#[test]
fn gutter_width_grows_with_document() {
    let mut last = 0;
    for n in [0usize, 1, 9, 10, 99, 100, 1000, 5000] {
        let w = minimal_width(1, 2000, n);
        assert!(w >= last);
        assert_eq!(w, minimal_width(1, 2000, n));
        last = w;
    }
    assert_eq!(last, 5);
}

#[test]
fn narrow_pane_degrades_gutter() {
    assert_eq!(fit_width(4, 10), 4);
    assert_eq!(fit_width(4, 4), 4);
    assert_eq!(fit_width(4, 3), MIN_GUTTER_WIDTH);
    let text = sentinel_text(1000);
    let mut view = LogView::new("big.log".to_string(), &text);
    for _ in 0..995 {
        view.handle_events(Key::Char('j'));
    }
    assert_eq!(view.frame(80, 11).gutter_width, 5);
    assert_eq!(view.frame(3, 11).gutter_width, 2);
}

#[test]
fn geometry_reserves_header_row() {
    assert_eq!(Geometry::new(6).content_rows(), 5);
    assert_eq!(Geometry::new(1).content_rows(), 0);
    assert_eq!(Geometry::new(0).content_rows(), 0);
    assert_eq!(Geometry::new(0).header_rows, HEADER_ROWS);
}

#[test]
fn rows_are_aligned_with_numbers() {
    let text = sentinel_text(50);
    let doc = Document::load(&text);
    assert_eq!(doc.line_count(), 50);
    let mut v = Viewport::new(doc.line_count());
    v.scroll_down(9);
    assert_eq!(v.offset(), 10);
    let rows = visible_rows(&doc, &v, 5);
    let expected: Vec<(usize, String)> = (10..=14).map(|i| (i, format!("L{}", i))).collect();
    assert_eq!(pairs(&rows), expected);
}

#[test]
fn three_line_file_scenario() {
    let mut view = LogView::new("abc.log".to_string(), "a\nb\nc");
    // a pane of three rows: one header row and two content rows
    let frame = view.frame(10, 3);
    assert_eq!(frame.header_rows, 1);
    assert_eq!(pairs(&frame.rows), vec![(1, "a".to_string()), (2, "b".to_string())]);
    view.handle_events(Key::Char('j'));
    let frame = view.frame(10, 3);
    assert_eq!(pairs(&frame.rows), vec![(2, "b".to_string()), (3, "c".to_string())]);
    view.handle_events(Key::Char('j'));
    assert!(view.viewport().offset() <= 3);
    view.handle_events(Key::Char('j'));
    assert_eq!(view.viewport().offset(), 3);
    assert_eq!(pairs(&view.frame(10, 3).rows), vec![(3, "c".to_string())]);
}

#[test]
fn key_mapping() {
    assert_eq!(map_key(Key::Char('j')), Command::ScrollDown(1));
    assert_eq!(map_key(Key::Down), Command::ScrollDown(1));
    assert_eq!(map_key(Key::Char('k')), Command::ScrollUp(1));
    assert_eq!(map_key(Key::Up), Command::ScrollUp(1));
    assert_eq!(map_key(Key::Char('q')), Command::Quit);
    assert_eq!(map_key(Key::Char('x')), Command::Ignore);
    assert_eq!(map_key(Key::Other), Command::Ignore);
}

#[test]
fn app_handles_keys() {
    let mut app = App::new("f.log".to_string(), "1\n2\n3\n4");
    assert_eq!(app.log_view().path(), "f.log");
    assert_eq!(app.handle_key(Key::Down), Flow::Continue);
    assert_eq!(app.handle_key(Key::Char('j')), Flow::Continue);
    assert_eq!(app.log_view().viewport().offset(), 3);
    assert_eq!(app.handle_key(Key::Char('z')), Flow::Continue);
    assert_eq!(app.log_view().viewport().offset(), 3);
    assert_eq!(app.handle_key(Key::Up), Flow::Continue);
    assert_eq!(app.log_view().viewport().offset(), 2);
    assert_eq!(app.handle_key(Key::Char('q')), Flow::Quit);
    assert_eq!(app.log_view().viewport().offset(), 2);
    assert_eq!(app.log_view().document().line_count(), 4);
}
