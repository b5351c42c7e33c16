//! The log view (a document, its path and its viewport) and the application
//! state around it.

use vstd::prelude::*;
use crate::document::{Document, document_lines};
use crate::geometry::{Geometry, HEADER_ROWS};
use crate::gutter::{fit_width, fitted_width, gutter_width, minimal_width};
use crate::input::{Command, Key, key_command, map_key};
use crate::render::{Row, rows_show, visible_rows};
use crate::viewport::{ScrollState, Viewport};

verus! {

/// The scroll state after a command; quitting and ignored keys leave it.
pub open spec fn after_command(s: ScrollState, command: Command) -> ScrollState {
    match command {
        Command::ScrollDown(by) => s.scrolled_down(by as int),
        Command::ScrollUp(by) => s.scrolled_up(by as int),
        _ => s,
    }
}

/// What a frame of the log view draws: the gutter's width, the rows its
/// header takes, and the numbered lines below the header.
pub struct Frame {
    pub gutter_width: usize,
    pub header_rows: usize,
    pub rows: Vec<Row>,
}

/// A file's lines beside a line-number gutter, scrolled together.
pub struct LogView {
    log_path: String,
    document: Document,
    viewport: Viewport,
}

impl LogView {
    /// The viewport stays on a line of the document.
    pub open spec fn wf(&self) -> bool {
        &&& self.spec_viewport().wf()
        &&& self.spec_viewport()@.last_line == self.spec_document()@.len()
    }

    pub closed spec fn spec_document(&self) -> Document {
        self.document
    }

    pub closed spec fn spec_viewport(&self) -> Viewport {
        self.viewport
    }

    pub closed spec fn spec_path(&self) -> Seq<char> {
        self.log_path@
    }

    /// A view of the file at `log_path` whose text is `contents`, on its
    /// first line.
    pub fn new(log_path: String, contents: &str) -> (r: LogView)
        ensures
            r.wf(),
            r.spec_path() == log_path@,
            r.spec_document()@ == document_lines(contents@),
            r.spec_viewport()@.offset == 1,
    {
        let document: Document = Document::load(contents);
        let viewport: Viewport = Viewport::new(document.line_count());
        LogView { log_path, document, viewport }
    }

    /// The path of the file shown, which titles the pane.
    pub fn path(&self) -> (r: &String)
        ensures
            r@ == self.spec_path(),
    {
        &self.log_path
    }

    pub fn document(&self) -> (r: &Document)
        ensures
            *r == self.spec_document(),
    {
        &self.document
    }

    pub fn viewport(&self) -> (r: &Viewport)
        ensures
            *r == self.spec_viewport(),
    {
        &self.viewport
    }

    /// Scrolls as the key asks; keys that do not scroll change nothing.
    pub fn handle_events(&mut self, key: Key)
        requires
            old(self).wf(),
        ensures
            final(self).wf(),
            final(self).spec_path() == old(self).spec_path(),
            final(self).spec_document() == old(self).spec_document(),
            final(self).spec_viewport()@ == after_command(
                old(self).spec_viewport()@,
                key_command(key),
            ),
    {
        match map_key(key) {
            Command::ScrollDown(by) => self.viewport.scroll_down(by),
            Command::ScrollUp(by) => self.viewport.scroll_up(by),
            _ => {},
        }
    }

    /// What to draw in a pane `width` columns wide and `height` rows tall:
    /// the gutter sized for the last number that the content rows can show
    /// (or its minimum where the pane is too narrow), and the rows, which
    /// gutter and content share.
    pub fn frame(&self, width: usize, height: usize) -> (f: Frame)
        requires
            self.wf(),
        ensures
            ({
                let s = self.spec_viewport()@;
                let rows = (Geometry { height, header_rows: HEADER_ROWS }).spec_content_rows();
                &&& f.header_rows == HEADER_ROWS
                &&& f.gutter_width as int == fitted_width(
                    gutter_width(s.offset, rows, s.last_line),
                    width as int,
                )
                &&& rows_show(
                    f.rows@,
                    self.spec_document()@,
                    s.offset,
                    s.range_end(rows),
                )
            }),
    {
        let geometry: Geometry = Geometry::new(height);
        let rows: usize = geometry.content_rows();
        let needed: usize = minimal_width(self.viewport.offset(), rows, self.viewport.last_line());
        let gutter: usize = fit_width(needed, width);
        let shown: Vec<Row> = visible_rows(&self.document, &self.viewport, rows);
        Frame { gutter_width: gutter, header_rows: geometry.header_rows, rows: shown }
    }
}

/// Whether the viewer goes on after a key press.
#[derive(Clone, Copy, Debug, PartialEq, Eq, Structural)]
pub enum Flow {
    Continue,
    Quit,
}

/// The viewer's state: the log view of the file it was opened on.
pub struct App {
    log_view: LogView,
}

impl App {
    pub open spec fn wf(&self) -> bool {
        self.spec_log_view().wf()
    }

    pub closed spec fn spec_log_view(&self) -> LogView {
        self.log_view
    }

    /// The viewer on the file at `log_path`, whose text is `contents`.
    pub fn new(log_path: String, contents: &str) -> (r: App)
        ensures
            r.wf(),
            r.spec_log_view().spec_path() == log_path@,
            r.spec_log_view().spec_document()@ == document_lines(contents@),
            r.spec_log_view().spec_viewport()@.offset == 1,
    {
        App { log_view: LogView::new(log_path, contents) }
    }

    pub fn log_view(&self) -> (r: &LogView)
        ensures
            *r == self.spec_log_view(),
    {
        &self.log_view
    }

    /// Handles one key press: the quit key ends the session and changes
    /// nothing; any other key goes to the log view.
    pub fn handle_key(&mut self, key: Key) -> (r: Flow)
        requires
            old(self).wf(),
        ensures
            final(self).wf(),
            r == (if key_command(key) == Command::Quit {
                Flow::Quit
            } else {
                Flow::Continue
            }),
            final(self).spec_log_view().spec_path() == old(self).spec_log_view().spec_path(),
            final(self).spec_log_view().spec_document() == old(
                self,
            ).spec_log_view().spec_document(),
            final(self).spec_log_view().spec_viewport()@ == after_command(
                old(self).spec_log_view().spec_viewport()@,
                key_command(key),
            ),
    {
        if map_key(key) == Command::Quit {
            return Flow::Quit;
        }
        self.log_view.handle_events(key);
        Flow::Continue
    }
}

} // verus!
