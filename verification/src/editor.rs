//! The editor itself: a document of lines, cursor and selection anchor,
//! scroll offset, dirty flag, status message and the single overlay slot,
//! with every operation proved equal to its specification on the view and
//! shown to keep the state invariant.
use vstd::prelude::*;

use crate::state::{
    Action, FoxV, KeyInput, Overlay, OverlayV, PosV, Position, Prompt, PromptType, StatusMessage,
    reconcile, visible_of,
};
use crate::text::{
    buf_is_yes, join_lines, join_text, lemma_scan_lines_ok, lines_view, parse_line_number,
    scan_text, split_lines, split_text,
};

verus! {

impl PromptType {
    /// The label a renderer shows for this overlay kind.
    pub open spec fn label_view(self) -> Seq<char> {
        match self {
            PromptType::UnsavedQuit => "Unsaved changes, quit? (y/n)"@,
            PromptType::Find => "Search"@,
            PromptType::Help => "Help!"@,
            PromptType::GoToLine => "Go to"@,
        }
    }

    /// The label a renderer shows for this overlay kind.
    pub fn text(&self) -> (r: &'static str)
        ensures
            r@ == self.label_view(),
    {
        match self {
            PromptType::UnsavedQuit => "Unsaved changes, quit? (y/n)",
            PromptType::Find => "Search",
            PromptType::Help => "Help!",
            PromptType::GoToLine => "Go to",
        }
    }
}

/// The editor state. All mutating operations keep `self@.wf()`.
pub struct Fox {
    text: Vec<Vec<char>>,
    cursor: Position,
    highlight: Position,
    scroll: usize,
    height: usize,
    dirty: bool,
    overlay: Overlay,
    status: StatusMessage,
}

impl View for Fox {
    type V = FoxV;

    closed spec fn view(&self) -> FoxV {
        FoxV {
            lines: lines_view(self.text@),
            cursor: PosV { row: self.cursor.row as int, col: self.cursor.col as int },
            anchor: PosV { row: self.highlight.row as int, col: self.highlight.col as int },
            scroll: self.scroll as int,
            height: self.height as int,
            dirty: self.dirty,
            overlay: self.overlay@,
            status: self.status,
        }
    }
}

/// The scroll offset that brings `row` back into a window of `visible`
/// rows starting at `scroll`.
fn reconcile_scroll(scroll: usize, row: usize, visible: usize) -> (s: usize)
    requires
        visible >= 1,
    ensures
        s as int == reconcile(scroll as int, row as int, visible as int),
{
    if row < scroll {
        row
    } else if row - scroll >= visible {
        row - (visible - 1)
    } else {
        scroll
    }
}

/// A copy of `line[from..to]`.
fn copy_range(line: &Vec<char>, from: usize, to: usize) -> (r: Vec<char>)
    requires
        from <= to <= line@.len(),
    ensures
        r@ == line@.subrange(from as int, to as int),
{
    let mut r: Vec<char> = Vec::new();
    let mut i: usize = from;
    proof {
        assert(r@ =~= line@.subrange(from as int, from as int));
    }
    while i < to
        invariant
            from <= i <= to <= line@.len(),
            r@ == line@.subrange(from as int, i as int),
        decreases to - i,
    {
        proof {
            assert(line@.subrange(from as int, i + 1)
                =~= line@.subrange(from as int, i as int).push(line@[i as int]));
        }
        r.push(line[i]);
        i += 1;
    }
    r
}

impl Fox {
    /// A fresh editor over the given text, cut into lines, with the caret
    /// at the top left, nothing selected, no scroll, a clean document and
    /// no overlay.
    pub fn new(text: &Vec<char>, height: usize) -> (fox: Fox)
        ensures
            fox@ == (FoxV {
                lines: split_lines(text@),
                cursor: PosV { row: 0, col: 0 },
                anchor: PosV { row: 0, col: 0 },
                scroll: 0,
                height: height as int,
                dirty: false,
                overlay: OverlayV::Normal,
                status: StatusMessage::Empty,
            }),
            fox@.wf(),
    {
        let lines = split_text(text);
        let fox = Fox {
            text: lines,
            cursor: Position { row: 0, col: 0 },
            highlight: Position { row: 0, col: 0 },
            scroll: 0,
            height,
            dirty: false,
            overlay: Overlay::Normal,
            status: StatusMessage::Empty,
        };
        proof {
            assert(fox@ =~~= (FoxV {
                lines: split_lines(text@),
                cursor: PosV { row: 0, col: 0 },
                anchor: PosV { row: 0, col: 0 },
                scroll: 0,
                height: height as int,
                dirty: false,
                overlay: OverlayV::Normal,
                status: StatusMessage::Empty,
            }));
        }
        fox
    }

    /// Rows visible at once: terminal height less header and footer,
    /// never less than one.
    pub fn visible_rows(&self) -> (v: usize)
        ensures
            v as int == visible_of(self@.height),
            v >= 1,
    {
        if self.height >= 3 {
            self.height - 2
        } else {
            1
        }
    }

    /// Record a new terminal height and bring the viewport back over the
    /// cursor.
    pub fn set_height(&mut self, h: usize)
        requires
            old(self)@.wf(),
        ensures
            final(self)@ == old(self)@.set_height(h as int),
            final(self)@.wf(),
    {
        self.height = h;
        let vis = self.visible_rows();
        self.scroll = reconcile_scroll(self.scroll, self.cursor.row, vis);
        proof {
            assert(self@ =~~= old(self)@.set_height(h as int));
        }
    }

    /// The document joined into one text, as it is written out on save.
    pub fn to_text(&self) -> (text: Vec<char>)
        requires
            self@.wf(),
        ensures
            text@ == join_lines(self@.lines),
    {
        join_text(&self.text)
    }

    /// The caller saved the joined text successfully: the document is
    /// clean again and the status says so.
    pub fn mark_saved(&mut self)
        requires
            old(self)@.wf(),
        ensures
            final(self)@ == old(self)@.mark_saved(),
            final(self)@.wf(),
    {
        self.dirty = false;
        self.status = StatusMessage::Saved;
        proof {
            assert(self@ =~~= old(self)@.mark_saved());
        }
    }

    /// The status message has been shown; clear it for the next frame.
    pub fn clear_status(&mut self)
        requires
            old(self)@.wf(),
        ensures
            final(self)@ == old(self)@.clear_status(),
            final(self)@.wf(),
    {
        self.status = StatusMessage::Empty;
        proof {
            assert(self@ =~~= old(self)@.clear_status());
        }
    }

    /// Open a prompt; refused while any overlay is already open.
    pub fn prompt(&mut self, prompt: PromptType)
        requires
            old(self)@.wf(),
        ensures
            final(self)@ == old(self)@.open_prompt(prompt),
            final(self)@.wf(),
    {
        if matches!(self.overlay, Overlay::Normal) {
            self.overlay = Overlay::Prompt(Prompt { prompt, buf: Vec::new() });
        }
        proof {
            assert(self@ =~~= old(self)@.open_prompt(prompt));
        }
    }

    /// Open a popup; refused while any overlay is already open.
    pub fn popup(&mut self, popup: PromptType)
        requires
            old(self)@.wf(),
        ensures
            final(self)@ == old(self)@.open_popup(popup),
            final(self)@.wf(),
    {
        if matches!(self.overlay, Overlay::Normal) {
            self.overlay = Overlay::Popup(Prompt { prompt: popup, buf: Vec::new() });
        }
        proof {
            assert(self@ =~~= old(self)@.open_popup(popup));
        }
    }

    /// The selection's endpoints in reading order: start first, end last.
    pub fn normalized_selection(&self) -> (r: (Position, Position))
        requires
            self@.wf(),
        ensures
            r.0.row as int == self@.sel_start().row,
            r.0.col as int == self@.sel_start().col,
            r.1.row as int == self@.sel_end().row,
            r.1.col as int == self@.sel_end().col,
    {
        if self.highlight.row < self.cursor.row
            || (self.highlight.row == self.cursor.row && self.highlight.col <= self.cursor.col) {
            (self.highlight, self.cursor)
        } else {
            (self.cursor, self.highlight)
        }
    }

    /// Delete the selected range and collapse the caret to its start.
    fn delete_selection(&mut self)
        requires
            old(self)@.wf(),
            !old(self)@.sel_empty(),
        ensures
            final(self)@ == old(self)@.delete_selection(),
            final(self)@.wf(),
    {
        let ghost v0 = self@;
        let ghost sv = v0.sel_start();
        let ghost ev = v0.sel_end();
        let (s, e) = self.normalized_selection();
        let mut nline = copy_range(&self.text[s.row], 0, s.col);
        let elen: usize = self.text[e.row].len();
        let mut tail = copy_range(&self.text[e.row], e.col, elen);
        nline.append(&mut tail);
        proof {
            assert(nline@ =~= v0.lines[sv.row].take(sv.col) + v0.lines[ev.row].skip(ev.col));
        }
        let ghost nl = nline@;
        self.text.remove(s.row);
        self.text.insert(s.row, nline);
        let ghost a = self.text@;
        proof {
            assert(a =~= old(self).text@.update(sv.row, a[sv.row]));
            assert(a[sv.row]@ == nl);
            assert(a.len() == v0.lines.len());
            assert(self.text@ =~= a.take(sv.row + 1) + a.skip(sv.row + 1));
        }
        let tlen: usize = self.text.len();
        let count: usize = e.row - s.row;
        let mut k: usize = 0;
        while k < count
            invariant
                tlen == a.len(),
                sv.row + 1 + count <= a.len(),
                count == ev.row - sv.row,
                sv.row == s.row as int,
                0 <= k <= count,
                self.text@ == a.take(sv.row + 1) + a.skip(sv.row + 1 + k),
                self.cursor == old(self).cursor,
                self.highlight == old(self).highlight,
                self.scroll == old(self).scroll,
                self.height == old(self).height,
                self.dirty == old(self).dirty,
                self.overlay == old(self).overlay,
                self.status == old(self).status,
            decreases count - k,
        {
            proof {
                assert(self.text@.len() == a.len() - k);
                assert((a.take(sv.row + 1) + a.skip(sv.row + 1 + k)).remove(sv.row + 1)
                    =~= a.take(sv.row + 1) + a.skip(sv.row + 1 + (k + 1)));
            }
            self.text.remove(s.row + 1);
            k += 1;
        }
        self.cursor = s;
        self.highlight = s;
        self.dirty = true;
        let vis = self.visible_rows();
        self.scroll = reconcile_scroll(self.scroll, s.row, vis);
        proof {
            assert(lines_view(self.text@)
                =~~= v0.lines.take(sv.row) + seq![nl] + v0.lines.skip(ev.row + 1));
            assert(self@ =~~= old(self)@.delete_selection());
        }
    }

    /// A typed character: appended to an open overlay's input, otherwise
    /// inserted at the caret (deleting an active selection first), the
    /// caret advancing one column.
    pub fn push_char(&mut self, c: char)
        requires
            old(self)@.wf(),
        ensures
            final(self)@ == old(self)@.push_char(c),
            final(self)@.wf(),
    {
        if matches!(self.overlay, Overlay::Normal) {
            if !(self.highlight == self.cursor) {
                self.delete_selection();
            }
            let ghost v1 = self@;
            let row: usize = self.cursor.row;
            let col: usize = self.cursor.col;
            self.text[row].insert(col, c);
            let _new_len: usize = self.text[row].len();
            self.cursor = Position { row, col: col + 1 };
            self.highlight = self.cursor;
            self.dirty = true;
            proof {
                assert(lines_view(self.text@)
                    =~~= v1.lines.update(v1.cursor.row, v1.lines[v1.cursor.row].insert(v1.cursor.col, c)));
                assert(self@ =~~= old(self)@.push_char(c));
            }
        } else {
            match &mut self.overlay {
                Overlay::Prompt(p) => p.buf.push(c),
                Overlay::Popup(p) => p.buf.push(c),
                Overlay::Normal => {},
            }
            proof {
                assert(self@ =~~= old(self)@.push_char(c));
            }
        }
    }

    /// Backspace: shortens an open overlay's input; otherwise deletes the
    /// selection, or the character before the caret, or merges this line
    /// into the previous one when the caret sits at column 0.
    pub fn pop_char(&mut self)
        requires
            old(self)@.wf(),
        ensures
            final(self)@ == old(self)@.pop_char(),
            final(self)@.wf(),
    {
        if matches!(self.overlay, Overlay::Normal) {
            if !(self.highlight == self.cursor) {
                self.delete_selection();
                proof {
                    assert(self@ =~~= old(self)@.pop_char());
                }
            } else if self.cursor.col > 0 {
                let row: usize = self.cursor.row;
                let col: usize = self.cursor.col;
                self.text[row].remove(col - 1);
                self.cursor = Position { row, col: col - 1 };
                self.highlight = self.cursor;
                self.dirty = true;
                proof {
                    assert(lines_view(self.text@)
                        =~~= old(self)@.lines.update(row as int,
                            old(self)@.cur_line().remove(col - 1)));
                    assert(self@ =~~= old(self)@.pop_char());
                }
            } else if self.cursor.row > 0 {
                let row: usize = self.cursor.row;
                let mut cur = self.text.remove(row);
                let plen: usize = self.text[row - 1].len();
                self.text[row - 1].append(&mut cur);
                self.cursor = Position { row: row - 1, col: plen };
                self.highlight = self.cursor;
                self.dirty = true;
                let vis = self.visible_rows();
                self.scroll = reconcile_scroll(self.scroll, row - 1, vis);
                proof {
                    assert(lines_view(self.text@)
                        =~~= old(self)@.lines.take(row - 1)
                            + seq![old(self)@.lines[row - 1] + old(self)@.lines[row as int]]
                            + old(self)@.lines.skip(row + 1));
                    assert(self@ =~~= old(self)@.pop_char());
                }
            } else {
                proof {
                    assert(self@ =~~= old(self)@.pop_char());
                }
            }
        } else {
            match &mut self.overlay {
                Overlay::Prompt(p) => {
                    p.buf.pop();
                },
                Overlay::Popup(p) => {
                    p.buf.pop();
                },
                Overlay::Normal => {},
            }
            proof {
                assert(self@ =~~= old(self)@.pop_char());
            }
        }
    }

    /// The delete key: ignored while an overlay is open; otherwise
    /// deletes the selection, or the character at the caret, or merges
    /// the next line into this one when the caret sits at the line's end.
    pub fn pop_char_del(&mut self)
        requires
            old(self)@.wf(),
        ensures
            final(self)@ == old(self)@.pop_char_del(),
            final(self)@.wf(),
    {
        if matches!(self.overlay, Overlay::Normal) {
            if !(self.highlight == self.cursor) {
                self.delete_selection();
                proof {
                    assert(self@ =~~= old(self)@.pop_char_del());
                }
            } else {
                let row: usize = self.cursor.row;
                let col: usize = self.cursor.col;
                let len: usize = self.text[row].len();
                if col < len {
                    self.text[row].remove(col);
                    self.dirty = true;
                    proof {
                        assert(lines_view(self.text@)
                            =~~= old(self)@.lines.update(row as int,
                                old(self)@.cur_line().remove(col as int)));
                        assert(self@ =~~= old(self)@.pop_char_del());
                    }
                } else if row < self.text.len() - 1 {
                    let mut nxt = self.text.remove(row + 1);
                    self.text[row].append(&mut nxt);
                    self.dirty = true;
                    proof {
                        assert(lines_view(self.text@)
                            =~~= old(self)@.lines.update(row as int,
                                old(self)@.lines[row as int] + old(self)@.lines[row + 1])
                                .remove(row + 1));
                        assert(self@ =~~= old(self)@.pop_char_del());
                    }
                } else {
                    proof {
                        assert(self@ =~~= old(self)@.pop_char_del());
                    }
                }
            }
        } else {
            proof {
                assert(self@ =~~= old(self)@.pop_char_del());
            }
        }
    }

    /// Split the caret's line at the caret column; the right part becomes
    /// a new line below and the caret moves to its start.
    pub fn enter(&mut self)
        requires
            old(self)@.wf(),
        ensures
            final(self)@ == old(self)@.split_line(),
            final(self)@.wf(),
    {
        let row: usize = self.cursor.row;
        let col: usize = self.cursor.col;
        let _line_total: usize = self.text.len();
        let mut line = self.text.remove(row);
        let llen: usize = line.len();
        let right = copy_range(&line, col, llen);
        line.truncate(col);
        self.text.insert(row, line);
        self.text.insert(row + 1, right);
        self.cursor = Position { row: row + 1, col: 0 };
        self.highlight = self.cursor;
        self.dirty = true;
        let vis = self.visible_rows();
        self.scroll = reconcile_scroll(self.scroll, row + 1, vis);
        proof {
            assert(lines_view(self.text@)
                =~~= old(self)@.lines.update(row as int,
                    old(self)@.cur_line().take(col as int))
                    .insert(row + 1, old(self)@.cur_line().skip(col as int)));
            assert(self@ =~~= old(self)@.split_line());
        }
    }

    /// Move the caret to column 0; the selection collapses.
    pub fn cursor_start_of_line(&mut self)
        requires
            old(self)@.wf(),
        ensures
            final(self)@ == old(self)@.cursor_start_of_line(),
            final(self)@.wf(),
    {
        self.cursor = Position { row: self.cursor.row, col: 0 };
        self.highlight = self.cursor;
        proof {
            assert(self@ =~~= old(self)@.cursor_start_of_line());
        }
    }

    /// Move the caret past the line's last character; the selection
    /// collapses.
    pub fn cursor_end_of_line(&mut self)
        requires
            old(self)@.wf(),
        ensures
            final(self)@ == old(self)@.cursor_end_of_line(),
            final(self)@.wf(),
    {
        let len: usize = self.text[self.cursor.row].len();
        self.cursor = Position { row: self.cursor.row, col: len };
        self.highlight = self.cursor;
        proof {
            assert(self@ =~~= old(self)@.cursor_end_of_line());
        }
    }

    /// Move the caret `i` rows, clamped to the document; the column is
    /// clamped to the new line, the selection collapses and the viewport
    /// follows.
    pub fn cursor_vertical(&mut self, i: i16)
        requires
            old(self)@.wf(),
        ensures
            final(self)@ == old(self)@.cursor_vertical(i as int),
            final(self)@.wf(),
    {
        let last: usize = self.text.len() - 1;
        let row: usize = self.cursor.row;
        let r: usize;
        if i >= 0 {
            let d: usize = i as usize;
            r = if d > last - row {
                last
            } else {
                row + d
            };
        } else {
            let d: usize = (-(i as i32)) as usize;
            r = if d > row {
                0
            } else {
                row - d
            };
        }
        self.cursor.row = r;
        let len: usize = self.text[r].len();
        if self.cursor.col > len {
            self.cursor.col = len;
        }
        self.highlight = self.cursor;
        let vis = self.visible_rows();
        self.scroll = reconcile_scroll(self.scroll, r, vis);
        proof {
            assert(self@ =~~= old(self)@.cursor_vertical(i as int));
        }
    }

    /// Move the caret `i` columns: with a selection it only collapses to
    /// the selection's start or end; without one it wraps across line
    /// boundaries and is clamped at the document's corners.
    pub fn cursor_horizontal(&mut self, i: i16)
        requires
            old(self)@.wf(),
        ensures
            final(self)@ == old(self)@.cursor_horizontal(i as int),
            final(self)@.wf(),
    {
        if !(self.highlight == self.cursor) {
            let (s, e) = self.normalized_selection();
            let p = if i > 0 {
                e
            } else {
                s
            };
            self.cursor = p;
            self.highlight = p;
            let vis = self.visible_rows();
            self.scroll = reconcile_scroll(self.scroll, p.row, vis);
            proof {
                assert(self@ =~~= old(self)@.cursor_horizontal(i as int));
            }
        } else {
            let row: usize = self.cursor.row;
            let col: usize = self.cursor.col;
            let len: usize = self.text[row].len();
            if i >= 0 {
                let d: usize = i as usize;
                if d <= len - col {
                    self.cursor = Position { row, col: col + d };
                } else if row < self.text.len() - 1 {
                    self.cursor = Position { row: row + 1, col: 0 };
                } else {
                    self.cursor = Position { row, col: len };
                }
            } else {
                let d: usize = (-(i as i32)) as usize;
                if d <= col {
                    self.cursor = Position { row, col: col - d };
                } else if row > 0 {
                    let plen: usize = self.text[row - 1].len();
                    self.cursor = Position { row: row - 1, col: plen };
                } else {
                    self.cursor = Position { row, col: 0 };
                }
            }
            self.highlight = self.cursor;
            let vis = self.visible_rows();
            self.scroll = reconcile_scroll(self.scroll, self.cursor.row, vis);
            proof {
                assert(self@ =~~= old(self)@.cursor_horizontal(i as int));
            }
        }
    }

    /// Grow or shrink the selection by moving only the anchor `i`
    /// columns; the caret does not move. The anchor wraps across line
    /// boundaries, so a selection can come to span several rows.
    pub fn highlight_horizontal(&mut self, i: i16)
        requires
            old(self)@.wf(),
        ensures
            final(self)@ == old(self)@.highlight_horizontal(i as int),
            final(self)@.wf(),
    {
        let arow: usize = self.highlight.row;
        let acol: usize = self.highlight.col;
        let len: usize = self.text[arow].len();
        if i >= 0 {
            let d: usize = i as usize;
            if d <= len - acol {
                self.highlight = Position { row: arow, col: acol + d };
            } else if arow < self.text.len() - 1 {
                self.highlight = Position { row: arow + 1, col: 0 };
            } else {
                self.highlight = Position { row: arow, col: len };
            }
        } else {
            let d: usize = (-(i as i32)) as usize;
            if d <= acol {
                self.highlight = Position { row: arow, col: acol - d };
            } else if arow > 0 {
                let plen: usize = self.text[arow - 1].len();
                self.highlight = Position { row: arow - 1, col: plen };
            } else {
                self.highlight = Position { row: arow, col: 0 };
            }
        }
        proof {
            assert(self@ =~~= old(self)@.highlight_horizontal(i as int));
        }
    }

    /// Jump to row `line`, clamped to the last row; the caret goes to
    /// column 0, the selection collapses and the viewport follows.
    pub fn go_to_line(&mut self, line: u16)
        requires
            old(self)@.wf(),
        ensures
            final(self)@ == old(self)@.go_to_line(line as int),
            final(self)@.wf(),
    {
        let last: usize = self.text.len() - 1;
        let r: usize = if (line as usize) > last {
            last
        } else {
            line as usize
        };
        self.cursor = Position { row: r, col: 0 };
        self.highlight = self.cursor;
        let vis = self.visible_rows();
        self.scroll = reconcile_scroll(self.scroll, r, vis);
        proof {
            assert(self@ =~~= old(self)@.go_to_line(line as int));
        }
    }

    /// Exchange the caret's line with the one below and follow it down;
    /// at the last row nothing happens.
    pub fn swap_down(&mut self)
        requires
            old(self)@.wf(),
        ensures
            final(self)@ == old(self)@.swap_down(),
            final(self)@.wf(),
    {
        let row: usize = self.cursor.row;
        if row < self.text.len() - 1 {
            let a = self.text.remove(row);
            self.text.insert(row + 1, a);
            self.cursor.row = row + 1;
            self.highlight = self.cursor;
            self.dirty = true;
            let vis = self.visible_rows();
            self.scroll = reconcile_scroll(self.scroll, row + 1, vis);
            proof {
                assert(lines_view(self.text@)
                    =~~= old(self)@.lines.update(row as int, old(self)@.lines[row + 1])
                        .update(row + 1, old(self)@.lines[row as int]));
                assert(self@ =~~= old(self)@.swap_down());
            }
        } else {
            proof {
                assert(self@ =~~= old(self)@.swap_down());
            }
        }
    }

    /// Exchange the caret's line with the one above and follow it up; at
    /// the first row nothing happens.
    pub fn swap_up(&mut self)
        requires
            old(self)@.wf(),
        ensures
            final(self)@ == old(self)@.swap_up(),
            final(self)@.wf(),
    {
        let row: usize = self.cursor.row;
        if row > 0 {
            let a = self.text.remove(row);
            self.text.insert(row - 1, a);
            self.cursor.row = row - 1;
            self.highlight = self.cursor;
            self.dirty = true;
            let vis = self.visible_rows();
            self.scroll = reconcile_scroll(self.scroll, row - 1, vis);
            proof {
                assert(lines_view(self.text@)
                    =~~= old(self)@.lines.update(row - 1, old(self)@.lines[row as int])
                        .update(row as int, old(self)@.lines[row - 1]));
                assert(self@ =~~= old(self)@.swap_up());
            }
        } else {
            proof {
                assert(self@ =~~= old(self)@.swap_up());
            }
        }
    }

    /// Forward search with wraparound: on a hit the selection brackets
    /// the match, the caret sits at its end and the viewport follows with
    /// an extra bottom margin; on a miss nothing changes.
    pub fn find_next(&mut self, s: &Vec<char>) -> (found: bool)
        requires
            old(self)@.wf(),
        ensures
            final(self)@ == old(self)@.find_next(s@),
            found == (old(self)@.find_hit(s@) is Some),
            final(self)@.wf(),
    {
        let end: usize = self.text.len();
        let first = scan_text(&self.text, s, self.cursor.row, end, self.cursor.col);
        let hit = match first {
            Some(p) => Some(p),
            None => scan_text(&self.text, s, 0, self.cursor.row, 0),
        };
        match hit {
            Some((r, c)) => {
                proof {
                    let lv = old(self)@.lines;
                    if first is Some {
                        lemma_scan_lines_ok(lv, s@, old(self)@.cursor.row, lv.len() as int,
                            old(self)@.cursor.col);
                    } else {
                        lemma_scan_lines_ok(lv, s@, 0, old(self)@.cursor.row, 0);
                    }
                }
                let _hit_line_len: usize = self.text[r].len();
                self.highlight = Position { row: r, col: c };
                self.cursor = Position { row: r, col: c + s.len() };
                let visf: usize = if self.height >= 4 {
                    self.height - 3
                } else {
                    1
                };
                self.scroll = reconcile_scroll(self.scroll, r, visf);
                proof {
                    assert(self@ =~~= old(self)@.find_next(s@));
                }
                true
            },
            None => {
                proof {
                    assert(self@ =~~= old(self)@.find_next(s@));
                }
                false
            },
        }
    }

    /// The enter key: with no overlay it splits the line; with one open
    /// it commits the overlay. Returns whether the session ends.
    pub fn enter_key(&mut self) -> (quit: bool)
        requires
            old(self)@.wf(),
        ensures
            final(self)@ == old(self)@.commit().0,
            quit == old(self)@.commit().1,
            final(self)@.wf(),
    {
        let info: Option<(PromptType, Vec<char>)> = match &self.overlay {
            Overlay::Normal => None,
            Overlay::Prompt(p) => {
                let blen: usize = p.buf.len();
                let b = copy_range(&p.buf, 0, blen);
                proof {
                    assert(b@ =~= p.buf@);
                }
                Some((p.prompt, b))
            },
            Overlay::Popup(p) => {
                let blen: usize = p.buf.len();
                let b = copy_range(&p.buf, 0, blen);
                proof {
                    assert(b@ =~= p.buf@);
                }
                Some((p.prompt, b))
            },
        };
        match info {
            None => {
                self.enter();
                false
            },
            Some((kind, buf)) => {
                match kind {
                    PromptType::UnsavedQuit => buf_is_yes(&buf),
                    PromptType::Find => {
                        let found = self.find_next(&buf);
                        if found {
                            self.overlay = Overlay::Normal;
                            proof {
                                assert(self@ =~~= old(self)@.commit().0);
                            }
                        } else {
                            self.status = StatusMessage::NotFound;
                            proof {
                                assert(self@ =~~= old(self)@.commit().0);
                            }
                        }
                        false
                    },
                    PromptType::Help => {
                        self.overlay = Overlay::Normal;
                        proof {
                            assert(self@ =~~= old(self)@.commit().0);
                        }
                        false
                    },
                    PromptType::GoToLine => {
                        match parse_line_number(&buf) {
                            Some(n) => {
                                let t: u16 = if n >= 1 {
                                    n - 1
                                } else {
                                    0
                                };
                                self.go_to_line(t);
                                self.overlay = Overlay::Normal;
                                proof {
                                    assert(self@ =~~= old(self)@.commit().0);
                                }
                            },
                            None => {
                                self.overlay = Overlay::Normal;
                                proof {
                                    assert(self@ =~~= old(self)@.commit().0);
                                }
                            },
                        }
                        false
                    },
                }
            },
        }
    }

    /// Apply one decoded key: the overlay intercepts input before it
    /// reaches the document, and the returned action tells the caller
    /// whether to go on, quit, save, or paste.
    pub fn handle_key(&mut self, key: KeyInput) -> (act: Action)
        requires
            old(self)@.wf(),
        ensures
            final(self)@ == old(self)@.step(key).0,
            act == old(self)@.step(key).1,
            final(self)@.wf(),
    {
        match key {
            KeyInput::CtrlQuit => {
                if self.dirty {
                    self.prompt(PromptType::UnsavedQuit);
                    Action::Continue
                } else {
                    Action::Quit
                }
            },
            KeyInput::CtrlSave => Action::Save,
            KeyInput::CtrlFind => {
                self.prompt(PromptType::Find);
                Action::Continue
            },
            KeyInput::CtrlHelp => {
                self.popup(PromptType::Help);
                Action::Continue
            },
            KeyInput::CtrlGoto => {
                self.prompt(PromptType::GoToLine);
                Action::Continue
            },
            KeyInput::CtrlPaste => Action::Paste,
            KeyInput::CtrlSwapDown => {
                if matches!(self.overlay, Overlay::Normal) {
                    self.swap_down();
                }
                Action::Continue
            },
            KeyInput::CtrlSwapUp => {
                if matches!(self.overlay, Overlay::Normal) {
                    self.swap_up();
                }
                Action::Continue
            },
            KeyInput::Char(c) => {
                self.push_char(c);
                Action::Continue
            },
            KeyInput::Tab => {
                self.push_char('\t');
                Action::Continue
            },
            KeyInput::Backspace => {
                self.pop_char();
                Action::Continue
            },
            KeyInput::Delete => {
                self.pop_char_del();
                Action::Continue
            },
            KeyInput::Enter => {
                if self.enter_key() {
                    Action::Quit
                } else {
                    Action::Continue
                }
            },
            KeyInput::Escape => {
                self.overlay = Overlay::Normal;
                proof {
                    assert(self@ =~~= old(self)@.close_overlay());
                }
                Action::Continue
            },
            KeyInput::Up => {
                if matches!(self.overlay, Overlay::Normal) {
                    self.cursor_vertical(-1);
                }
                Action::Continue
            },
            KeyInput::Down => {
                if matches!(self.overlay, Overlay::Normal) {
                    self.cursor_vertical(1);
                }
                Action::Continue
            },
            KeyInput::Left => {
                if matches!(self.overlay, Overlay::Normal) {
                    self.cursor_horizontal(-1);
                }
                Action::Continue
            },
            KeyInput::Right => {
                if matches!(self.overlay, Overlay::Normal) {
                    self.cursor_horizontal(1);
                }
                Action::Continue
            },
            KeyInput::ShiftLeft => {
                if matches!(self.overlay, Overlay::Normal) {
                    self.highlight_horizontal(-1);
                }
                Action::Continue
            },
            KeyInput::ShiftRight => {
                if matches!(self.overlay, Overlay::Normal) {
                    self.highlight_horizontal(1);
                }
                Action::Continue
            },
        }
    }

    /// How many lines the document holds.
    pub fn line_count(&self) -> (n: usize)
        ensures
            n == self@.lines.len(),
    {
        self.text.len()
    }

    /// The line at row `i`.
    pub fn line(&self, i: usize) -> (l: &Vec<char>)
        requires
            i < self@.lines.len(),
        ensures
            l@ == self@.lines[i as int],
    {
        &self.text[i]
    }

    /// The caret position.
    pub fn cursor(&self) -> (p: Position)
        ensures
            p.row as int == self@.cursor.row,
            p.col as int == self@.cursor.col,
    {
        self.cursor
    }

    /// The selection anchor position.
    pub fn anchor(&self) -> (p: Position)
        ensures
            p.row as int == self@.anchor.row,
            p.col as int == self@.anchor.col,
    {
        self.highlight
    }

    /// The first visible row.
    pub fn scroll_offset(&self) -> (s: usize)
        ensures
            s as int == self@.scroll,
    {
        self.scroll
    }

    /// The terminal height the viewport was last reconciled for.
    pub fn terminal_height(&self) -> (h: usize)
        ensures
            h as int == self@.height,
    {
        self.height
    }

    /// Are there unsaved changes?
    pub fn is_dirty(&self) -> (d: bool)
        ensures
            d == self@.dirty,
    {
        self.dirty
    }

    /// The transient status message.
    pub fn status(&self) -> (st: StatusMessage)
        ensures
            st == self@.status,
    {
        self.status
    }

    /// The overlay slot.
    pub fn overlay(&self) -> (ov: &Overlay)
        ensures
            ov@ == self@.overlay,
    {
        &self.overlay
    }
}

} // verus!
