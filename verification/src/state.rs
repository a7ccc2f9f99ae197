//! The editor's state model: the concrete types an editor value is made
//! of, their mathematical views, the well-formedness invariant, and a
//! specification of every editing, navigation, search and overlay
//! operation as a function on the view.
use vstd::prelude::*;

use crate::text::{is_yes, parse_u16, scan_lines};

verus! {

/// What a modal overlay asks for.
#[derive(Clone, Copy, PartialEq, Eq, Structural, Debug)]
pub enum PromptType {
    UnsavedQuit,
    Find,
    Help,
    GoToLine,
}

/// An open prompt or popup: its kind and the input typed so far.
#[derive(Clone, Debug, PartialEq)]
pub struct Prompt {
    pub prompt: PromptType,
    pub buf: Vec<char>,
}

/// The single modal overlay slot: either no overlay, one prompt, or one
/// popup. One field holding this makes two simultaneous overlays
/// unrepresentable.
#[derive(Clone, Debug, PartialEq)]
pub enum Overlay {
    Normal,
    Prompt(Prompt),
    Popup(Prompt),
}

/// A caret position: row into the document, column into that row's line.
/// The column may equal the line's length (caret after the last
/// character).
#[derive(Clone, Copy, PartialEq, Eq, Structural, Debug)]
pub struct Position {
    pub row: usize,
    pub col: usize,
}

/// The transient message shown in the footer.
#[derive(Clone, Copy, PartialEq, Eq, Structural, Debug)]
pub enum StatusMessage {
    Empty,
    Saved,
    NotFound,
}

/// A decoded key event, as the input loop hands it to the editor.
#[derive(Clone, Copy, PartialEq, Eq, Structural, Debug)]
pub enum KeyInput {
    Char(char),
    Tab,
    Backspace,
    Delete,
    Enter,
    Escape,
    Up,
    Down,
    Left,
    Right,
    ShiftLeft,
    ShiftRight,
    CtrlQuit,
    CtrlSave,
    CtrlFind,
    CtrlHelp,
    CtrlGoto,
    CtrlPaste,
    CtrlSwapDown,
    CtrlSwapUp,
}

/// What the caller must do after a key has been applied.
#[derive(Clone, Copy, PartialEq, Eq, Structural, Debug)]
pub enum Action {
    Continue,
    Quit,
    Save,
    Paste,
}

/// The view of a caret position.
pub ghost struct PosV {
    pub row: int,
    pub col: int,
}

/// The view of the overlay slot.
pub ghost enum OverlayV {
    Normal,
    Prompt(PromptType, Seq<char>),
    Popup(PromptType, Seq<char>),
}

/// The mathematical view of the whole editor state.
#[verifier::ext_equal]
pub ghost struct FoxV {
    pub lines: Seq<Seq<char>>,
    pub cursor: PosV,
    pub anchor: PosV,
    pub scroll: int,
    pub height: int,
    pub dirty: bool,
    pub overlay: OverlayV,
    pub status: StatusMessage,
}

impl View for Overlay {
    type V = OverlayV;

    open spec fn view(&self) -> OverlayV {
        match self {
            Overlay::Normal => OverlayV::Normal,
            Overlay::Prompt(p) => OverlayV::Prompt(p.prompt, p.buf@),
            Overlay::Popup(p) => OverlayV::Popup(p.prompt, p.buf@),
        }
    }
}

/// Does `a` come no later than `b` in reading order?
pub open spec fn pos_le(a: PosV, b: PosV) -> bool {
    a.row < b.row || (a.row == b.row && a.col <= b.col)
}

/// How many document rows fit in a terminal of `height` rows, with one
/// header and one footer row reserved; at least one.
pub open spec fn visible_of(height: int) -> int {
    if height >= 3 {
        height - 2
    } else {
        1
    }
}

/// As `visible_of`, but with a third row reserved at the bottom, as the
/// search result presentation wants.
pub open spec fn visible_find_of(height: int) -> int {
    if height >= 4 {
        height - 3
    } else {
        1
    }
}

/// The scroll offset after bringing `row` into a window of `visible`
/// rows: unchanged when `row` is already inside, moved up to `row` when
/// the row is above, and moved down just far enough when it is below.
pub open spec fn reconcile(scroll: int, row: int, visible: int) -> int {
    if row < scroll {
        row
    } else if row >= scroll + visible {
        row - visible + 1
    } else {
        scroll
    }
}

impl FoxV {
    /// Rows visible at once under this state's terminal height.
    pub open spec fn visible(self) -> int {
        visible_of(self.height)
    }

    /// The line the cursor is on.
    pub open spec fn cur_line(self) -> Seq<char> {
        self.lines[self.cursor.row]
    }

    /// Is `p` a valid caret position in this document?
    pub open spec fn pos_wf(self, p: PosV) -> bool {
        &&& 0 <= p.row < self.lines.len()
        &&& 0 <= p.col <= self.lines[p.row].len()
    }

    /// The state invariant: at least one line exists, cursor and anchor
    /// are valid positions, and the cursor row lies inside the window
    /// that starts at the scroll offset.
    pub open spec fn wf(self) -> bool {
        &&& self.lines.len() >= 1
        &&& self.pos_wf(self.cursor)
        &&& self.pos_wf(self.anchor)
        &&& 0 <= self.scroll <= self.cursor.row
        &&& self.cursor.row < self.scroll + self.visible()
        &&& self.height >= 0
    }

    /// Is the selection empty?
    pub open spec fn sel_empty(self) -> bool {
        self.anchor == self.cursor
    }

    /// The earlier endpoint of the selection, in reading order.
    pub open spec fn sel_start(self) -> PosV {
        if pos_le(self.anchor, self.cursor) {
            self.anchor
        } else {
            self.cursor
        }
    }

    /// The later endpoint of the selection, in reading order.
    pub open spec fn sel_end(self) -> PosV {
        if pos_le(self.anchor, self.cursor) {
            self.cursor
        } else {
            self.anchor
        }
    }

    /// Delete the selected range: within one row the column range goes;
    /// across rows the two partial lines merge into one and the rows
    /// between them go. Cursor and anchor collapse to the range start.
    pub open spec fn delete_selection(self) -> FoxV {
        let s = self.sel_start();
        let e = self.sel_end();
        let nline = self.lines[s.row].take(s.col) + self.lines[e.row].skip(e.col);
        let nlines = self.lines.take(s.row) + seq![nline] + self.lines.skip(e.row + 1);
        FoxV {
            lines: nlines,
            cursor: s,
            anchor: s,
            dirty: true,
            scroll: reconcile(self.scroll, s.row, self.visible()),
            ..self
        }
    }

    /// Insert `c` at the cursor, first deleting an active selection;
    /// the cursor advances one column.
    pub open spec fn insert_char(self, c: char) -> FoxV {
        let v = if self.sel_empty() {
            self
        } else {
            self.delete_selection()
        };
        let nline = v.lines[v.cursor.row].insert(v.cursor.col, c);
        let ncur = PosV { row: v.cursor.row, col: v.cursor.col + 1 };
        FoxV {
            lines: v.lines.update(v.cursor.row, nline),
            cursor: ncur,
            anchor: ncur,
            dirty: true,
            ..v
        }
    }

    /// A typed character: appended to an open overlay's input, otherwise
    /// inserted into the document.
    pub open spec fn push_char(self, c: char) -> FoxV {
        match self.overlay {
            OverlayV::Normal => self.insert_char(c),
            OverlayV::Prompt(k, b) => FoxV { overlay: OverlayV::Prompt(k, b.push(c)), ..self },
            OverlayV::Popup(k, b) => FoxV { overlay: OverlayV::Popup(k, b.push(c)), ..self },
        }
    }

    /// Delete backward in the document: an active selection is deleted;
    /// else the character before the cursor goes; else, at the start of
    /// a line that is not the first, the line merges into the previous
    /// one. At the very start of the document nothing happens.
    pub open spec fn delete_backward(self) -> FoxV {
        if !self.sel_empty() {
            self.delete_selection()
        } else if self.cursor.col > 0 {
            let nline = self.cur_line().remove(self.cursor.col - 1);
            let ncur = PosV { row: self.cursor.row, col: self.cursor.col - 1 };
            FoxV {
                lines: self.lines.update(self.cursor.row, nline),
                cursor: ncur,
                anchor: ncur,
                dirty: true,
                ..self
            }
        } else if self.cursor.row > 0 {
            let r = self.cursor.row;
            let nline = self.lines[r - 1] + self.lines[r];
            let nlines = self.lines.take(r - 1) + seq![nline] + self.lines.skip(r + 1);
            let ncur = PosV { row: r - 1, col: self.lines[r - 1].len() as int };
            FoxV {
                lines: nlines,
                cursor: ncur,
                anchor: ncur,
                dirty: true,
                scroll: reconcile(self.scroll, r - 1, self.visible()),
                ..self
            }
        } else {
            self
        }
    }

    /// Backspace: shortens an open overlay's input, otherwise deletes
    /// backward in the document.
    pub open spec fn pop_char(self) -> FoxV {
        match self.overlay {
            OverlayV::Normal => self.delete_backward(),
            OverlayV::Prompt(k, b) => FoxV {
                overlay: OverlayV::Prompt(k, if b.len() > 0 { b.drop_last() } else { b }),
                ..self
            },
            OverlayV::Popup(k, b) => FoxV {
                overlay: OverlayV::Popup(k, if b.len() > 0 { b.drop_last() } else { b }),
                ..self
            },
        }
    }

    /// Delete forward in the document: an active selection is deleted;
    /// else the character at the cursor goes; else, at the end of a line
    /// that is not the last, the next line merges into this one. At the
    /// very end of the document nothing happens.
    pub open spec fn delete_forward(self) -> FoxV {
        if !self.sel_empty() {
            self.delete_selection()
        } else if self.cursor.col < self.cur_line().len() {
            FoxV {
                lines: self.lines.update(self.cursor.row, self.cur_line().remove(self.cursor.col)),
                dirty: true,
                ..self
            }
        } else if self.cursor.row + 1 < self.lines.len() {
            let r = self.cursor.row;
            let nline = self.lines[r] + self.lines[r + 1];
            FoxV { lines: self.lines.update(r, nline).remove(r + 1), dirty: true, ..self }
        } else {
            self
        }
    }

    /// The delete key: ignored while an overlay is open, otherwise a
    /// forward delete.
    pub open spec fn pop_char_del(self) -> FoxV {
        match self.overlay {
            OverlayV::Normal => self.delete_forward(),
            _ => self,
        }
    }

    /// Split the cursor's line at the cursor column; the right part
    /// becomes a new line below and the cursor moves to its start.
    pub open spec fn split_line(self) -> FoxV {
        let line = self.cur_line();
        let r = self.cursor.row;
        let nlines = self.lines.update(r, line.take(self.cursor.col)).insert(
            r + 1,
            line.skip(self.cursor.col),
        );
        let ncur = PosV { row: r + 1, col: 0 };
        FoxV {
            lines: nlines,
            cursor: ncur,
            anchor: ncur,
            dirty: true,
            scroll: reconcile(self.scroll, r + 1, self.visible()),
            ..self
        }
    }

    /// Move the caret to column 0 of its row; the selection collapses.
    pub open spec fn cursor_start_of_line(self) -> FoxV {
        let p = PosV { row: self.cursor.row, col: 0 };
        FoxV { cursor: p, anchor: p, ..self }
    }

    /// Move the caret past the last character of its row; the selection
    /// collapses.
    pub open spec fn cursor_end_of_line(self) -> FoxV {
        let p = PosV { row: self.cursor.row, col: self.cur_line().len() as int };
        FoxV { cursor: p, anchor: p, ..self }
    }

    /// Move the caret `delta` rows, clamped to the document; the column
    /// is clamped to the new line's length, the selection collapses, and
    /// the viewport follows the new row.
    pub open spec fn cursor_vertical(self, delta: int) -> FoxV {
        let last = self.lines.len() - 1;
        let t = self.cursor.row + delta;
        let r = if t < 0 {
            0
        } else if t > last {
            last
        } else {
            t
        };
        let c = if self.cursor.col > self.lines[r].len() {
            self.lines[r].len() as int
        } else {
            self.cursor.col
        };
        let p = PosV { row: r, col: c };
        FoxV { cursor: p, anchor: p, scroll: reconcile(self.scroll, r, self.visible()), ..self }
    }

    /// Move the caret `delta` columns. With a selection active the caret
    /// only collapses to the selection's start (moving left) or end
    /// (moving right). Without one, the move wraps to the end of the
    /// previous line or the start of the next line at the boundaries,
    /// and is clamped at the document's corners.
    pub open spec fn cursor_horizontal(self, delta: int) -> FoxV {
        if !self.sel_empty() {
            let p = if delta > 0 {
                self.sel_end()
            } else {
                self.sel_start()
            };
            FoxV {
                cursor: p,
                anchor: p,
                scroll: reconcile(self.scroll, p.row, self.visible()),
                ..self
            }
        } else {
            let t = self.cursor.col + delta;
            let p = if t < 0 {
                if self.cursor.row > 0 {
                    PosV {
                        row: self.cursor.row - 1,
                        col: self.lines[self.cursor.row - 1].len() as int,
                    }
                } else {
                    PosV { row: 0, col: 0 }
                }
            } else if t > self.cur_line().len() {
                if self.cursor.row + 1 < self.lines.len() {
                    PosV { row: self.cursor.row + 1, col: 0 }
                } else {
                    PosV { row: self.cursor.row, col: self.cur_line().len() as int }
                }
            } else {
                PosV { row: self.cursor.row, col: t }
            };
            FoxV {
                cursor: p,
                anchor: p,
                scroll: reconcile(self.scroll, p.row, self.visible()),
                ..self
            }
        }
    }

    /// Grow or shrink the selection by moving only the anchor `delta`
    /// columns; the caret does not move. Past the ends of the anchor's
    /// line the anchor wraps to the start of the next line or the end of
    /// the previous one, so a selection can span several rows; at the
    /// document's corners the move is clamped.
    pub open spec fn highlight_horizontal(self, delta: int) -> FoxV {
        let m = self.lines[self.anchor.row].len() as int;
        let t = self.anchor.col + delta;
        let p = if t < 0 {
            if self.anchor.row > 0 {
                PosV { row: self.anchor.row - 1, col: self.lines[self.anchor.row - 1].len() as int }
            } else {
                PosV { row: 0, col: 0 }
            }
        } else if t > m {
            if self.anchor.row + 1 < self.lines.len() {
                PosV { row: self.anchor.row + 1, col: 0 }
            } else {
                PosV { row: self.anchor.row, col: m }
            }
        } else {
            PosV { row: self.anchor.row, col: t }
        };
        FoxV { anchor: p, ..self }
    }

    /// Jump to row `n`, clamped to the last row; the caret goes to
    /// column 0, the selection collapses, and the viewport follows.
    pub open spec fn go_to_line(self, n: int) -> FoxV {
        let last = self.lines.len() - 1;
        let r = if n > last {
            last
        } else {
            n
        };
        let p = PosV { row: r, col: 0 };
        FoxV { cursor: p, anchor: p, scroll: reconcile(self.scroll, r, self.visible()), ..self }
    }

    /// Exchange the caret's line with the one below and follow it down;
    /// at the last row nothing happens.
    pub open spec fn swap_down(self) -> FoxV {
        if self.cursor.row + 1 < self.lines.len() {
            let r = self.cursor.row;
            let nlines = self.lines.update(r, self.lines[r + 1]).update(r + 1, self.lines[r]);
            let p = PosV { row: r + 1, col: self.cursor.col };
            FoxV {
                lines: nlines,
                cursor: p,
                anchor: p,
                dirty: true,
                scroll: reconcile(self.scroll, r + 1, self.visible()),
                ..self
            }
        } else {
            self
        }
    }

    /// Exchange the caret's line with the one above and follow it up;
    /// at the first row nothing happens.
    pub open spec fn swap_up(self) -> FoxV {
        if self.cursor.row > 0 {
            let r = self.cursor.row;
            let nlines = self.lines.update(r - 1, self.lines[r]).update(r, self.lines[r - 1]);
            let p = PosV { row: r - 1, col: self.cursor.col };
            FoxV {
                lines: nlines,
                cursor: p,
                anchor: p,
                dirty: true,
                scroll: reconcile(self.scroll, r - 1, self.visible()),
                ..self
            }
        } else {
            self
        }
    }

    /// Where a forward search for `pat` from the cursor first hits:
    /// scanned from the cursor (its own line only at or after the cursor
    /// column) to the end, then wrapped from row 0 up to, excluding, the
    /// cursor row.
    pub open spec fn find_hit(self, pat: Seq<char>) -> Option<(int, int)> {
        match scan_lines(self.lines, pat, self.cursor.row, self.lines.len() as int, self.cursor.col) {
            Some(p) => Some(p),
            None => scan_lines(self.lines, pat, 0, self.cursor.row, 0),
        }
    }

    /// Move to the first hit of a forward search with wraparound: the
    /// selection brackets the match and the viewport follows with an
    /// extra bottom margin. Without a hit nothing changes.
    pub open spec fn find_next(self, pat: Seq<char>) -> FoxV {
        match self.find_hit(pat) {
            Some(p) => FoxV {
                cursor: PosV { row: p.0, col: p.1 + pat.len() },
                anchor: PosV { row: p.0, col: p.1 },
                scroll: reconcile(self.scroll, p.0, visible_find_of(self.height)),
                ..self
            },
            None => self,
        }
    }

    /// Open a prompt of kind `kind` with an empty input; refused while
    /// any overlay is already open.
    pub open spec fn open_prompt(self, kind: PromptType) -> FoxV {
        if self.overlay is Normal {
            FoxV { overlay: OverlayV::Prompt(kind, Seq::empty()), ..self }
        } else {
            self
        }
    }

    /// Open a popup of kind `kind` with an empty input; refused while
    /// any overlay is already open.
    pub open spec fn open_popup(self, kind: PromptType) -> FoxV {
        if self.overlay is Normal {
            FoxV { overlay: OverlayV::Popup(kind, Seq::empty()), ..self }
        } else {
            self
        }
    }

    /// Close whatever overlay is open.
    pub open spec fn close_overlay(self) -> FoxV {
        FoxV { overlay: OverlayV::Normal, ..self }
    }

    /// A successful save: the document is clean again and says so.
    pub open spec fn mark_saved(self) -> FoxV {
        FoxV { dirty: false, status: StatusMessage::Saved, ..self }
    }

    /// The transient status has been shown and is cleared for the next
    /// frame.
    pub open spec fn clear_status(self) -> FoxV {
        FoxV { status: StatusMessage::Empty, ..self }
    }

    /// A new terminal height; the viewport is brought back over the
    /// cursor under the new window size.
    pub open spec fn set_height(self, h: int) -> FoxV {
        FoxV { height: h, scroll: reconcile(self.scroll, self.cursor.row, visible_of(h)), ..self }
    }

    /// Committing an open overlay of kind `kind` with input `buf`.
    /// Confirmation: "y", "ye" or "yes" ends the session, anything else
    /// keeps the prompt open. Search: a hit moves there and closes the
    /// prompt, a miss keeps it open and reports not-found. Go-to-line:
    /// a parsed number jumps (1-based, clamped), and the prompt closes
    /// whether or not the input parsed. Help: just closes.
    pub open spec fn commit_overlay(self, kind: PromptType, buf: Seq<char>) -> (FoxV, bool) {
        match kind {
            PromptType::UnsavedQuit => if is_yes(buf) {
                (self, true)
            } else {
                (self, false)
            },
            PromptType::Find => if self.find_hit(buf) is Some {
                (self.find_next(buf).close_overlay(), false)
            } else {
                (FoxV { status: StatusMessage::NotFound, ..self }, false)
            },
            PromptType::Help => (self.close_overlay(), false),
            PromptType::GoToLine => match parse_u16(buf) {
                Some(n) => (
                    self.go_to_line(if n >= 1 { n as int - 1 } else { 0 }).close_overlay(),
                    false,
                ),
                None => (self.close_overlay(), false),
            },
        }
    }

    /// The enter key: with no overlay it splits the line; with an
    /// overlay open it commits the overlay. The second component says
    /// whether the session ends.
    pub open spec fn commit(self) -> (FoxV, bool) {
        match self.overlay {
            OverlayV::Normal => (self.split_line(), false),
            OverlayV::Prompt(kind, buf) => self.commit_overlay(kind, buf),
            OverlayV::Popup(kind, buf) => self.commit_overlay(kind, buf),
        }
    }

    /// One step of the editor's input handling: what the state becomes
    /// and what the caller must do. While an overlay is open, document
    /// edits and navigation are not routed to the document.
    pub open spec fn step(self, key: KeyInput) -> (FoxV, Action) {
        match key {
            KeyInput::CtrlQuit => if self.dirty {
                (self.open_prompt(PromptType::UnsavedQuit), Action::Continue)
            } else {
                (self, Action::Quit)
            },
            KeyInput::CtrlSave => (self, Action::Save),
            KeyInput::CtrlFind => (self.open_prompt(PromptType::Find), Action::Continue),
            KeyInput::CtrlHelp => (self.open_popup(PromptType::Help), Action::Continue),
            KeyInput::CtrlGoto => (self.open_prompt(PromptType::GoToLine), Action::Continue),
            KeyInput::CtrlPaste => (self, Action::Paste),
            KeyInput::CtrlSwapDown => if self.overlay is Normal {
                (self.swap_down(), Action::Continue)
            } else {
                (self, Action::Continue)
            },
            KeyInput::CtrlSwapUp => if self.overlay is Normal {
                (self.swap_up(), Action::Continue)
            } else {
                (self, Action::Continue)
            },
            KeyInput::Char(c) => (self.push_char(c), Action::Continue),
            KeyInput::Tab => (self.push_char('\t'), Action::Continue),
            KeyInput::Backspace => (self.pop_char(), Action::Continue),
            KeyInput::Delete => (self.pop_char_del(), Action::Continue),
            KeyInput::Enter => {
                let r = self.commit();
                (r.0, if r.1 {
                    Action::Quit
                } else {
                    Action::Continue
                })
            },
            KeyInput::Escape => (self.close_overlay(), Action::Continue),
            KeyInput::Up => if self.overlay is Normal {
                (self.cursor_vertical(-1), Action::Continue)
            } else {
                (self, Action::Continue)
            },
            KeyInput::Down => if self.overlay is Normal {
                (self.cursor_vertical(1), Action::Continue)
            } else {
                (self, Action::Continue)
            },
            KeyInput::Left => if self.overlay is Normal {
                (self.cursor_horizontal(-1), Action::Continue)
            } else {
                (self, Action::Continue)
            },
            KeyInput::Right => if self.overlay is Normal {
                (self.cursor_horizontal(1), Action::Continue)
            } else {
                (self, Action::Continue)
            },
            KeyInput::ShiftLeft => if self.overlay is Normal {
                (self.highlight_horizontal(-1), Action::Continue)
            } else {
                (self, Action::Continue)
            },
            KeyInput::ShiftRight => if self.overlay is Normal {
                (self.highlight_horizontal(1), Action::Continue)
            } else {
                (self, Action::Continue)
            },
        }
    }
}

} // verus!
