//! Laws that relate several operations of the editor, proved over the
//! state views that the operations' own contracts use.
use vstd::prelude::*;

use crate::state::{FoxV, OverlayV};
use crate::text::{lemma_scan_lines_none, lemma_scan_lines_ok, match_at};

verus! {

/// Typing a character and immediately pressing backspace restores the
/// whole editor state - document, caret, anchor and viewport alike -
/// except that the document is now marked dirty.
pub proof fn lemma_insert_backspace_roundtrip(v: FoxV, c: char)
    requires
        v.wf(),
        v.overlay is Normal,
        v.sel_empty(),
    ensures
        v.push_char(c).pop_char() == (FoxV { dirty: true, ..v }),
{
    let r = v.cursor.row;
    let col = v.cursor.col;
    let line = v.lines[r];
    let v1 = v.push_char(c);
    assert(v1.lines == v.lines.update(r, line.insert(col, c)));
    assert(v1.cursor.col == col + 1 > 0);
    assert(v1.sel_empty());
    let v2 = v1.pop_char();
    assert(line.insert(col, c).remove(col) =~= line);
    assert(v2.lines =~~= v.lines);
    assert(v2 =~~= (FoxV { dirty: true, ..v }));
}

/// A search that reports no hit really has none: wherever the pattern
/// occurs in the document, it can only be in the cursor's row strictly
/// before the cursor's column - the one region the wraparound search
/// leaves out.
pub proof fn lemma_find_miss(v: FoxV, pat: Seq<char>)
    requires
        v.wf(),
        v.find_hit(pat) is None,
    ensures
        forall|r: int, c: int|
            0 <= r < v.lines.len() && #[trigger] match_at(v.lines[r], pat, c)
                ==> r == v.cursor.row && c < v.cursor.col,
{
    lemma_scan_lines_none(v.lines, pat, v.cursor.row, v.lines.len() as int, v.cursor.col);
    lemma_scan_lines_none(v.lines, pat, 0, v.cursor.row, 0);
    assert forall|r: int, c: int|
        0 <= r < v.lines.len() && #[trigger] match_at(v.lines[r], pat, c)
            implies r == v.cursor.row && c < v.cursor.col by {
        assert(c >= 0);
        if r > v.cursor.row {
            assert(!match_at(v.lines[r], pat, c));
        } else if r < v.cursor.row {
            assert(!match_at(v.lines[r], pat, c));
        } else {
            if c >= v.cursor.col {
                assert(!match_at(v.lines[r], pat, c));
            }
        }
    }
}

/// A search that reports a hit points at a real occurrence: the hit lies
/// in the document, the pattern occurs exactly there, and after the move
/// the selection brackets that occurrence.
pub proof fn lemma_find_hit(v: FoxV, pat: Seq<char>)
    requires
        v.wf(),
        v.find_hit(pat) is Some,
    ensures
        ({
            let (r, c) = v.find_hit(pat)->Some_0;
            &&& 0 <= r < v.lines.len()
            &&& match_at(v.lines[r], pat, c)
            &&& v.find_next(pat).anchor == (crate::state::PosV { row: r, col: c })
            &&& v.find_next(pat).cursor == (crate::state::PosV { row: r, col: c + pat.len() })
            &&& v.find_next(pat).lines == v.lines
        }),
{
    let first = crate::text::scan_lines(
        v.lines,
        pat,
        v.cursor.row,
        v.lines.len() as int,
        v.cursor.col,
    );
    if first is Some {
        lemma_scan_lines_ok(v.lines, pat, v.cursor.row, v.lines.len() as int, v.cursor.col);
    } else {
        lemma_scan_lines_ok(v.lines, pat, 0, v.cursor.row, 0);
    }
}

} // verus!
