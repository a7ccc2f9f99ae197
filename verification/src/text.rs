//! Pure text utilities for the editor core: cutting a text into lines and
//! joining lines back into a text, literal substring search over lines, and
//! parsing a line number typed into a prompt.
use vstd::prelude::*;

verus! {

/// The sequence of line views of a vector of lines.
pub open spec fn lines_view(text: Seq<Vec<char>>) -> Seq<Seq<char>> {
    Seq::new(text.len(), |i: int| text[i]@)
}

/// Index of the first line break in `text`, or -1 if there is none.
pub open spec fn first_newline(text: Seq<char>) -> int
    decreases text.len(),
{
    if text.len() == 0 {
        -1
    } else if text[0] == '\n' {
        0
    } else {
        let r = first_newline(text.drop_first());
        if r < 0 {
            -1
        } else {
            r + 1
        }
    }
}

/// `first_newline` returns the position of the first line break:
/// an in-range index of a line break with none before it, or -1 when
/// the text holds no line break at all.
pub proof fn lemma_first_newline(text: Seq<char>)
    ensures
        -1 <= first_newline(text) < text.len(),
        first_newline(text) >= 0 ==> text[first_newline(text)] == '\n',
        forall|j: int| 0 <= j < first_newline(text) ==> text[j] != '\n',
        first_newline(text) < 0 ==> forall|j: int| 0 <= j < text.len() ==> text[j] != '\n',
    decreases text.len(),
{
    if text.len() == 0 {
    } else if text[0] == '\n' {
    } else {
        lemma_first_newline(text.drop_first());
        assert forall|j: int| 0 <= j < first_newline(text) implies text[j] != '\n' by {
            if j > 0 {
                assert(text.drop_first()[j - 1] == text[j]);
            }
        }
        if first_newline(text) < 0 {
            assert forall|j: int| 0 <= j < text.len() implies text[j] != '\n' by {
                if j > 0 {
                    assert(text.drop_first()[j - 1] == text[j]);
                }
            }
        }
    }
}

/// `text` cut at line breaks. A text without a line break is a single
/// line, so the result always holds at least one line; the line breaks
/// themselves are not part of any line.
pub open spec fn split_lines(text: Seq<char>) -> Seq<Seq<char>>
    decreases text.len(),
{
    let i = first_newline(text);
    if 0 <= i < text.len() {
        seq![text.take(i)] + split_lines(text.skip(i + 1))
    } else {
        seq![text]
    }
}

/// Splitting yields at least one line.
pub proof fn lemma_split_lines_len(text: Seq<char>)
    ensures
        split_lines(text).len() >= 1,
    decreases text.len(),
{
    let i = first_newline(text);
    if 0 <= i < text.len() {
        lemma_split_lines_len(text.skip(i + 1));
    }
}

/// When `text` starts with `k` characters free of line breaks followed by
/// a line break, the first line of `split_lines(text)` is exactly that
/// prefix and the remaining lines split the rest.
pub proof fn lemma_split_lines_step(text: Seq<char>, k: int)
    requires
        0 <= k < text.len(),
        text[k] == '\n',
        forall|j: int| 0 <= j < k ==> text[j] != '\n',
    ensures
        split_lines(text) == seq![text.take(k)] + split_lines(text.skip(k + 1)),
{
    lemma_first_newline(text);
    let i = first_newline(text);
    if i < 0 {
    } else if i < k {
        assert(text[i] == '\n');
    } else if i > k {
        assert(text[k] != '\n');
    }
    assert(i == k);
}

/// A text free of line breaks splits into itself as the single line.
pub proof fn lemma_split_lines_whole(text: Seq<char>)
    requires
        forall|j: int| 0 <= j < text.len() ==> text[j] != '\n',
    ensures
        split_lines(text) == seq![text],
{
    lemma_first_newline(text);
    let i = first_newline(text);
    if 0 <= i < text.len() {
        assert(text[i] == '\n');
    }
}

/// Lines joined with a single line break between consecutive lines, and
/// none after the last line.
pub open spec fn join_lines(lines: Seq<Seq<char>>) -> Seq<char>
    decreases lines.len(),
{
    if lines.len() == 0 {
        Seq::empty()
    } else if lines.len() == 1 {
        lines[0]
    } else {
        join_lines(lines.drop_last()) + seq!['\n'] + lines.last()
    }
}

/// Unfolding `join_lines` from the front instead of the back.
pub proof fn lemma_join_lines_first(lines: Seq<Seq<char>>)
    requires
        lines.len() >= 2,
    ensures
        join_lines(lines) == lines[0] + seq!['\n'] + join_lines(lines.drop_first()),
    decreases lines.len(),
{
    if lines.len() == 2 {
        assert(lines.drop_last() =~= seq![lines[0]]);
        assert(lines.drop_first() =~= seq![lines[1]]);
        assert(join_lines(seq![lines[0]]) == lines[0]);
        assert(join_lines(seq![lines[1]]) == lines[1]);
    } else {
        let dl = lines.drop_last();
        let df = lines.drop_first();
        lemma_join_lines_first(dl);
        assert(dl.drop_first() =~= df.drop_last());
        assert(df.last() == lines.last());
        assert(join_lines(df) == join_lines(df.drop_last()) + seq!['\n'] + df.last());
        assert(
            (lines[0] + seq!['\n'] + join_lines(df.drop_last())) + seq!['\n'] + lines.last()
            =~= lines[0] + seq!['\n'] + (join_lines(df.drop_last()) + seq!['\n'] + df.last())
        );
    }
}

/// Saving joins the document's lines with single line breaks; loading
/// splits the text back into lines. For any document whose lines hold no
/// line break, the round trip returns exactly the original lines.
pub proof fn lemma_split_join_roundtrip(lines: Seq<Seq<char>>)
    requires
        lines.len() >= 1,
        forall|i: int| 0 <= i < lines.len() ==> !(#[trigger] lines[i]).contains('\n'),
    ensures
        split_lines(join_lines(lines)) == lines,
    decreases lines.len(),
{
    if lines.len() == 1 {
        assert(!lines[0].contains('\n'));
        assert forall|j: int| 0 <= j < lines[0].len() implies lines[0][j] != '\n' by {
            if lines[0][j] == '\n' {
                assert(lines[0].contains('\n'));
            }
        }
        lemma_split_lines_whole(lines[0]);
        assert(split_lines(join_lines(lines)) =~= lines);
    } else {
        let first = lines[0];
        let rest = lines.drop_first();
        let t = join_lines(lines);
        lemma_join_lines_first(lines);
        assert(!lines[0].contains('\n'));
        assert forall|j: int| 0 <= j < first.len() implies t[j] != '\n' by {
            assert(t[j] == first[j]);
            if first[j] == '\n' {
                assert(first.contains('\n'));
            }
        }
        assert(t[first.len() as int] == '\n');
        lemma_split_lines_step(t, first.len() as int);
        assert(t.take(first.len() as int) =~= first);
        assert(t.skip(first.len() as int + 1) =~= join_lines(rest));
        assert(forall|i: int| 0 <= i < rest.len() ==> rest[i] =~= lines[i + 1]);
        lemma_split_join_roundtrip(rest);
        assert(split_lines(t) =~= lines);
    }
}

/// Cut `text` into its lines, as a document loader does.
pub fn split_text(text: &Vec<char>) -> (lines: Vec<Vec<char>>)
    ensures
        lines_view(lines@) == split_lines(text@),
        lines@.len() >= 1,
{
    let mut lines: Vec<Vec<char>> = Vec::new();
    let mut cur: Vec<char> = Vec::new();
    let mut i: usize = 0;
    proof {
        assert(cur@ + text@.skip(0) =~= text@);
    }
    while i < text.len()
        invariant
            0 <= i <= text@.len(),
            forall|j: int| 0 <= j < cur@.len() ==> cur@[j] != '\n',
            split_lines(text@) == lines_view(lines@) + split_lines(cur@ + text@.skip(i as int)),
        decreases text@.len() - i,
    {
        let c = text[i];
        if c == '\n' {
            proof {
                let t = cur@ + text@.skip(i as int);
                assert(t[cur@.len() as int] == '\n');
                lemma_split_lines_step(t, cur@.len() as int);
                assert(t.take(cur@.len() as int) =~= cur@);
                assert(t.skip(cur@.len() as int + 1) =~= text@.skip(i + 1));
                assert(lines_view(lines@.push(cur)) =~= lines_view(lines@) + seq![cur@]);
                assert(lines_view(lines@) + (seq![cur@] + split_lines(text@.skip(i + 1)))
                    =~= (lines_view(lines@) + seq![cur@]) + split_lines(text@.skip(i + 1)));
                assert(Seq::<char>::empty() + text@.skip(i + 1) =~= text@.skip(i + 1));
            }
            lines.push(cur);
            cur = Vec::new();
        } else {
            proof {
                assert(cur@.push(c) + text@.skip(i + 1) =~= cur@ + text@.skip(i as int));
            }
            cur.push(c);
        }
        i += 1;
    }
    proof {
        assert(cur@ + text@.skip(i as int) =~= cur@);
        lemma_split_lines_whole(cur@);
        assert(lines_view(lines@.push(cur)) =~= lines_view(lines@) + seq![cur@]);
    }
    lines.push(cur);
    proof {
        lemma_split_lines_len(text@);
    }
    lines
}

/// Join the document's lines back into one text, as saving does.
pub fn join_text(lines: &Vec<Vec<char>>) -> (text: Vec<char>)
    requires
        lines@.len() >= 1,
    ensures
        text@ == join_lines(lines_view(lines@)),
{
    let mut text: Vec<char> = Vec::new();
    let mut i: usize = 0;
    proof {
        assert(lines_view(lines@).take(0) =~= Seq::<Seq<char>>::empty());
    }
    while i < lines.len()
        invariant
            0 <= i <= lines@.len(),
            text@ == join_lines(lines_view(lines@).take(i as int)),
        decreases lines@.len() - i,
    {
        proof {
            let lv = lines_view(lines@);
            if i > 0 {
                assert(lv.take(i + 1).drop_last() =~= lv.take(i as int));
                assert(lv.take(i + 1).last() == lines@[i as int]@);
                assert((text@ + seq!['\n']) + lines@[i as int]@
                    =~= text@ + seq!['\n'] + lines@[i as int]@);
            } else {
                assert(lv.take(1) =~= seq![lines@[0]@]);
            }
        }
        if i > 0 {
            text.push('\n');
        }
        let mut k: usize = 0;
        let ghost base = text@;
        while k < lines[i].len()
            invariant
                0 <= i < lines@.len(),
                0 <= k <= lines@[i as int]@.len(),
                text@ == base + lines@[i as int]@.take(k as int),
            decreases lines@[i as int]@.len() - k,
        {
            proof {
                assert(lines@[i as int]@.take(k + 1)
                    =~= lines@[i as int]@.take(k as int).push(lines@[i as int]@[k as int]));
            }
            let ch = lines[i][k];
            text.push(ch);
            k += 1;
        }
        proof {
            assert(lines@[i as int]@.take(lines@[i as int]@.len() as int) =~= lines@[i as int]@);
            if i > 0 {
            }
        }
        i += 1;
    }
    proof {
        assert(lines_view(lines@).take(lines@.len() as int) =~= lines_view(lines@));
    }
    text
}

/// Does `pat` occur in `line` starting exactly at `col`?
pub open spec fn match_at(line: Seq<char>, pat: Seq<char>, col: int) -> bool {
    &&& 0 <= col
    &&& col + pat.len() <= line.len()
    &&& line.subrange(col, col + pat.len()) == pat
}

/// Smallest match start in `line` at or after `from`, or -1 when `pat`
/// does not occur there.
pub open spec fn line_find(line: Seq<char>, pat: Seq<char>, from: int) -> int
    decreases line.len() + 1 - from,
{
    if 0 <= from && from + pat.len() <= line.len() {
        if match_at(line, pat, from) {
            from
        } else {
            line_find(line, pat, from + 1)
        }
    } else {
        -1
    }
}

/// `line_find` returns either -1, with no match at or after `from`, or
/// the smallest match position at or after `from`.
pub proof fn lemma_line_find(line: Seq<char>, pat: Seq<char>, from: int)
    requires
        0 <= from,
    ensures
        line_find(line, pat, from) >= 0 ==> {
            &&& from <= line_find(line, pat, from)
            &&& match_at(line, pat, line_find(line, pat, from))
            &&& forall|c: int| from <= c < line_find(line, pat, from) ==> !match_at(line, pat, c)
        },
        line_find(line, pat, from) < 0 ==> forall|c: int| from <= c ==> !match_at(line, pat, c),
    decreases line.len() + 1 - from,
{
    if 0 <= from && from + pat.len() <= line.len() {
        if !match_at(line, pat, from) {
            lemma_line_find(line, pat, from + 1);
        }
    }
}

/// First match position in rows `row` up to (excluding) `end`: searched
/// in row `row` only at or after `col`, in the following rows anywhere.
pub open spec fn scan_lines(
    lines: Seq<Seq<char>>,
    pat: Seq<char>,
    row: int,
    end: int,
    col: int,
) -> Option<(int, int)>
    decreases end - row,
{
    if row < end {
        let f = line_find(lines[row], pat, col);
        if f >= 0 {
            Some((row, f))
        } else {
            scan_lines(lines, pat, row + 1, end, 0)
        }
    } else {
        None
    }
}

/// A successful scan returns a real match inside the scanned range.
pub proof fn lemma_scan_lines_ok(
    lines: Seq<Seq<char>>,
    pat: Seq<char>,
    row: int,
    end: int,
    col: int,
)
    requires
        0 <= row,
        0 <= col,
        end <= lines.len(),
        scan_lines(lines, pat, row, end, col) is Some,
    ensures
        ({
            let (r, c) = scan_lines(lines, pat, row, end, col)->Some_0;
            &&& row <= r < end
            &&& match_at(lines[r], pat, c)
            &&& r == row ==> c >= col
        }),
    decreases end - row,
{
    if row < end {
        let f = line_find(lines[row], pat, col);
        lemma_line_find(lines[row], pat, col);
        if f < 0 {
            lemma_scan_lines_ok(lines, pat, row + 1, end, 0);
        }
    }
}

/// A failed scan means no match anywhere in the scanned range.
pub proof fn lemma_scan_lines_none(
    lines: Seq<Seq<char>>,
    pat: Seq<char>,
    row: int,
    end: int,
    col: int,
)
    requires
        0 <= row,
        0 <= col,
        end <= lines.len(),
        scan_lines(lines, pat, row, end, col) is None,
    ensures
        forall|r: int, c: int|
            row <= r < end && (r > row || c >= col) ==> !match_at(lines[r], pat, c),
    decreases end - row,
{
    if row < end {
        lemma_line_find(lines[row], pat, col);
        lemma_scan_lines_none(lines, pat, row + 1, end, 0);
        assert forall|r: int, c: int|
            row <= r < end && (r > row || c >= col) implies !match_at(lines[r], pat, c) by {
            if r == row {
                if c >= col {
                    assert(!match_at(lines[row], pat, c));
                }
            }
        }
    }
}

/// Compare `pat` against `line` at position `col`.
fn is_match_at(line: &Vec<char>, pat: &Vec<char>, col: usize) -> (r: bool)
    requires
        col + pat@.len() <= line@.len(),
    ensures
        r == match_at(line@, pat@, col as int),
{
    let _line_len: usize = line.len();
    let mut k: usize = 0;
    while k < pat.len()
        invariant
            col + pat@.len() <= line@.len(),
            _line_len == line@.len(),
            0 <= k <= pat@.len(),
            forall|j: int| 0 <= j < k ==> line@[col + j] == pat@[j],
        decreases pat@.len() - k,
    {
        if line[col + k] != pat[k] {
            proof {
                if match_at(line@, pat@, col as int) {
                    assert(line@.subrange(col as int, col + pat@.len())[k as int]
                        == line@[col + k]);
                }
            }
            return false;
        }
        k += 1;
    }
    proof {
        assert(line@.subrange(col as int, col + pat@.len()) =~= pat@);
    }
    true
}

/// Find the first occurrence of `pat` in `line` at or after `from`.
pub fn find_in_line(line: &Vec<char>, pat: &Vec<char>, from: usize) -> (r: Option<usize>)
    ensures
        match r {
            Some(c) => line_find(line@, pat@, from as int) == c as int,
            None => line_find(line@, pat@, from as int) == -1,
        },
{
    let n: usize = line.len();
    let m: usize = pat.len();
    if m > n {
        return None;
    }
    let limit: usize = n - m;
    let mut c: usize = from;
    while c <= limit
        invariant
            n == line@.len(),
            m == pat@.len(),
            m <= n,
            limit == n - m,
            from <= c,
            line_find(line@, pat@, from as int) == line_find(line@, pat@, c as int),
        decreases limit + 1 - c,
    {
        if is_match_at(line, pat, c) {
            return Some(c);
        }
        proof {
            if pat@.len() == 0 {
                assert(line@.subrange(c as int, c as int) =~= pat@);
                assert(match_at(line@, pat@, c as int));
            }
        }
        c += 1;
    }
    proof {
        assert(line_find(line@, pat@, c as int) == -1);
    }
    None
}

/// Find the first match of `pat` in rows `row` up to (excluding) `end`,
/// searching row `row` only at or after column `col`.
pub fn scan_text(
    text: &Vec<Vec<char>>,
    pat: &Vec<char>,
    row: usize,
    end: usize,
    col: usize,
) -> (r: Option<(usize, usize)>)
    requires
        end <= text@.len(),
    ensures
        match r {
            Some(p) => {
                &&& scan_lines(lines_view(text@), pat@, row as int, end as int, col as int)
                    == Some((p.0 as int, p.1 as int))
                &&& p.0 < end
            },
            None => scan_lines(lines_view(text@), pat@, row as int, end as int, col as int)
                is None,
        },
{
    let mut r: usize = row;
    let mut c: usize = col;
    while r < end
        invariant
            end <= text@.len(),
            scan_lines(lines_view(text@), pat@, row as int, end as int, col as int)
                == scan_lines(lines_view(text@), pat@, r as int, end as int, c as int),
        decreases end - r,
    {
        proof {
            assert(lines_view(text@)[r as int] == text@[r as int]@);
        }
        match find_in_line(&text[r], pat, c) {
            Some(f) => {
                return Some((r, f));
            },
            None => {
                r += 1;
                c = 0;
            },
        }
    }
    None
}

/// Is `c` a decimal digit?
pub open spec fn is_digit(c: char) -> bool {
    48 <= c as u32 <= 57
}

/// All characters of `s` are decimal digits.
pub open spec fn all_digits(s: Seq<char>) -> bool {
    forall|i: int| 0 <= i < s.len() ==> is_digit(#[trigger] s[i])
}

/// The number that the digit sequence `s` denotes.
pub open spec fn digits_val(s: Seq<char>) -> int
    decreases s.len(),
{
    if s.len() == 0 {
        0
    } else {
        digits_val(s.drop_last()) * 10 + (s.last() as u32 - 48)
    }
}

/// A digit string denotes a nonnegative number.
pub proof fn lemma_digits_val_nonneg(s: Seq<char>)
    requires
        all_digits(s),
    ensures
        digits_val(s) >= 0,
    decreases s.len(),
{
    if s.len() > 0 {
        assert(all_digits(s.drop_last())) by {
            assert(forall|i: int| 0 <= i < s.len() - 1 ==> s.drop_last()[i] == s[i]);
        }
        lemma_digits_val_nonneg(s.drop_last());
    }
}

/// Extending a digit string never shrinks its value.
pub proof fn lemma_digits_val_prefix(s: Seq<char>, k: int)
    requires
        all_digits(s),
        0 <= k <= s.len(),
    ensures
        digits_val(s.take(k)) <= digits_val(s),
    decreases s.len() - k,
{
    if k == s.len() {
        assert(s.take(k) =~= s);
    } else {
        assert(s.take(k + 1).drop_last() =~= s.take(k));
        assert(s.take(k + 1).last() == s[k]);
        assert(all_digits(s.take(k))) by {
            assert(forall|i: int| 0 <= i < k ==> s.take(k)[i] == s[i]);
        }
        lemma_digits_val_nonneg(s.take(k));
        assert(digits_val(s.take(k + 1)) >= digits_val(s.take(k)));
        lemma_digits_val_prefix(s, k + 1);
    }
}

/// The line number that a prompt's input denotes: defined exactly for a
/// nonempty all-digit input whose value fits, and undefined otherwise.
pub open spec fn parse_u16(s: Seq<char>) -> Option<u16> {
    if s.len() >= 1 && all_digits(s) && digits_val(s) <= 65535 {
        Some(digits_val(s) as u16)
    } else {
        None
    }
}

/// Parse a prompt's input as a line number.
pub fn parse_line_number(buf: &Vec<char>) -> (r: Option<u16>)
    ensures
        r == parse_u16(buf@),
{
    if buf.len() == 0 {
        return None;
    }
    let mut acc: u32 = 0;
    let mut i: usize = 0;
    while i < buf.len()
        invariant
            0 <= i <= buf@.len(),
            buf@.len() >= 1,
            forall|j: int| 0 <= j < i ==> is_digit(#[trigger] buf@[j]),
            acc as int == digits_val(buf@.take(i as int)),
            acc <= 65535,
        decreases buf@.len() - i,
    {
        let u = buf[i] as u32;
        if u < 48 || u > 57 {
            proof {
                assert(!is_digit(buf@[i as int]));
            }
            return None;
        }
        proof {
            assert(buf@.take(i + 1).drop_last() =~= buf@.take(i as int));
            assert(buf@.take(i + 1).last() == buf@[i as int]);
        }
        acc = acc * 10 + (u - 48);
        if acc > 65535 {
            proof {
                if all_digits(buf@) {
                    lemma_digits_val_prefix(buf@, i + 1);
                }
            }
            return None;
        }
        i += 1;
    }
    proof {
        assert(buf@.take(buf@.len() as int) =~= buf@);
    }
    Some(acc as u16)
}

/// Is the prompt's input one of the accepted confirmations?
pub open spec fn is_yes(s: Seq<char>) -> bool {
    ||| s == seq!['y']
    ||| s == seq!['y', 'e']
    ||| s == seq!['y', 'e', 's']
}

/// Does the prompt's input confirm, as "y", "ye" or "yes" does?
pub fn buf_is_yes(buf: &Vec<char>) -> (r: bool)
    ensures
        r == is_yes(buf@),
{
    let r = if buf.len() == 1 {
        buf[0] == 'y'
    } else if buf.len() == 2 {
        buf[0] == 'y' && buf[1] == 'e'
    } else if buf.len() == 3 {
        buf[0] == 'y' && buf[1] == 'e' && buf[2] == 's'
    } else {
        false
    };
    proof {
        if r {
            if buf@.len() == 1 {
                assert(buf@ =~= seq!['y']);
            } else if buf@.len() == 2 {
                assert(buf@ =~= seq!['y', 'e']);
            } else if buf@.len() == 3 {
                assert(buf@ =~= seq!['y', 'e', 's']);
            }
        } else {
            assert(seq!['y'].len() == 1 && seq!['y', 'e'].len() == 2 && seq!['y', 'e', 's'].len() == 3);
            assert(seq!['y'][0] == 'y');
            assert(seq!['y', 'e'][0] == 'y' && seq!['y', 'e'][1] == 'e');
            assert(seq!['y', 'e', 's'][0] == 'y' && seq!['y', 'e', 's'][1] == 'e'
                && seq!['y', 'e', 's'][2] == 's');
        }
    }
    r
}

} // verus!
