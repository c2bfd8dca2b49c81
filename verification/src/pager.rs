//! The viewport pager: lays the tail of the document out as a bounded number
//! of fixed-width display rows, with a tick mark in the gutter of every fifth
//! row. Nothing is kept between frames: every call starts from the document.

use crate::chars::{concat, copy_range, joined};
use vstd::prelude::*;

verus! {

/// Characters per display line.
pub const WIDTH: usize = 120;

/// Display rows per frame.
pub const ROWS: usize = 30;

/// The mark shown behind the last character of the document.
pub const CURSOR: char = '_';

/// The views of a vector of lines.
pub open spec fn lines_view(v: Seq<Vec<char>>) -> Seq<Seq<char>> {
    Seq::new(v.len(), |i: int| v[i]@)
}

/// The document cut at every newline. A text without newline is one
/// paragraph, and `n` newlines give `n + 1` paragraphs, empty ones included.
pub open spec fn paragraphs(s: Seq<char>) -> Seq<Seq<char>>
    decreases s.len(),
{
    if s.len() == 0 {
        seq![Seq::<char>::empty()]
    } else {
        let before = paragraphs(s.drop_last());
        if s.last() == '\n' {
            before.push(Seq::<char>::empty())
        } else {
            before.update(before.len() - 1, before.last().push(s.last()))
        }
    }
}

/// A paragraph cut into display lines of `w` characters; only the last line
/// may be shorter. An empty paragraph is one empty line.
pub open spec fn chunks(p: Seq<char>, w: int) -> Seq<Seq<char>>
    decreases p.len(),
{
    if p.len() <= w || w <= 0 {
        seq![p]
    } else {
        seq![p.take(w)] + chunks(p.skip(w), w)
    }
}

/// The display lines of a sequence of paragraphs, in order.
pub open spec fn flow(ps: Seq<Seq<char>>, w: int) -> Seq<Seq<char>>
    decreases ps.len(),
{
    if ps.len() == 0 {
        Seq::<Seq<char>>::empty()
    } else {
        flow(ps.drop_last(), w) + chunks(ps.last(), w)
    }
}

/// All display lines of a text at width `w`.
pub open spec fn reflowed(s: Seq<char>, w: int) -> Seq<Seq<char>> {
    flow(paragraphs(s), w)
}

/// The last `rows` lines, or all of them where there are fewer.
pub open spec fn window(lines: Seq<Seq<char>>, rows: int) -> Seq<Seq<char>> {
    if lines.len() <= rows {
        lines
    } else {
        lines.skip(lines.len() - rows)
    }
}

/// The lines that a frame shows of a document: the tail of the reflowed
/// document with the cursor mark behind it.
pub open spec fn visible_lines(doc: Seq<char>, w: int, rows: int) -> Seq<Seq<char>> {
    window(reflowed(doc.push(CURSOR), w), rows)
}

/// The gutter of the row at index `i` of a window (counted from 0): every
/// fifth row carries its number within the window, counted from 1.
pub open spec fn gutter(i: int) -> Option<usize> {
    if (i + 1) % 5 == 0 {
        Some((i + 1) as usize)
    } else {
        None
    }
}

/// One row of the display: a gutter, numbered or blank, and a line of text.
#[derive(Debug)]
pub struct DisplayRow {
    pub number: Option<usize>,
    pub text: Vec<char>,
}

/// The rows that show `lines`, numbered by their place in the window.
pub open spec fn rows_show(rows: Seq<DisplayRow>, lines: Seq<Seq<char>>) -> bool {
    &&& rows.len() == lines.len()
    &&& forall|i: int|
        0 <= i < rows.len() ==> (#[trigger] rows[i]).text@ == lines[i] && rows[i].number == gutter(
            i,
        )
}

/// Cuts a text at every newline.
pub fn split_paragraphs(text: &Vec<char>) -> (ps: Vec<Vec<char>>)
    ensures
        lines_view(ps@) == paragraphs(text@),
{
    let mut done: Vec<Vec<char>> = Vec::new();
    let mut cur: Vec<char> = Vec::new();
    let mut i: usize = 0;
    while i < text.len()
        invariant
            i <= text.len(),
            lines_view(done@).push(cur@) == paragraphs(text@.take(i as int)),
        decreases text.len() - i,
    {
        let c = text[i];
        proof {
            assert(text@.take(i + 1).drop_last() =~= text@.take(i as int));
            assert(text@.take(i + 1).last() == c);
        }
        let ghost before = lines_view(done@).push(cur@);
        if c == '\n' {
            done.push(cur);
            cur = Vec::new();
            assert(lines_view(done@) =~= before);
        } else {
            cur.push(c);
            assert(lines_view(done@).push(cur@) =~= before.update(
                before.len() - 1,
                before.last().push(c),
            ));
        }
        i += 1;
    }
    proof {
        assert(text@.take(i as int) =~= text@);
    }
    let ghost before = lines_view(done@).push(cur@);
    done.push(cur);
    assert(lines_view(done@) =~= before);
    done
}

/// Appends the display lines of one paragraph to `out`.
pub fn push_chunks(out: &mut Vec<Vec<char>>, p: &Vec<char>, width: usize)
    requires
        width > 0,
    ensures
        lines_view(final(out)@) == lines_view(old(out)@) + chunks(p@, width as int),
{
    let ghost before = lines_view(out@);
    let mut start: usize = 0;
    assert(p@.skip(0) =~= p@);
    while p.len() - start > width
        invariant
            width > 0,
            start <= p.len(),
            lines_view(out@) + chunks(p@.skip(start as int), width as int) == before + chunks(
                p@,
                width as int,
            ),
        decreases p.len() - start,
    {
        let ghost shown = lines_view(out@);
        let ghost rest = p@.skip(start as int);
        let line = copy_range(p, start, start + width);
        out.push(line);
        proof {
            assert(rest.take(width as int) =~= p@.subrange(start as int, start + width));
            assert(rest.skip(width as int) =~= p@.skip(start + width));
            assert(lines_view(out@) =~= shown.push(rest.take(width as int)));
            assert(shown.push(rest.take(width as int)) + chunks(
                rest.skip(width as int),
                width as int,
            ) =~= shown + chunks(rest, width as int));
        }
        start = start + width;
    }
    let ghost shown = lines_view(out@);
    let line = copy_range(p, start, p.len());
    out.push(line);
    proof {
        assert(p@.skip(start as int) =~= p@.subrange(start as int, p.len() as int));
        assert(lines_view(out@) =~= shown + chunks(p@.skip(start as int), width as int));
    }
}

/// Lays a text out as display lines of at most `width` characters: every
/// paragraph is wrapped by itself, at a fixed column and without regard to
/// words.
pub fn reflow(text: &Vec<char>, width: usize) -> (lines: Vec<Vec<char>>)
    requires
        width > 0,
    ensures
        lines_view(lines@) == reflowed(text@, width as int),
{
    let ps = split_paragraphs(text);
    let mut out: Vec<Vec<char>> = Vec::new();
    let mut i: usize = 0;
    assert(lines_view(out@) =~= flow(lines_view(ps@).take(0), width as int));
    while i < ps.len()
        invariant
            width > 0,
            i <= ps.len(),
            lines_view(out@) == flow(lines_view(ps@).take(i as int), width as int),
        decreases ps.len() - i,
    {
        proof {
            let next = lines_view(ps@).take(i + 1);
            assert(next.drop_last() =~= lines_view(ps@).take(i as int));
            assert(next.last() == ps@[i as int]@);
        }
        push_chunks(&mut out, &ps[i], width);
        i += 1;
    }
    proof {
        assert(lines_view(ps@).take(i as int) =~= lines_view(ps@));
    }
    out
}

/// The rows of one frame: the document with the cursor mark behind it is
/// reflowed at `width`, the last `rows` lines are kept in their order, and
/// every fifth of them is numbered by its place in the window.
pub fn visible_rows(doc: &Vec<char>, width: usize, rows: usize) -> (out: Vec<DisplayRow>)
    requires
        width > 0,
    ensures
        rows_show(out@, visible_lines(doc@, width as int, rows as int)),
        out.len() <= rows,
{
    let mut text = copy_range(doc, 0, doc.len());
    text.push(CURSOR);
    assert(text@ =~= doc@.push(CURSOR));
    let lines = reflow(&text, width);
    let first: usize = if lines.len() <= rows {
        0
    } else {
        lines.len() - rows
    };
    let ghost shown = visible_lines(doc@, width as int, rows as int);
    assert(shown =~= lines_view(lines@).skip(first as int));
    let mut out: Vec<DisplayRow> = Vec::new();
    let mut i: usize = first;
    while i < lines.len()
        invariant
            first <= i <= lines.len(),
            lines.len() - first <= rows,
            shown == lines_view(lines@).skip(first as int),
            rows_show(out@, shown.take(i - first)),
        decreases lines.len() - i,
    {
        let at: usize = i - first;
        let number: Option<usize> = if (at + 1) % 5 == 0 {
            Some(at + 1)
        } else {
            None
        };
        let text = copy_range(&lines[i], 0, lines[i].len());
        assert(text@ =~= lines[i as int]@);
        out.push(DisplayRow { number, text });
        i += 1;
    }
    assert(shown.take(i - first) =~= shown);
    out
}

/// A text has at least one paragraph.
pub proof fn lemma_paragraphs_nonempty(s: Seq<char>)
    ensures
        paragraphs(s).len() >= 1,
    decreases s.len(),
{
    if s.len() > 0 {
        lemma_paragraphs_nonempty(s.drop_last());
    }
}

/// Cutting a text into paragraphs loses nothing but the newlines: no
/// paragraph holds a newline, and the paragraphs joined by newlines are the
/// text again.
pub proof fn lemma_paragraphs_rejoin(s: Seq<char>)
    ensures
        paragraphs(s).len() >= 1,
        joined(paragraphs(s)) == s,
        forall|i: int, j: int|
            0 <= i < paragraphs(s).len() && 0 <= j < paragraphs(s)[i].len() ==> paragraphs(
                s,
            )[i][j] != '\n',
    decreases s.len(),
{
    let ps = paragraphs(s);
    if s.len() > 0 {
        let t = s.drop_last();
        let c = s.last();
        let before = paragraphs(t);
        lemma_paragraphs_rejoin(t);
        assert(s =~= t.push(c));
        if c == '\n' {
            assert(ps.drop_last() =~= before);
            assert(joined(ps) =~= s);
        } else if before.len() == 1 {
            assert(joined(ps) =~= s);
        } else {
            assert(ps.drop_last() =~= before.drop_last());
            assert(joined(ps) =~= s);
        }
    }
}

/// Wrapping a paragraph loses nothing and fills every line but the last: the
/// lines put together are the paragraph, none is longer than the width, all
/// before the last are full, and the last is empty only for an empty
/// paragraph.
pub proof fn lemma_chunks(p: Seq<char>, w: int)
    requires
        w > 0,
    ensures
        chunks(p, w).len() >= 1,
        concat(chunks(p, w)) == p,
        forall|i: int| 0 <= i < chunks(p, w).len() ==> (#[trigger] chunks(p, w)[i]).len() <= w,
        forall|i: int|
            0 <= i < chunks(p, w).len() - 1 ==> (#[trigger] chunks(p, w)[i]).len() == w,
        p.len() > 0 ==> chunks(p, w).last().len() > 0,
    decreases p.len(),
{
    let cs = chunks(p, w);
    if p.len() <= w {
        assert(cs =~= seq![p]);
        assert(cs.skip(1) =~= Seq::<Seq<char>>::empty());
        assert(concat(cs.skip(1)) =~= Seq::<char>::empty());
        assert(concat(cs) =~= p);
    } else {
        let rest = chunks(p.skip(w), w);
        lemma_chunks(p.skip(w), w);
        assert(cs.skip(1) =~= rest);
        assert(cs[0] == p.take(w));
        assert(p.take(w) + p.skip(w) =~= p);
        assert(concat(cs) =~= p);
        assert forall|i: int| 0 <= i < cs.len() implies (#[trigger] cs[i]).len() <= w by {
            if i > 0 {
                assert(cs[i] == rest[i - 1]);
            }
        }
        assert forall|i: int| 0 <= i < cs.len() - 1 implies (#[trigger] cs[i]).len() == w by {
            if i > 0 {
                assert(cs[i] == rest[i - 1]);
            }
        }
        assert(cs.last() == rest.last());
    }
}

/// A frame never holds more than `rows` lines, and what it holds is the end
/// of the reflowed text in its order: the lines before the window followed by
/// the window give the whole text back.
pub proof fn lemma_window_is_suffix(lines: Seq<Seq<char>>, rows: nat)
    ensures
        window(lines, rows as int).len() <= rows,
        window(lines, rows as int).len() <= lines.len(),
        lines.take(lines.len() - window(lines, rows as int).len()) + window(lines, rows as int)
            == lines,
        forall|i: int|
            0 <= i < window(lines, rows as int).len() ==> #[trigger] window(lines, rows as int)[i]
                == lines[lines.len() - window(lines, rows as int).len() + i],
{
    let shown = window(lines, rows as int);
    assert(lines.take(lines.len() - shown.len()) + shown =~= lines);
}

/// How many of the first `n` rows of a window carry a number.
pub open spec fn numbered(n: int) -> int
    decreases n,
{
    if n <= 0 {
        0
    } else if gutter(n - 1).is_some() {
        numbered(n - 1) + 1
    } else {
        numbered(n - 1)
    }
}

/// Of a window of `n` rows exactly `n / 5` carry a number: the rows at the
/// places 5, 10, 15 and so on, counted from 1, each with its own place.
pub proof fn lemma_every_fifth_row_numbered(n: nat)
    ensures
        numbered(n as int) == n / 5,
        forall|i: int|
            0 <= i < n ==> (#[trigger] gutter(i)).is_some() == ((i + 1) % 5 == 0),
        forall|i: int|
            0 <= i < n && i + 1 <= usize::MAX && (i + 1) % 5 == 0 ==> #[trigger] gutter(i) == Some(
                (i + 1) as usize,
            ),
    decreases n,
{
    if n > 0 {
        lemma_every_fifth_row_numbered((n - 1) as nat);
    }
}

/// How many rows carry a number.
pub open spec fn count_numbered(rows: Seq<DisplayRow>) -> int
    decreases rows.len(),
{
    if rows.len() == 0 {
        0
    } else if rows.last().number.is_some() {
        count_numbered(rows.drop_last()) + 1
    } else {
        count_numbered(rows.drop_last())
    }
}

/// Of the rows that show a window, one in five carries a number, rounded
/// down: a window of `n` rows has `n / 5` numbered rows.
pub proof fn lemma_numbered_rows(rows: Seq<DisplayRow>, lines: Seq<Seq<char>>)
    requires
        rows_show(rows, lines),
    ensures
        count_numbered(rows) == rows.len() / 5,
    decreases rows.len(),
{
    lemma_every_fifth_row_numbered(rows.len());
    if rows.len() > 0 {
        lemma_every_fifth_row_numbered((rows.len() - 1) as nat);
        assert(rows_show(rows.drop_last(), lines.drop_last()));
        lemma_numbered_rows(rows.drop_last(), lines.drop_last());
        assert(rows.last() == rows[rows.len() - 1]);
    }
}

} // verus!
