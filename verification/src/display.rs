//! The text of a frame: every row with its gutter, rows separated by
//! newlines, as it is handed to the renderer.

use crate::chars::{append_chars, joined};
use crate::pager::{gutter, visible_lines, visible_rows, DisplayRow};
use vstd::prelude::*;

verus! {

/// The bar between the gutter and the text of a row.
pub const BAR: char = '\u{2502}';

/// Width of the field that holds a row number.
pub const NUMBER_WIDTH: usize = 4;

/// The character of a decimal digit.
pub open spec fn digit(d: int) -> char {
    ((48 + d) as u8) as char
}

/// A number written in decimal, without leading zeros.
pub open spec fn decimal(n: nat) -> Seq<char>
    decreases n,
{
    if n < 10 {
        seq![digit(n as int)]
    } else {
        decimal(n / 10).push(digit((n % 10) as int))
    }
}

/// `k` blanks, none where `k` is not positive.
pub open spec fn blanks(k: int) -> Seq<char> {
    Seq::new(
        if k > 0 {
            k as nat
        } else {
            0
        },
        |i: int| ' ',
    )
}

/// What stands between the number field and the text: a blank, the bar, a blank.
pub open spec fn separator() -> Seq<char> {
    seq![' ', BAR, ' ']
}

/// The gutter as text. A number stands right-aligned in a field of
/// `NUMBER_WIDTH` characters, which grows only for a number that is longer; a
/// blank gutter is a field of blanks.
pub open spec fn gutter_text(number: Option<usize>) -> Seq<char> {
    match number {
        Some(n) => blanks(NUMBER_WIDTH - decimal(n as nat).len()) + decimal(n as nat)
            + separator(),
        None => blanks(NUMBER_WIDTH as int) + separator(),
    }
}

/// One row as text: its gutter, then its line.
pub open spec fn row_text(number: Option<usize>, line: Seq<char>) -> Seq<char> {
    gutter_text(number) + line
}

/// The texts of a sequence of rows.
pub open spec fn row_texts(rows: Seq<DisplayRow>) -> Seq<Seq<char>> {
    Seq::new(rows.len(), |i: int| row_text(rows[i].number, rows[i].text@))
}

/// The text of the frame that shows a document: its visible lines, each
/// behind the gutter of its place in the window.
pub open spec fn frame(doc: Seq<char>, w: int, rows: int) -> Seq<char> {
    let shown = visible_lines(doc, w, rows);
    joined(Seq::new(shown.len(), |i: int| row_text(gutter(i), shown[i])))
}

/// A number below ten thousand has at most four digits.
pub proof fn lemma_decimal_len(n: nat)
    ensures
        decimal(n).len() >= 1,
        n < 10 ==> decimal(n).len() == 1,
        n < 100 ==> decimal(n).len() <= 2,
        n < 1000 ==> decimal(n).len() <= 3,
        n < 10000 ==> decimal(n).len() <= 4,
    decreases n,
{
    if n >= 10 {
        lemma_decimal_len(n / 10);
    }
}

/// The gutter has one width: up to the row number 9999 a numbered gutter is
/// as wide as a blank one, seven characters.
pub proof fn lemma_gutter_width(n: usize)
    requires
        n < 10000,
    ensures
        gutter_text(Some(n)).len() == gutter_text(None).len(),
        gutter_text(None).len() == NUMBER_WIDTH + 3,
{
    lemma_decimal_len(n as nat);
}

/// Writes a number in decimal.
pub fn decimal_digits(n: usize) -> (r: Vec<char>)
    ensures
        r@ == decimal(n as nat),
    decreases n,
{
    if n < 10 {
        let mut r: Vec<char> = Vec::new();
        r.push((48u8 + n as u8) as char);
        assert(r@ =~= seq![digit(n as int)]);
        r
    } else {
        let mut r = decimal_digits(n / 10);
        r.push((48u8 + (n % 10) as u8) as char);
        r
    }
}

/// Writes the gutter of a row.
pub fn gutter_chars(number: Option<usize>) -> (r: Vec<char>)
    ensures
        r@ == gutter_text(number),
{
    let digits: Vec<char> = match number {
        Some(n) => decimal_digits(n),
        None => Vec::new(),
    };
    let pad: usize = if digits.len() < NUMBER_WIDTH {
        NUMBER_WIDTH - digits.len()
    } else {
        0
    };
    let mut r: Vec<char> = Vec::new();
    let mut j: usize = 0;
    while j < pad
        invariant
            j <= pad,
            r@ == blanks(j as int),
        decreases pad - j,
    {
        r.push(' ');
        j += 1;
        assert(r@ =~= blanks(j as int));
    }
    append_chars(&mut r, &digits);
    r.push(' ');
    r.push(BAR);
    r.push(' ');
    assert(r@ =~= gutter_text(number));
    r
}

/// Writes one row: its gutter, then its line.
pub fn render_row(row: &DisplayRow) -> (r: Vec<char>)
    ensures
        r@ == row_text(row.number, row.text@),
{
    let mut r = gutter_chars(row.number);
    append_chars(&mut r, &row.text);
    r
}

/// Writes the rows of a frame as one text, a newline between two rows.
pub fn render_page(rows: &Vec<DisplayRow>) -> (r: Vec<char>)
    ensures
        r@ == joined(row_texts(rows@)),
{
    let mut r: Vec<char> = Vec::new();
    let mut i: usize = 0;
    assert(row_texts(rows@).take(0) =~= Seq::<Seq<char>>::empty());
    while i < rows.len()
        invariant
            i <= rows.len(),
            r@ == joined(row_texts(rows@).take(i as int)),
        decreases rows.len() - i,
    {
        let ghost done = row_texts(rows@).take(i as int);
        let ghost next = row_texts(rows@).take(i + 1);
        proof {
            assert(next.drop_last() =~= done);
            assert(next.last() == row_text(rows@[i as int].number, rows@[i as int].text@));
        }
        if i > 0 {
            r.push('\n');
        }
        let line = render_row(&rows[i]);
        append_chars(&mut r, &line);
        proof {
            if i > 0 {
                assert(r@ =~= joined(done) + seq!['\n'] + next.last());
            } else {
                assert(r@ =~= next.last());
                assert(next[0] == next.last());
            }
        }
        i += 1;
    }
    assert(row_texts(rows@).take(i as int) =~= row_texts(rows@));
    r
}

/// The text of one frame of a document, at `width` characters a line and at
/// most `rows` rows.
pub fn page_text(doc: &Vec<char>, width: usize, rows: usize) -> (r: Vec<char>)
    requires
        width > 0,
    ensures
        r@ == frame(doc@, width as int, rows as int),
{
    let shown = visible_rows(doc, width, rows);
    let r = render_page(&shown);
    proof {
        let lines = visible_lines(doc@, width as int, rows as int);
        assert(row_texts(shown@) =~= Seq::new(lines.len(), |i: int| row_text(gutter(i), lines[i])));
    }
    r
}

} // verus!
