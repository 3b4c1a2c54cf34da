use vstd::prelude::*;
use crate::color::{PaletteColor, fg_seq, bg_seq, reset_seq, push_fg, push_bg, push_reset};
use crate::text::push_char;

verus! {

/// One terminal character cell: a glyph with optional foreground and
/// background colors. A cell without colors is written bare.
#[derive(Debug, Clone, Copy, PartialEq, Eq, Structural)]
pub struct Glyph {
    pub ch: char,
    pub fg: Option<PaletteColor>,
    pub bg: Option<PaletteColor>,
}

/// Text of one cell: its color escapes, the glyph, then a reset.
pub open spec fn glyph_text(g: Glyph) -> Seq<char> {
    match (g.fg, g.bg) {
        (None, None) => seq![g.ch],
        (Some(f), None) => fg_seq(f) + seq![g.ch] + reset_seq(),
        (None, Some(b)) => bg_seq(b) + seq![g.ch] + reset_seq(),
        (Some(f), Some(b)) => fg_seq(f) + bg_seq(b) + seq![g.ch] + reset_seq(),
    }
}

/// Text of a row of cells, written left to right.
pub open spec fn row_text(cells: Seq<Glyph>) -> Seq<char>
    decreases cells.len(),
{
    if cells.len() == 0 {
        Seq::empty()
    } else {
        row_text(cells.drop_last()) + glyph_text(cells.last())
    }
}

/// A colored run of `left`, `width` copies of `mid`, and `right`.
pub open spec fn band_text(c: PaletteColor, left: char, mid: char, width: nat, right: char) -> Seq<
    char,
> {
    fg_seq(c) + seq![left] + Seq::new(width, |i: int| mid) + seq![right] + reset_seq()
}

pub(crate) fn push_glyph(s: &mut String, g: Glyph)
    ensures
        final(s)@ == old(s)@ + glyph_text(g),
{
    match g.fg {
        Some(f) => push_fg(s, f),
        None => {},
    }
    match g.bg {
        Some(b) => push_bg(s, b),
        None => {},
    }
    push_char(s, g.ch);
    if g.fg.is_some() || g.bg.is_some() {
        push_reset(s);
    }
    assert(s@ =~= old(s)@ + glyph_text(g));
}

/// Appends the text of `cells` to `s`.
pub(crate) fn push_row(s: &mut String, cells: &Vec<Glyph>)
    ensures
        final(s)@ == old(s)@ + row_text(cells@),
{
    let ghost start = s@;
    let mut k: usize = 0;
    while k < cells.len()
        invariant
            k <= cells.len(),
            s@ == start + row_text(cells@.take(k as int)),
        decreases cells.len() - k,
    {
        push_glyph(s, cells[k]);
        proof {
            let t = cells@.take(k as int + 1);
            assert(t.drop_last() =~= cells@.take(k as int));
        }
        k = k + 1;
    }
    assert(cells@.take(k as int) =~= cells@);
}

/// The text of one band: `left`, `width` copies of `mid`, and `right`, in color `c`.
pub(crate) fn band(c: PaletteColor, left: char, mid: char, width: usize, right: char) -> (r: String)
    ensures
        r@ == band_text(c, left, mid, width as nat, right),
{
    let mut s = String::new();
    push_fg(&mut s, c);
    push_char(&mut s, left);
    let ghost pre = s@;
    let mut k: usize = 0;
    while k < width
        invariant
            k <= width,
            s@ == pre + Seq::new(k as nat, |i: int| mid),
        decreases width - k,
    {
        push_char(&mut s, mid);
        k = k + 1;
        assert(s@ =~= pre + Seq::new(k as nat, |i: int| mid));
    }
    push_char(&mut s, right);
    push_reset(&mut s);
    assert(s@ =~= band_text(c, left, mid, width as nat, right));
    s
}

/// Text of `cells` framed by `edge` on both sides.
pub(crate) fn framed_line(edge: Glyph, cells: &Vec<Glyph>) -> (r: String)
    ensures
        r@ == row_text(seq![edge] + cells@ + seq![edge]),
{
    let mut s = String::new();
    push_glyph(&mut s, edge);
    let ghost first = s@;
    push_row(&mut s, cells);
    push_glyph(&mut s, edge);
    proof {
        lemma_row_text_concat(seq![edge], cells@);
        let e = seq![edge];
        assert(e.drop_last() =~= Seq::<Glyph>::empty());
        assert(row_text(Seq::<Glyph>::empty()) == Seq::<char>::empty());
        assert(row_text(e) =~= glyph_text(edge));
        let t = seq![edge] + cells@ + seq![edge];
        assert(t.drop_last() =~= seq![edge] + cells@);
    }
    assert(s@ =~= row_text(seq![edge] + cells@ + seq![edge]));
    s
}

/// The text of two rows side by side is the text of the first followed by
/// the text of the second.
pub proof fn lemma_row_text_concat(a: Seq<Glyph>, b: Seq<Glyph>)
    ensures
        row_text(a + b) == row_text(a) + row_text(b),
    decreases b.len(),
{
    if b.len() == 0 {
        assert(a + b =~= a);
        assert(row_text(a) + row_text(b) =~= row_text(a));
    } else {
        lemma_row_text_concat(a, b.drop_last());
        assert((a + b).drop_last() =~= a + b.drop_last());
        assert((a + b).last() == b.last());
        assert(row_text(a + b) =~= row_text(a) + row_text(b));
    }
}

} // verus!
