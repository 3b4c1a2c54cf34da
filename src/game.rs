use vstd::prelude::*;
use crate::color::{PaletteColor, fg_seq, reset_seq};
use crate::sprite::Sprite;
use crate::glyph::{Glyph, glyph_text, row_text, band_text, push_glyph, band, framed_line};

verus! {

/// A pixel canvas of palette colors, addressed `pixels[row][col]`, with a
/// player position and the colors of the player and of the border.
pub struct Game {
    pub width: usize,
    pub height: usize,
    pub pixels: Vec<Vec<PaletteColor>>,
    pub player_x: usize,
    pub player_y: usize,
    pub player_color: PaletteColor,
    pub border_color: PaletteColor,
}

/// Bit of the braille dot that covers sub-pixel `(dx, dy)` of a 2x4 block.
pub open spec fn braille_bit(dx: int, dy: int) -> nat {
    if dx == 0 {
        if dy == 0 { 0 } else if dy == 1 { 1 } else if dy == 2 { 2 } else { 6 }
    } else {
        if dy == 0 { 3 } else if dy == 1 { 4 } else if dy == 2 { 5 } else { 7 }
    }
}

/// Two to the power `n`.
pub open spec fn pow2(n: nat) -> nat
    decreases n,
{
    if n == 0 { 1 } else { 2 * pow2((n - 1) as nat) }
}

/// The braille glyph whose dots are the set bits of `mask`.
pub open spec fn braille_char(mask: nat) -> char {
    ((0x2800 + mask) as u32) as char
}

/// Relies on char::from_u32: a value below the surrogate range is the code
/// point of a char, which is returned.
#[verifier::external_body]
fn char_from_u32(v: u32) -> (r: Option<char>)
    requires
        v < 0xD800,
    ensures
        r == Some(v as char),
{
    char::from_u32(v)
}

impl Game {
    /// The canvas holds `height` rows of `width` pixels each.
    pub open spec fn wf(&self) -> bool {
        &&& self.pixels@.len() == self.height
        &&& forall|y: int| 0 <= y < self.height ==> (#[trigger] self.pixels@[y])@.len() == self.width
    }

    /// The color at column `x`, row `y`.
    pub open spec fn pixel(&self, x: int, y: int) -> PaletteColor {
        self.pixels@[y]@[x]
    }

    /// Whether `(x, y)` is inside the canvas and holds a visible color.
    pub open spec fn lit(&self, x: int, y: int) -> bool {
        0 <= x < self.width && 0 <= y < self.height && self.pixel(x, y) != PaletteColor::Transparent
    }

    /// Whether the `k`-th sub-pixel, in raster order `(dy, dx)`, of block `(bx, by)` is lit.
    pub open spec fn sub_lit(&self, bx: int, by: int, k: int) -> bool {
        self.lit(2 * bx + k % 2, 4 * by + k / 2)
    }

    /// Dot mask of the first `k` sub-pixels of block `(bx, by)`.
    pub open spec fn mask_upto(&self, bx: int, by: int, k: nat) -> nat
        decreases k,
    {
        if k == 0 {
            0
        } else {
            let j = (k - 1) as int;
            self.mask_upto(bx, by, (k - 1) as nat) + if self.sub_lit(bx, by, j) {
                pow2(braille_bit(j % 2, j / 2))
            } else {
                0
            }
        }
    }

    /// Color of the first lit sub-pixel among the first `k` of block `(bx, by)`.
    pub open spec fn color_upto(&self, bx: int, by: int, k: nat) -> Option<PaletteColor>
        decreases k,
    {
        if k == 0 {
            None
        } else {
            let j = (k - 1) as int;
            let prev = self.color_upto(bx, by, (k - 1) as nat);
            if prev.is_some() {
                prev
            } else if self.sub_lit(bx, by, j) {
                Some(self.pixel(2 * bx + j % 2, 4 * by + j / 2))
            } else {
                None
            }
        }
    }

    pub open spec fn braille_mask(&self, bx: int, by: int) -> nat {
        self.mask_upto(bx, by, 8)
    }

    /// The cell that braille block `(bx, by)` renders to.
    pub open spec fn braille_cell(&self, bx: int, by: int) -> Glyph {
        let m = self.braille_mask(bx, by);
        if m == 0 {
            Glyph { ch: ' ', fg: None, bg: None }
        } else {
            Glyph { ch: braille_char(m), fg: self.color_upto(bx, by, 8), bg: None }
        }
    }
}

/// Dot mask of the first `k` sub-pixels when all of them are lit.
pub open spec fn full_mask_upto(k: nat) -> nat
    decreases k,
{
    if k == 0 {
        0
    } else {
        let j = (k - 1) as int;
        full_mask_upto((k - 1) as nat) + pow2(braille_bit(j % 2, j / 2))
    }
}

proof fn lemma_mask_bound(g: &Game, bx: int, by: int, k: nat)
    requires
        k <= 8,
    ensures
        g.mask_upto(bx, by, k) <= full_mask_upto(k),
        full_mask_upto(k) <= 255,
    decreases k,
{
    reveal_with_fuel(pow2, 9);
    reveal_with_fuel(full_mask_upto, 9);
    if k > 0 {
        lemma_mask_bound(g, bx, by, (k - 1) as nat);
    }
}

impl Game {
    /// Braille glyph and color of block `(bx, by)`: the dots of its lit
    /// sub-pixels, colored by the first lit one in raster order.
    pub fn get_braille_char_and_color(&self, bx: usize, by: usize) -> (r: (char, Option<PaletteColor>))
        requires
            self.wf(),
            bx < self.width / 2,
            by < self.height / 4,
        ensures
            r.0 == self.braille_cell(bx as int, by as int).ch,
            r.1 == self.braille_cell(bx as int, by as int).fg,
    {
        let x = bx * 2;
        let y = by * 4;
        let mut n: u32 = 0;
        let mut color: Option<PaletteColor> = None;
        let mut k: usize = 0;
        while k < 8
            invariant
                self.wf(),
                bx < self.width / 2,
                by < self.height / 4,
                x == 2 * bx,
                y == 4 * by,
                k <= 8,
                n == self.mask_upto(bx as int, by as int, k as nat),
                color == self.color_upto(bx as int, by as int, k as nat),
            decreases 8 - k,
        {
            proof {
                lemma_mask_bound(self, bx as int, by as int, k as nat);
                reveal_with_fuel(pow2, 9);
            }
            let dx = k % 2;
            let dy = k / 2;
            let px = x + dx;
            let py = y + dy;
            if px < self.width && py < self.height && !self.pixels[py][px].is_transparent() {
                let w: u32 = if dx == 0 {
                    if dy == 0 { 1 } else if dy == 1 { 2 } else if dy == 2 { 4 } else { 64 }
                } else {
                    if dy == 0 { 8 } else if dy == 1 { 16 } else if dy == 2 { 32 } else { 128 }
                };
                n = n + w;
                if color.is_none() {
                    color = Some(self.pixels[py][px]);
                }
            }
            k = k + 1;
        }
        proof {
            lemma_mask_bound(self, bx as int, by as int, 8);
            reveal_with_fuel(pow2, 9);
        }
        if n == 0 {
            (' ', None)
        } else {
            match char_from_u32(0x2800 + n) {
                Some(c) => (c, color),
                None => (' ', None),
            }
        }
    }
}

impl Game {
    /// The border cell at either end of an interior row.
    pub open spec fn border_cell(&self) -> Glyph {
        Glyph { ch: '\u{2551}', fg: Some(self.border_color), bg: None }
    }

    /// Interior row `by` of the braille render: border, one cell per
    /// 2x4 block, border.
    pub open spec fn braille_row(&self, by: int) -> Seq<Glyph> {
        seq![self.border_cell()] + Seq::new(
            (self.width / 2) as nat,
            |bx: int| self.braille_cell(bx, by),
        ) + seq![self.border_cell()]
    }

    /// Top border over `inner` interior cells.
    pub open spec fn top_border(&self, inner: nat) -> Seq<char> {
        band_text(self.border_color, '\u{2554}', '\u{2550}', inner, '\u{2557}')
    }

    /// Bottom border under `inner` interior cells.
    pub open spec fn bottom_border(&self, inner: nat) -> Seq<char> {
        band_text(self.border_color, '\u{255A}', '\u{2550}', inner, '\u{255D}')
    }

    /// A canvas of `width` by `height` transparent pixels, with the player
    /// at its center.
    pub fn new(width: usize, height: usize) -> (r: Game)
        ensures
            r.wf(),
            r.width == width,
            r.height == height,
            forall|x: int, y: int|
                0 <= x < width && 0 <= y < height ==> r.pixel(x, y) == PaletteColor::Transparent,
            r.player_x == width / 2,
            r.player_y == height / 2,
            r.player_color == PaletteColor::Red,
            r.border_color == PaletteColor::Green,
    {
        let mut pixels: Vec<Vec<PaletteColor>> = Vec::new();
        let mut j: usize = 0;
        while j < height
            invariant
                j <= height,
                pixels@.len() == j,
                forall|y: int| 0 <= y < j ==> (#[trigger] pixels@[y])@.len() == width,
                forall|x: int, y: int|
                    0 <= x < width && 0 <= y < j ==> pixels@[y]@[x] == PaletteColor::Transparent,
            decreases height - j,
        {
            let row = vec![PaletteColor::Transparent; width];
            pixels.push(row);
            j = j + 1;
        }
        Game {
            width,
            height,
            pixels,
            player_x: width / 2,
            player_y: height / 2,
            player_color: PaletteColor::Red,
            border_color: PaletteColor::Green,
        }
    }
}

impl Game {
    /// Resets every pixel to transparent.
    pub fn clear(&mut self)
        requires
            old(self).wf(),
        ensures
            final(self).wf(),
            final(self).width == old(self).width,
            final(self).height == old(self).height,
            final(self).player_x == old(self).player_x,
            final(self).player_y == old(self).player_y,
            final(self).player_color == old(self).player_color,
            final(self).border_color == old(self).border_color,
            forall|x: int, y: int|
                0 <= x < final(self).width && 0 <= y < final(self).height ==> final(self).pixel(x, y)
                    == PaletteColor::Transparent,
    {
        let mut j: usize = 0;
        while j < self.height
            invariant
                self.wf(),
                j <= self.height,
                self.width == old(self).width,
                self.height == old(self).height,
                self.player_x == old(self).player_x,
                self.player_y == old(self).player_y,
                self.player_color == old(self).player_color,
                self.border_color == old(self).border_color,
                forall|x: int, y: int|
                    0 <= x < self.width && 0 <= y < j ==> self.pixel(x, y) == PaletteColor::Transparent,
            decreases self.height - j,
        {
            let w = self.width;
            let ghost before = *self;
            self.pixels.set(j, vec![PaletteColor::Transparent; w]);
            assert forall|x: int, y: int|
                0 <= x < self.width && 0 <= y < j + 1 implies self.pixel(x, y)
                == PaletteColor::Transparent by {
                if y < j {
                    assert(self.pixels@[y] == before.pixels@[y]);
                    assert(before.pixel(x, y) == PaletteColor::Transparent);
                }
            }
            j = j + 1;
        }
    }

    /// Writes `color` at `(x, y)`; a position outside the canvas is ignored.
    pub fn set_pixel(&mut self, x: usize, y: usize, color: PaletteColor)
        requires
            old(self).wf(),
        ensures
            final(self).wf(),
            final(self).width == old(self).width,
            final(self).height == old(self).height,
            final(self).player_x == old(self).player_x,
            final(self).player_y == old(self).player_y,
            final(self).player_color == old(self).player_color,
            final(self).border_color == old(self).border_color,
            forall|px: int, py: int|
                0 <= px < old(self).width && 0 <= py < old(self).height ==> final(self).pixel(px, py)
                    == if px == x && py == y {
                    color
                } else {
                    old(self).pixel(px, py)
                },
    {
        if x < self.width && y < self.height {
            let mut row = self.pixels[y].clone();
            row.set(x, color);
            self.pixels.set(y, row);
        }
    }

    /// Renders the canvas with braille glyphs, each covering a 2x4 block of
    /// pixels, inside a border. Line `i` goes to terminal row `i`, column 0.
    pub fn render(&self) -> (r: Vec<(u16, u16, String)>)
        requires
            self.wf(),
            self.height / 4 + 1 <= u16::MAX,
        ensures
            r@.len() == self.height / 4 + 2,
            forall|i: int| 0 <= i < r@.len() ==> (#[trigger] r@[i]).0 == 0 && r@[i].1 == i,
            r@[0].2@ == self.top_border((self.width / 2) as nat),
            forall|i: int|
                0 <= i < self.height / 4 ==> (#[trigger] r@[i + 1]).2@ == row_text(
                    self.braille_row(i),
                ),
            r@[self.height / 4 + 1].2@ == self.bottom_border((self.width / 2) as nat),
    {
        let bw = self.width / 2;
        let bh = self.height / 4;
        let mut output: Vec<(u16, u16, String)> = Vec::new();
        let top = band(self.border_color, '\u{2554}', '\u{2550}', bw, '\u{2557}');
        output.push((0, 0, top));
        let border = Glyph { ch: '\u{2551}', fg: Some(self.border_color), bg: None };
        let mut by: usize = 0;
        while by < bh
            invariant
                self.wf(),
                bw == self.width / 2,
                bh == self.height / 4,
                bh + 1 <= u16::MAX,
                border == self.border_cell(),
                by <= bh,
                output@.len() == by + 1,
                forall|i: int| 0 <= i < output@.len() ==> (#[trigger] output@[i]).0 == 0 && output@[i].1 == i,
                output@[0].2@ == self.top_border(bw as nat),
                forall|i: int| 0 <= i < by ==> (#[trigger] output@[i + 1]).2@ == row_text(self.braille_row(i)),
            decreases bh - by,
        {
            let ghost cells = Seq::new(bw as nat, |bx: int| self.braille_cell(bx, by as int));
            let mut line = String::new();
            push_glyph(&mut line, border);
            proof {
                let s = seq![border] + cells.take(0);
                assert(s =~= seq![border]);
                assert(s.drop_last() =~= Seq::<Glyph>::empty());
                assert(row_text(Seq::<Glyph>::empty()) == Seq::<char>::empty());
                assert(row_text(s) =~= glyph_text(border));
                assert(line@ =~= glyph_text(border));
            }
            let mut bx: usize = 0;
            while bx < bw
                invariant
                    self.wf(),
                    bw == self.width / 2,
                    bh == self.height / 4,
                    by < bh,
                    bx <= bw,
                    cells == Seq::new(bw as nat, |k: int| self.braille_cell(k, by as int)),
                    line@ == row_text(seq![border] + cells.take(bx as int)),
                decreases bw - bx,
            {
                let (ch, color) = self.get_braille_char_and_color(bx, by);
                let cell = Glyph { ch, fg: color, bg: None };
                push_glyph(&mut line, cell);
                proof {
                    let s = seq![border] + cells.take(bx as int + 1);
                    assert(s.drop_last() =~= seq![border] + cells.take(bx as int));
                }
                bx = bx + 1;
            }
            push_glyph(&mut line, border);
            proof {
                let s = seq![border] + cells + seq![border];
                assert(s.drop_last() =~= seq![border] + cells.take(bx as int));
                assert(s =~= self.braille_row(by as int));
            }
            output.push((0, (by + 1) as u16, line));
            by = by + 1;
        }
        let bottom = band(self.border_color, '\u{255A}', '\u{2550}', bw, '\u{255D}');
        output.push((0, (bh + 1) as u16, bottom));
        output
    }
}

/// The color a half-block cell shows for a pixel: transparent shows as black.
pub open spec fn shade(c: PaletteColor) -> PaletteColor {
    if c == PaletteColor::Transparent {
        PaletteColor::Black
    } else {
        c
    }
}

fn shade_of(c: PaletteColor) -> (r: PaletteColor)
    ensures
        r == shade(c),
{
    if c.is_transparent() {
        PaletteColor::Black
    } else {
        c
    }
}

impl Game {
    /// Half-block cell of column `x` in row pair `i`: the upper pixel as
    /// foreground, the lower one as background.
    pub open spec fn half_cell(&self, x: int, i: int) -> Glyph {
        Glyph {
            ch: '\u{2580}',
            fg: Some(shade(self.pixel(x, 2 * i))),
            bg: Some(shade(self.pixel(x, 2 * i + 1))),
        }
    }

    /// Interior row `i` of the half-block render: border, one cell per
    /// column, border.
    pub open spec fn half_row(&self, i: int) -> Seq<Glyph> {
        seq![self.border_cell()] + Seq::new(self.width as nat, |x: int| self.half_cell(x, i))
            + seq![self.border_cell()]
    }

    /// Renders the canvas with upper-half-block glyphs, each covering one
    /// column of two stacked pixels, inside a border. Line `i` goes to
    /// terminal row `i`, column 0.
    pub fn render_half_block(&self) -> (r: Vec<(u16, u16, String)>)
        requires
            self.wf(),
            self.height % 2 == 0,
            self.height / 2 + 1 <= u16::MAX,
        ensures
            r@.len() == self.height / 2 + 2,
            forall|i: int| 0 <= i < r@.len() ==> (#[trigger] r@[i]).0 == 0 && r@[i].1 == i,
            r@[0].2@ == self.top_border(self.width as nat),
            forall|i: int|
                0 <= i < self.height / 2 ==> (#[trigger] r@[i + 1]).2@ == row_text(
                    self.half_row(i),
                ),
            r@[self.height / 2 + 1].2@ == self.bottom_border(self.width as nat),
    {
        let w = self.width;
        let rows = self.height / 2;
        let mut output: Vec<(u16, u16, String)> = Vec::new();
        let top = band(self.border_color, '\u{2554}', '\u{2550}', w, '\u{2557}');
        output.push((0, 0, top));
        let border = Glyph { ch: '\u{2551}', fg: Some(self.border_color), bg: None };
        let mut i: usize = 0;
        while i < rows
            invariant
                self.wf(),
                self.height % 2 == 0,
                w == self.width,
                rows == self.height / 2,
                rows + 1 <= u16::MAX,
                border == self.border_cell(),
                i <= rows,
                output@.len() == i + 1,
                forall|k: int| 0 <= k < output@.len() ==> (#[trigger] output@[k]).0 == 0 && output@[k].1 == k,
                output@[0].2@ == self.top_border(w as nat),
                forall|k: int| 0 <= k < i ==> (#[trigger] output@[k + 1]).2@ == row_text(self.half_row(k)),
            decreases rows - i,
        {
            let mut cells: Vec<Glyph> = Vec::new();
            let mut x: usize = 0;
            while x < w
                invariant
                    self.wf(),
                    w == self.width,
                    rows == self.height / 2,
                    self.height % 2 == 0,
                    i < rows,
                    x <= w,
                    cells@ =~= Seq::new(x as nat, |c: int| self.half_cell(c, i as int)),
                decreases w - x,
            {
                let top_px = shade_of(self.pixels[2 * i][x]);
                let low_px = shade_of(self.pixels[2 * i + 1][x]);
                cells.push(Glyph { ch: '\u{2580}', fg: Some(top_px), bg: Some(low_px) });
                x = x + 1;
            }
            let line = framed_line(border, &cells);
            assert(seq![border] + cells@ + seq![border] =~= self.half_row(i as int));
            output.push((0, (i + 1) as u16, line));
            i = i + 1;
        }
        let bottom = band(self.border_color, '\u{255A}', '\u{2550}', w, '\u{255D}');
        output.push((0, (rows + 1) as u16, bottom));
        output
    }
}

/// The color that `sprite`, placed with its top-left corner at `(x, y)`,
/// paints at canvas position `(px, py)`, counting only sprite cells before
/// row `row`, or in row `row` before column `col`.
pub open spec fn painted_before(
    sprite: &Sprite,
    x: int,
    y: int,
    px: int,
    py: int,
    row: int,
    col: int,
) -> Option<PaletteColor> {
    let sx = px - x;
    let sy = py - y;
    if 0 <= sx < sprite.width && 0 <= sy < sprite.height && (sy < row || (sy == row && sx < col)) {
        sprite.cell(sx, sy)
    } else {
        None
    }
}

/// The color that `sprite`, placed with its top-left corner at `(x, y)`,
/// paints at canvas position `(px, py)`, if any.
pub open spec fn sprite_paint(sprite: &Sprite, x: int, y: int, px: int, py: int) -> Option<
    PaletteColor,
> {
    painted_before(sprite, x, y, px, py, sprite.height as int, 0)
}

/// The canvas pixel after compositing: the sprite's paint where it has
/// some, else the pixel as it was.
pub open spec fn over(paint: Option<PaletteColor>, under: PaletteColor) -> PaletteColor {
    match paint {
        Some(c) => c,
        None => under,
    }
}

impl Game {
    /// Everything but the pixels is the same in both.
    pub open spec fn same_frame(&self, other: &Game) -> bool {
        &&& self.width == other.width
        &&& self.height == other.height
        &&& self.player_x == other.player_x
        &&& self.player_y == other.player_y
        &&& self.player_color == other.player_color
        &&& self.border_color == other.border_color
    }

    /// Composites `sprite` with its top-left corner at `(x, y)`: each painted
    /// sprite cell that lands inside the canvas overwrites the pixel there;
    /// all other pixels keep their color.
    pub fn draw_sprite(&mut self, x: i64, y: i64, sprite: &Sprite)
        requires
            old(self).wf(),
            sprite.wf(),
        ensures
            final(self).wf(),
            final(self).same_frame(old(self)),
            forall|px: int, py: int|
                0 <= px < final(self).width && 0 <= py < final(self).height
                    ==> #[trigger] final(self).pixel(px, py) == over(
                    sprite_paint(sprite, x as int, y as int, px, py),
                    old(self).pixel(px, py),
                ),
    {
        let ghost start = *self;
        let mut sy: usize = 0;
        while sy < sprite.height
            invariant
                self.wf(),
                sprite.wf(),
                self.same_frame(&start),
                sy <= sprite.height,
                forall|px: int, py: int|
                    0 <= px < self.width && 0 <= py < self.height ==> #[trigger] self.pixel(px, py)
                        == over(
                        painted_before(sprite, x as int, y as int, px, py, sy as int, 0),
                        start.pixel(px, py),
                    ),
            decreases sprite.height - sy,
        {
            let mut sx: usize = 0;
            while sx < sprite.width
                invariant
                    self.wf(),
                    sprite.wf(),
                    self.same_frame(&start),
                    sy < sprite.height,
                    sx <= sprite.width,
                    forall|px: int, py: int|
                        0 <= px < self.width && 0 <= py < self.height ==> #[trigger] self.pixel(
                            px,
                            py,
                        ) == over(
                            painted_before(sprite, x as int, y as int, px, py, sy as int, sx as int),
                            start.pixel(px, py),
                        ),
                decreases sprite.width - sx,
            {
                let px: i128 = x as i128 + sx as i128;
                let py: i128 = y as i128 + sy as i128;
                match sprite.cells[sy][sx] {
                    Some(c) => {
                        if 0 <= px && px < self.width as i128 && 0 <= py && py < self.height as i128 {
                            self.set_pixel(px as usize, py as usize, c);
                        }
                    },
                    None => {},
                }
                sx = sx + 1;
            }
            sy = sy + 1;
        }
    }
}

/// A braille block with no lit sub-pixel renders as a bare space, with no
/// color escape.
pub proof fn lemma_braille_blank_block(g: &Game, bx: int, by: int)
    requires
        forall|k: int| 0 <= k < 8 ==> !#[trigger] g.sub_lit(bx, by, k),
    ensures
        g.braille_cell(bx, by) == (Glyph { ch: ' ', fg: None, bg: None }),
        glyph_text(g.braille_cell(bx, by)) == seq![' '],
{
    reveal_with_fuel(Game::mask_upto, 9);
    assert(!g.sub_lit(bx, by, 0) && !g.sub_lit(bx, by, 1) && !g.sub_lit(bx, by, 2));
    assert(!g.sub_lit(bx, by, 3) && !g.sub_lit(bx, by, 4) && !g.sub_lit(bx, by, 5));
    assert(!g.sub_lit(bx, by, 6) && !g.sub_lit(bx, by, 7));
}

/// A braille block whose eight sub-pixels all hold the visible color `c`
/// renders as the full-dot glyph in `c`: one escape, the glyph, one reset.
pub proof fn lemma_braille_full_block(g: &Game, bx: int, by: int, c: PaletteColor)
    requires
        g.wf(),
        0 <= bx < g.width / 2,
        0 <= by < g.height / 4,
        c != PaletteColor::Transparent,
        forall|dx: int, dy: int| 0 <= dx < 2 && 0 <= dy < 4 ==> #[trigger] g.pixel(2 * bx + dx, 4 * by + dy) == c,
    ensures
        g.braille_mask(bx, by) == 0xFF,
        g.braille_cell(bx, by) == (Glyph { ch: braille_char(0xFF), fg: Some(c), bg: None }),
        glyph_text(g.braille_cell(bx, by)) == fg_seq(c) + seq![braille_char(0xFF)] + reset_seq(),
{
    reveal_with_fuel(Game::mask_upto, 9);
    reveal_with_fuel(Game::color_upto, 9);
    reveal_with_fuel(pow2, 8);
    assert(g.pixel(2 * bx + 0, 4 * by + 0) == c && g.pixel(2 * bx + 1, 4 * by + 0) == c);
    assert(g.pixel(2 * bx + 0, 4 * by + 1) == c && g.pixel(2 * bx + 1, 4 * by + 1) == c);
    assert(g.pixel(2 * bx + 0, 4 * by + 2) == c && g.pixel(2 * bx + 1, 4 * by + 2) == c);
    assert(g.pixel(2 * bx + 0, 4 * by + 3) == c && g.pixel(2 * bx + 1, 4 * by + 3) == c);
}

/// Each sub-pixel `(dx, dy)` of a braille block owns its own dot: when it
/// is the only lit one, the mask is exactly that dot's bit, and no two
/// sub-pixels share a bit.
pub proof fn lemma_braille_single_dot(g: &Game, bx: int, by: int, dx: int, dy: int)
    requires
        0 <= dx < 2,
        0 <= dy < 4,
        forall|k: int| 0 <= k < 8 ==> (#[trigger] g.sub_lit(bx, by, k) <==> k == 2 * dy + dx),
    ensures
        g.braille_mask(bx, by) == pow2(braille_bit(dx, dy)),
        braille_bit(dx, dy) < 8,
        forall|ex: int, ey: int|
            0 <= ex < 2 && 0 <= ey < 4 && (ex != dx || ey != dy) ==> braille_bit(ex, ey) != braille_bit(dx, dy),
{
    reveal_with_fuel(Game::mask_upto, 9);
    assert((2 * dy + dx) % 2 == dx && (2 * dy + dx) / 2 == dy);
}

/// Every interior row of a half-block render is the canvas width plus the
/// two border cells, and each column shows one upper-half-block glyph with
/// its own foreground and background.
pub proof fn lemma_half_block_row_shape(g: &Game, i: int)
    ensures
        g.half_row(i).len() == g.width + 2,
        g.half_row(i)[0] == g.border_cell(),
        g.half_row(i)[g.width + 1] == g.border_cell(),
        forall|k: int|
            1 <= k <= g.width ==> (#[trigger] g.half_row(i)[k]).ch == '\u{2580}' && g.half_row(i)[k].fg is Some
                && g.half_row(i)[k].bg is Some,
{
}

/// A sprite placed wholly off the canvas paints no canvas pixel, so
/// compositing it leaves the canvas as it was.
pub proof fn lemma_sprite_off_canvas(g: &Game, sprite: &Sprite, x: int, y: int)
    requires
        x >= g.width || y >= g.height || x + sprite.width <= 0 || y + sprite.height <= 0,
    ensures
        forall|px: int, py: int|
            0 <= px < g.width && 0 <= py < g.height ==> #[trigger] sprite_paint(sprite, x, y, px, py) is None,
{
}

} // verus!
