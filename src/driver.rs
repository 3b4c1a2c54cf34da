use vstd::prelude::*;
use crate::color::PaletteColor;
use crate::game::Game;
use crate::glyph::row_text;
use crate::error::ConfigError;

verus! {

/// A key press, as far as the frame loop cares.
#[derive(Debug, Clone, Copy, PartialEq, Eq, Structural)]
pub enum Key {
    Quit,
    Left,
    Right,
    Up,
    Down,
    Other,
}

/// Whether the frame loop goes on.
#[derive(Debug, Clone, Copy, PartialEq, Eq, Structural)]
pub enum RunState {
    Running,
    Stopped,
}

/// How the canvas is packed into character cells.
#[derive(Debug, Clone, Copy, PartialEq, Eq, Structural)]
pub enum GlyphMode {
    /// 2x4 pixels per cell, one color per cell.
    Braille,
    /// 1x2 pixels per cell, both colors kept.
    HalfBlock,
}

/// `v` moved one step down, stopping at zero.
pub open spec fn step_down(v: usize) -> usize {
    if v > 0 { (v - 1) as usize } else { 0 }
}

/// `v` moved one step up, stopping at `limit - 1`.
pub open spec fn step_up(v: usize, limit: usize) -> usize {
    if v + 1 < limit { (v + 1) as usize } else { (limit - 1) as usize }
}

/// Player position after `key`; keys that do not move leave it.
pub open spec fn moved(g: &Game, key: Key) -> (usize, usize) {
    match key {
        Key::Left => (step_down(g.player_x), g.player_y),
        Key::Right => (step_up(g.player_x, g.width), g.player_y),
        Key::Up => (g.player_x, step_down(g.player_y)),
        Key::Down => (g.player_x, step_up(g.player_y, g.height)),
        _ => (g.player_x, g.player_y),
    }
}

/// Frame time left to sleep: the target minus what the frame took, never
/// below zero.
pub fn frame_pause(target: u64, spent: u64) -> (r: u64)
    ensures
        r == if spent < target { target - spent } else { 0 },
{
    if spent < target {
        target - spent
    } else {
        0
    }
}

impl Game {
    /// A canvas for `mode`: both sides must be positive, and the height even
    /// for half blocks.
    pub fn try_new(width: usize, height: usize, mode: GlyphMode) -> (r: Result<Game, ConfigError>)
        ensures
            (width == 0 || height == 0) ==> r == Err::<Game, ConfigError>(ConfigError::EmptyCanvas),
            (width > 0 && height > 0 && mode == GlyphMode::HalfBlock && height % 2 == 1) ==> r
                == Err::<Game, ConfigError>(ConfigError::OddHeight),
            (width > 0 && height > 0 && (mode == GlyphMode::Braille || height % 2 == 0)) ==> {
                &&& r is Ok
                &&& r->Ok_0.wf()
                &&& r->Ok_0.width == width
                &&& r->Ok_0.height == height
                &&& r->Ok_0.player_x == width / 2
                &&& r->Ok_0.player_y == height / 2
                &&& forall|x: int, y: int|
                    0 <= x < width && 0 <= y < height ==> r->Ok_0.pixel(x, y)
                        == PaletteColor::Transparent
            },
    {
        if width == 0 || height == 0 {
            return Err(ConfigError::EmptyCanvas);
        }
        match mode {
            GlyphMode::HalfBlock => {
                if height % 2 == 1 {
                    return Err(ConfigError::OddHeight);
                }
            },
            GlyphMode::Braille => {},
        }
        Ok(Game::new(width, height))
    }

    /// Moves the player one pixel for an arrow key, clamped to the canvas.
    pub fn move_player(&mut self, key: Key)
        requires
            old(self).width > 0,
            old(self).height > 0,
        ensures
            (final(self).player_x, final(self).player_y) == moved(old(self), key),
            final(self).width == old(self).width,
            final(self).height == old(self).height,
            final(self).pixels == old(self).pixels,
            final(self).player_color == old(self).player_color,
            final(self).border_color == old(self).border_color,
    {
        match key {
            Key::Left => {
                self.player_x = if self.player_x > 0 { self.player_x - 1 } else { 0 };
            },
            Key::Right => {
                self.player_x = if self.player_x < self.width - 1 { self.player_x + 1 } else { self.width - 1 };
            },
            Key::Up => {
                self.player_y = if self.player_y > 0 { self.player_y - 1 } else { 0 };
            },
            Key::Down => {
                self.player_y = if self.player_y < self.height - 1 { self.player_y + 1 } else { self.height - 1 };
            },
            _ => {},
        }
    }

    /// Applies one key press: quit stops the loop, arrows move the player.
    pub fn handle_key(&mut self, key: Key) -> (r: RunState)
        requires
            old(self).width > 0,
            old(self).height > 0,
        ensures
            r == if key == Key::Quit { RunState::Stopped } else { RunState::Running },
            (final(self).player_x, final(self).player_y) == moved(old(self), key),
            final(self).width == old(self).width,
            final(self).height == old(self).height,
            final(self).pixels == old(self).pixels,
            final(self).player_color == old(self).player_color,
            final(self).border_color == old(self).border_color,
    {
        match key {
            Key::Quit => RunState::Stopped,
            _ => {
                self.move_player(key);
                RunState::Running
            },
        }
    }

    /// Repaints the frame: a cleared canvas with the player's pixel.
    pub fn paint_frame(&mut self)
        requires
            old(self).wf(),
        ensures
            final(self).wf(),
            final(self).same_frame(old(self)),
            forall|x: int, y: int|
                0 <= x < final(self).width && 0 <= y < final(self).height ==> #[trigger] final(self).pixel(x, y)
                    == if x == old(self).player_x && y == old(self).player_y {
                    old(self).player_color
                } else {
                    PaletteColor::Transparent
                },
    {
        self.clear();
        let (x, y, c) = (self.player_x, self.player_y, self.player_color);
        self.set_pixel(x, y, c);
    }

    /// Renders in the given mode; see `render` and `render_half_block`.
    pub fn render_as(&self, mode: GlyphMode) -> (r: Vec<(u16, u16, String)>)
        requires
            self.wf(),
            mode == GlyphMode::HalfBlock ==> self.height % 2 == 0,
            self.height / 2 + 1 <= u16::MAX,
        ensures
            mode == GlyphMode::Braille ==> {
                &&& r@.len() == self.height / 4 + 2
                &&& forall|i: int| 0 <= i < r@.len() ==> (#[trigger] r@[i]).0 == 0 && r@[i].1 == i
                &&& r@[0].2@ == self.top_border((self.width / 2) as nat)
                &&& forall|i: int|
                    0 <= i < self.height / 4 ==> (#[trigger] r@[i + 1]).2@ == row_text(self.braille_row(i))
                &&& r@[self.height / 4 + 1].2@ == self.bottom_border((self.width / 2) as nat)
            },
            mode == GlyphMode::HalfBlock ==> {
                &&& r@.len() == self.height / 2 + 2
                &&& forall|i: int| 0 <= i < r@.len() ==> (#[trigger] r@[i]).0 == 0 && r@[i].1 == i
                &&& r@[0].2@ == self.top_border(self.width as nat)
                &&& forall|i: int|
                    0 <= i < self.height / 2 ==> (#[trigger] r@[i + 1]).2@ == row_text(self.half_row(i))
                &&& r@[self.height / 2 + 1].2@ == self.bottom_border(self.width as nat)
            },
    {
        match mode {
            GlyphMode::Braille => self.render(),
            GlyphMode::HalfBlock => self.render_half_block(),
        }
    }
}

/// Moves stay on the canvas: from a position inside it, every key leaves the
/// player inside it, moving left or up from zero stays at zero, and moving
/// right or down from the last column or row stays there.
pub proof fn lemma_moves_clamp(g: &Game, key: Key)
    requires
        g.width > 0,
        g.height > 0,
        g.player_x < g.width,
        g.player_y < g.height,
    ensures
        moved(g, key).0 < g.width,
        moved(g, key).1 < g.height,
        g.player_x == 0 ==> moved(g, Key::Left).0 == 0,
        g.player_x == g.width - 1 ==> moved(g, Key::Right).0 == g.width - 1,
        g.player_y == 0 ==> moved(g, Key::Up).1 == 0,
        g.player_y == g.height - 1 ==> moved(g, Key::Down).1 == g.height - 1,
{
}

} // verus!
