use vstd::prelude::*;
use vstd::string::StrSliceExecFns;
use crate::color::PaletteColor;
use crate::error::ConfigError;

verus! {

/// The color that the first entry for `c` in `table` gives, if any.
pub open spec fn lookup(table: Seq<(char, PaletteColor)>, c: char) -> Option<PaletteColor>
    decreases table.len(),
{
    if table.len() == 0 {
        None
    } else if table[0].0 == c {
        Some(table[0].1)
    } else {
        lookup(table.drop_first(), c)
    }
}

fn lookup_color(table: &Vec<(char, PaletteColor)>, c: char) -> (r: Option<PaletteColor>)
    ensures
        r == lookup(table@, c),
{
    let mut k: usize = 0;
    assert(table@.subrange(0, table@.len() as int) =~= table@);
    while k < table.len()
        invariant
            k <= table.len(),
            lookup(table@, c) == lookup(table@.subrange(k as int, table@.len() as int), c),
        decreases table.len() - k,
    {
        let ghost rest = table@.subrange(k as int, table@.len() as int);
        assert(rest.drop_first() =~= table@.subrange(k as int + 1, table@.len() as int));
        if table[k].0 == c {
            return Some(table[k].1);
        }
        k = k + 1;
    }
    None
}

/// A rectangular pixel pattern; `None` cells leave the canvas untouched.
pub struct Sprite {
    pub width: usize,
    pub height: usize,
    pub cells: Vec<Vec<Option<PaletteColor>>>,
}

impl Sprite {
    /// The pattern holds `height` rows of `width` cells each.
    pub open spec fn wf(&self) -> bool {
        &&& self.cells@.len() == self.height
        &&& forall|y: int| 0 <= y < self.height ==> (#[trigger] self.cells@[y])@.len() == self.width
    }

    pub open spec fn cell(&self, x: int, y: int) -> Option<PaletteColor> {
        self.cells@[y]@[x]
    }

    /// Builds a sprite from rows of characters, each mapped through `table`;
    /// a character without an entry gives an unpainted cell.
    pub fn new(rows: &Vec<String>, table: &Vec<(char, PaletteColor)>) -> (r: Result<
        Sprite,
        ConfigError,
    >)
        ensures
            (rows@.len() == 0 || rows@[0]@.len() == 0) ==> r == Err::<Sprite, ConfigError>(
                ConfigError::EmptyPattern,
            ),
            (rows@.len() > 0 && rows@[0]@.len() > 0) ==> {
                &&& (exists|y: int| 0 <= y < rows@.len() && (#[trigger] rows@[y])@.len() != rows@[0]@.len())
                    <==> r == Err::<Sprite, ConfigError>(ConfigError::RaggedRows)
                &&& r is Ok || r == Err::<Sprite, ConfigError>(ConfigError::RaggedRows)
                &&& r is Ok ==> {
                    let s = r->Ok_0;
                    &&& s.wf()
                    &&& s.width == rows@[0]@.len()
                    &&& s.height == rows@.len()
                    &&& forall|x: int, y: int|
                        0 <= x < s.width && 0 <= y < s.height ==> s.cell(x, y) == lookup(
                            table@,
                            rows@[y]@[x],
                        )
                }
            },
    {
        if rows.len() == 0 {
            return Err(ConfigError::EmptyPattern);
        }
        let width = rows[0].as_str().unicode_len();
        if width == 0 {
            return Err(ConfigError::EmptyPattern);
        }
        let mut cells: Vec<Vec<Option<PaletteColor>>> = Vec::new();
        let mut y: usize = 0;
        while y < rows.len()
            invariant
                y <= rows@.len(),
                width == rows@[0]@.len(),
                width > 0,
                cells@.len() == y,
                forall|j: int| 0 <= j < y ==> (#[trigger] rows@[j])@.len() == width,
                forall|j: int| 0 <= j < y ==> (#[trigger] cells@[j])@.len() == width,
                forall|i: int, j: int|
                    0 <= i < width && 0 <= j < y ==> cells@[j]@[i] == lookup(table@, rows@[j]@[i]),
            decreases rows@.len() - y,
        {
            let row = rows[y].as_str();
            if row.unicode_len() != width {
                return Err(ConfigError::RaggedRows);
            }
            let mut line: Vec<Option<PaletteColor>> = Vec::new();
            let mut x: usize = 0;
            while x < width
                invariant
                    x <= width,
                    width == row@.len(),
                    row@ == rows@[y as int]@,
                    line@.len() == x,
                    forall|i: int| 0 <= i < x ==> line@[i] == lookup(table@, row@[i]),
                decreases width - x,
            {
                let c = row.get_char(x);
                line.push(lookup_color(table, c));
                x = x + 1;
            }
            cells.push(line);
            y = y + 1;
        }
        Ok(Sprite { width, height: rows.len(), cells })
    }
}

/// A looping sequence of sprites that advances one frame per elapsed
/// `frame_duration`, carrying leftover time to the next update.
pub struct Animation {
    pub frames: Vec<Sprite>,
    pub current_frame: usize,
    pub frame_duration: u64,
    pub accumulated: u64,
}

impl Animation {
    /// At least one frame, a positive duration, the current frame in range and
    /// less than one frame's worth of time carried.
    pub open spec fn wf(&self) -> bool {
        &&& self.frames@.len() > 0
        &&& self.current_frame < self.frames@.len()
        &&& self.frame_duration > 0
        &&& self.accumulated < self.frame_duration
    }

    /// An animation at its first frame with no time carried.
    pub fn new(frames: Vec<Sprite>, frame_duration: u64) -> (r: Result<Animation, ConfigError>)
        ensures
            frames@.len() == 0 ==> r == Err::<Animation, ConfigError>(ConfigError::NoFrames),
            frames@.len() > 0 && frame_duration == 0 ==> r == Err::<Animation, ConfigError>(
                ConfigError::ZeroDuration,
            ),
            frames@.len() > 0 && frame_duration > 0 ==> r is Ok && r->Ok_0.wf() && r->Ok_0.frames@
                == frames@ && r->Ok_0.current_frame == 0 && r->Ok_0.frame_duration == frame_duration
                && r->Ok_0.accumulated == 0,
    {
        if frames.len() == 0 {
            return Err(ConfigError::NoFrames);
        }
        if frame_duration == 0 {
            return Err(ConfigError::ZeroDuration);
        }
        Ok(Animation { frames, current_frame: 0, frame_duration, accumulated: 0 })
    }

    /// Adds `elapsed` to the carried time and advances one frame, wrapping,
    /// for each whole frame duration in it; what is left is carried.
    pub fn update(&mut self, elapsed: u64)
        requires
            old(self).wf(),
        ensures
            final(self).wf(),
            final(self).frames@ == old(self).frames@,
            final(self).frame_duration == old(self).frame_duration,
            final(self).accumulated == (old(self).accumulated + elapsed) % (
            old(self).frame_duration as int),
            final(self).current_frame == (old(self).current_frame + (old(self).accumulated + elapsed)
                / (old(self).frame_duration as int)) % (old(self).frames@.len() as int),
    {
        let n = self.frames.len() as u128;
        let d = self.frame_duration as u128;
        let total: u128 = self.accumulated as u128 + elapsed as u128;
        let steps: u128 = total / d;
        let cur = self.current_frame as u128;
        let next: u128 = (cur + steps % n) % n;
        proof {
            vstd::arithmetic::div_mod::lemma_add_mod_noop(cur as int, steps as int, n as int);
            vstd::arithmetic::div_mod::lemma_small_mod(cur as nat, n as nat);
            vstd::arithmetic::div_mod::lemma_mod_twice(steps as int, n as int);
            vstd::arithmetic::div_mod::lemma_add_mod_noop(cur as int, (steps % n) as int, n as int);
        }
        self.accumulated = (total % d) as u64;
        self.current_frame = next as usize;
    }

    /// The sprite of the current frame.
    pub fn current_sprite(&self) -> (r: &Sprite)
        requires
            self.wf(),
        ensures
            r == self.frames@[self.current_frame as int],
    {
        &self.frames[self.current_frame]
    }
}

} // verus!
