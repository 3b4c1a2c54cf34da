use termpix::color::PaletteColor;
use termpix::driver::{frame_pause, GlyphMode, Key, RunState};
use termpix::game::Game;
use termpix::glyph::Glyph;
use termpix::error::ConfigError;
use termpix::sprite::{Animation, Sprite};

const RESET: &str = "\x1b[0m";

fn fg(r: u8, g: u8, b: u8) -> String {
    format!("\x1b[38;2;{};{};{}m", r, g, b)
}

fn bg(r: u8, g: u8, b: u8) -> String {
    format!("\x1b[48;2;{};{};{}m", r, g, b)
}

fn strip_escapes(s: &str) -> String {
    let mut out = String::new();
    let mut in_escape = false;
    for c in s.chars() {
        if in_escape {
            if c == 'm' {
                in_escape = false;
            }
        } else if c == '\x1b' {
            in_escape = true;
        } else {
            out.push(c);
        }
    }
    out
}

fn filled(width: usize, height: usize, color: PaletteColor) -> Game {
    let mut g = Game::new(width, height);
    for y in 0..height {
        for x in 0..width {
            g.set_pixel(x, y, color);
        }
    }
    g
}

#[test]
fn palette_rgb_table() {
    assert_eq!(PaletteColor::Black.rgb(), (0, 0, 0));
    assert_eq!(PaletteColor::Red.rgb(), (0xFF, 0x00, 0x4D));
    assert_eq!(PaletteColor::Peach.rgb(), (0xFF, 0xCC, 0xAA));
    assert_eq!(PaletteColor::Transparent.rgb(), (0, 0, 0));
}

#[test]
fn palette_to_rgb_gives_crossterm_rgb() {
    assert_eq!(
        PaletteColor::DarkBlue.to_rgb(),
        crossterm::style::Color::Rgb { r: 0x1D, g: 0x2B, b: 0x53 }
    );
    assert_eq!(
        PaletteColor::Green.to_rgb(),
        crossterm::style::Color::Rgb { r: 0x00, g: 0xE4, b: 0x36 }
    );
}

#[test]
fn palette_escapes() {
    assert_eq!(PaletteColor::Red.ansi_fg(), "\x1b[38;2;255;0;77m");
    assert_eq!(PaletteColor::Blue.ansi_bg(), "\x1b[48;2;41;173;255m");
    assert_eq!(PaletteColor::Black.ansi_fg(), "\x1b[38;2;0;0;0m");
    assert!(PaletteColor::Transparent.is_transparent());
    assert!(!PaletteColor::Black.is_transparent());
}

#[test]
fn new_canvas_is_transparent_with_centered_player() {
    let g = Game::new(6, 8);
    assert_eq!(g.width, 6);
    assert_eq!(g.height, 8);
    assert_eq!(g.pixels.len(), 8);
    assert!(g.pixels.iter().all(|row| row.len() == 6));
    assert!(g.pixels.iter().flatten().all(|c| *c == PaletteColor::Transparent));
    assert_eq!((g.player_x, g.player_y), (3, 4));
    assert_eq!(g.player_color, PaletteColor::Red);
    assert_eq!(g.border_color, PaletteColor::Green);
}

#[test]
fn set_pixel_drops_out_of_bounds_writes() {
    let mut g = Game::new(4, 4);
    g.set_pixel(1, 2, PaletteColor::Blue);
    g.set_pixel(4, 0, PaletteColor::Red);
    g.set_pixel(0, 4, PaletteColor::Red);
    g.set_pixel(usize::MAX, usize::MAX, PaletteColor::Red);
    assert_eq!(g.pixels[2][1], PaletteColor::Blue);
    let painted = g.pixels.iter().flatten().filter(|c| **c != PaletteColor::Transparent).count();
    assert_eq!(painted, 1);
}

#[test]
fn clear_resets_every_pixel() {
    let mut g = filled(3, 5, PaletteColor::Pink);
    g.clear();
    assert!(g.pixels.iter().flatten().all(|c| *c == PaletteColor::Transparent));
    assert_eq!(g.pixels.len(), 5);
}

#[test]
fn braille_blank_block_is_space_without_color() {
    let g = Game::new(4, 8);
    assert_eq!(g.get_braille_char_and_color(0, 0), (' ', None));
    assert_eq!(g.get_braille_char_and_color(1, 1), (' ', None));
}

#[test]
fn braille_full_block_is_all_dots() {
    let g = filled(2, 4, PaletteColor::Orange);
    assert_eq!(g.get_braille_char_and_color(0, 0), ('\u{28FF}', Some(PaletteColor::Orange)));
    let lines = g.render();
    let expected = format!("{}{}{}", fg(0xFF, 0xA3, 0x00), '\u{28FF}', RESET);
    assert!(lines[1].2.contains(&expected));
    assert_eq!(lines[1].2.matches("\x1b[38;2;255;163;0m").count(), 1);
}

#[test]
fn braille_each_sub_pixel_has_its_own_bit() {
    let bits = [((0, 0), 0), ((0, 1), 1), ((0, 2), 2), ((0, 3), 6), ((1, 0), 3), ((1, 1), 4), ((1, 2), 5), ((1, 3), 7)];
    let mut seen = 0u32;
    for ((dx, dy), bit) in bits {
        let mut g = Game::new(4, 8);
        g.set_pixel(2 + dx, 4 + dy, PaletteColor::White);
        let (ch, color) = g.get_braille_char_and_color(1, 1);
        assert_eq!(ch as u32, 0x2800 + (1u32 << bit));
        assert_eq!(color, Some(PaletteColor::White));
        seen |= 1 << bit;
    }
    assert_eq!(seen, 0xFF);
}

#[test]
fn braille_color_is_first_lit_in_raster_order() {
    let mut g = Game::new(2, 4);
    g.set_pixel(0, 1, PaletteColor::Blue);
    g.set_pixel(1, 0, PaletteColor::Yellow);
    g.set_pixel(1, 3, PaletteColor::Red);
    let (ch, color) = g.get_braille_char_and_color(0, 0);
    assert_eq!(ch as u32, 0x2800 + 8 + 2 + 128);
    assert_eq!(color, Some(PaletteColor::Yellow));
}

#[test]
fn braille_render_exact_lines() {
    let mut g = Game::new(4, 4);
    g.set_pixel(0, 0, PaletteColor::Red);
    let lines = g.render();
    assert_eq!(lines.len(), 3);
    let border = fg(0x00, 0xE4, 0x36);
    assert_eq!(lines[0], (0, 0, format!("{}\u{2554}\u{2550}\u{2550}\u{2557}{}", border, RESET)));
    let row = format!(
        "{b}\u{2551}{r}{red}\u{2801}{r} {b}\u{2551}{r}",
        b = border,
        r = RESET,
        red = fg(0xFF, 0x00, 0x4D)
    );
    assert_eq!(lines[1], (0, 1, row));
    assert_eq!(lines[2], (0, 2, format!("{}\u{255A}\u{2550}\u{2550}\u{255D}{}", border, RESET)));
}

#[test]
fn braille_render_never_emits_transparent() {
    let g = Game::new(8, 8);
    for (_, _, line) in g.render() {
        assert!(!line.contains("\x1b[38;2;0;0;0m"));
        assert!(!line.contains("\x1b[48;2;"));
    }
}

#[test]
fn half_block_line_counts_and_widths() {
    for (w, h) in [(1usize, 2usize), (4, 4), (5, 6), (10, 2)] {
        let g = Game::new(w, h);
        let lines = g.render_half_block();
        assert_eq!(lines.len(), h / 2 + 2);
        for (i, (x, y, text)) in lines.iter().enumerate() {
            assert_eq!(*x, 0);
            assert_eq!(*y as usize, i);
            assert_eq!(strip_escapes(text).chars().count(), w + 2);
        }
    }
}

#[test]
fn half_block_end_to_end_with_transparent_corner() {
    let mut g = filled(4, 4, PaletteColor::Red);
    g.set_pixel(3, 3, PaletteColor::Transparent);
    let lines = g.render_half_block();
    assert_eq!(lines.len(), 4);
    let interior = &lines[1..3];
    for (_, _, text) in interior {
        assert_eq!(text.matches('\u{2580}').count(), 4);
    }
    let red = fg(0xFF, 0x00, 0x4D);
    let last = format!("{}{}\u{2580}{}", red, bg(0, 0, 0), RESET);
    let border = format!("{}\u{2551}{}", fg(0x00, 0xE4, 0x36), RESET);
    assert!(lines[2].2.ends_with(&format!("{}{}", last, border)));
    let full = format!("{}{}\u{2580}{}", red, bg(0xFF, 0x00, 0x4D), RESET);
    assert_eq!(lines[1].2, format!("{}{}{}", border, full.repeat(4), border));
}

#[test]
fn render_as_dispatches_on_mode() {
    let g = filled(4, 8, PaletteColor::Indigo);
    assert_eq!(g.render_as(GlyphMode::Braille), g.render());
    assert_eq!(g.render_as(GlyphMode::HalfBlock), g.render_half_block());
}

#[test]
fn try_new_rejects_bad_sizes() {
    assert_eq!(Game::try_new(0, 4, GlyphMode::Braille).err(), Some(ConfigError::EmptyCanvas));
    assert_eq!(Game::try_new(4, 0, GlyphMode::HalfBlock).err(), Some(ConfigError::EmptyCanvas));
    assert_eq!(Game::try_new(4, 5, GlyphMode::HalfBlock).err(), Some(ConfigError::OddHeight));
    let g = Game::try_new(4, 5, GlyphMode::Braille).ok().unwrap();
    assert_eq!((g.width, g.height), (4, 5));
    assert!(Game::try_new(4, 6, GlyphMode::HalfBlock).is_ok());
}

fn pattern(rows: &[&str]) -> Vec<String> {
    rows.iter().map(|r| r.to_string()).collect()
}

#[test]
fn sprite_from_pattern() {
    let table = vec![('r', PaletteColor::Red), ('b', PaletteColor::Blue), ('r', PaletteColor::Green)];
    let s = Sprite::new(&pattern(&["r.b", "bbr"]), &table).ok().unwrap();
    assert_eq!((s.width, s.height), (3, 2));
    assert_eq!(s.cells[0], vec![Some(PaletteColor::Red), None, Some(PaletteColor::Blue)]);
    assert_eq!(s.cells[1], vec![Some(PaletteColor::Blue), Some(PaletteColor::Blue), Some(PaletteColor::Red)]);
}

#[test]
fn sprite_errors() {
    let table = vec![('x', PaletteColor::Red)];
    assert_eq!(Sprite::new(&Vec::new(), &table).err(), Some(ConfigError::EmptyPattern));
    assert_eq!(Sprite::new(&pattern(&["", ""]), &table).err(), Some(ConfigError::EmptyPattern));
    assert_eq!(Sprite::new(&pattern(&["xx", "x"]), &table).err(), Some(ConfigError::RaggedRows));
}

fn two_by_two() -> Sprite {
    let table = vec![('x', PaletteColor::Brown)];
    Sprite::new(&pattern(&["x.", "xx"]), &table).ok().unwrap()
}

#[test]
fn draw_sprite_composites_and_clips() {
    let mut g = filled(3, 3, PaletteColor::White);
    let s = two_by_two();
    g.draw_sprite(2, 2, &s);
    assert_eq!(g.pixels[2][2], PaletteColor::Brown);
    g.draw_sprite(-1, -1, &s);
    assert_eq!(g.pixels[0][0], PaletteColor::Brown);
    assert_eq!(g.pixels[0][1], PaletteColor::White);
    assert_eq!(g.pixels[1][1], PaletteColor::White);
    let browns = g.pixels.iter().flatten().filter(|c| **c == PaletteColor::Brown).count();
    assert_eq!(browns, 2);
}

#[test]
fn draw_sprite_fully_off_canvas_changes_nothing() {
    let mut g = filled(3, 3, PaletteColor::White);
    let s = two_by_two();
    for (x, y) in [(3i64, 0i64), (0, 3), (-2, 0), (0, -2), (i64::MIN, i64::MIN), (i64::MAX, i64::MAX)] {
        g.draw_sprite(x, y, &s);
    }
    assert!(g.pixels.iter().flatten().all(|c| *c == PaletteColor::White));
}

fn frames(n: usize) -> Vec<Sprite> {
    (0..n).map(|_| two_by_two()).collect()
}

#[test]
fn animation_catches_up_on_long_ticks() {
    let mut a = Animation::new(frames(3), 1000).ok().unwrap();
    assert_eq!((a.current_frame, a.accumulated), (0, 0));
    a.update(3500);
    assert_eq!(a.current_frame, 0);
    assert_eq!(a.accumulated, 500);
    a.update(600);
    assert_eq!((a.current_frame, a.accumulated), (1, 100));
    a.update(u64::MAX);
    let total = 100u128 + u64::MAX as u128;
    assert_eq!(a.accumulated as u128, total % 1000);
    assert_eq!(a.current_frame as u128, (1 + total / 1000) % 3);
    assert_eq!(a.current_sprite().width, 2);
}

#[test]
fn animation_errors() {
    assert_eq!(Animation::new(Vec::new(), 10).err(), Some(ConfigError::NoFrames));
    assert_eq!(Animation::new(frames(1), 0).err(), Some(ConfigError::ZeroDuration));
}

#[test]
fn player_moves_clamp_at_edges() {
    let mut g = Game::new(3, 2);
    g.player_x = 0;
    g.player_y = 0;
    g.move_player(Key::Left);
    g.move_player(Key::Up);
    assert_eq!((g.player_x, g.player_y), (0, 0));
    g.player_x = 2;
    g.player_y = 1;
    g.move_player(Key::Right);
    g.move_player(Key::Down);
    assert_eq!((g.player_x, g.player_y), (2, 1));
    g.move_player(Key::Left);
    g.move_player(Key::Up);
    assert_eq!((g.player_x, g.player_y), (1, 0));
}

#[test]
fn handle_key_quits_and_moves() {
    let mut g = Game::new(4, 4);
    assert_eq!(g.handle_key(Key::Right), RunState::Running);
    assert_eq!(g.player_x, 3);
    assert_eq!(g.handle_key(Key::Other), RunState::Running);
    assert_eq!(g.handle_key(Key::Quit), RunState::Stopped);
    assert_eq!((g.player_x, g.player_y), (3, 2));
}

#[test]
fn paint_frame_draws_only_the_player() {
    let mut g = filled(4, 4, PaletteColor::Blue);
    g.paint_frame();
    assert_eq!(g.pixels[2][2], PaletteColor::Red);
    let lit = g.pixels.iter().flatten().filter(|c| **c != PaletteColor::Transparent).count();
    assert_eq!(lit, 1);
}

#[test]
fn frame_pause_never_negative() {
    assert_eq!(frame_pause(16, 10), 6);
    assert_eq!(frame_pause(16, 16), 0);
    assert_eq!(frame_pause(16, 40), 0);
}

#[test]
fn glyph_is_plain_data() {
    let g = Glyph { ch: 'a', fg: None, bg: Some(PaletteColor::Black) };
    assert_eq!(g, g.clone());
}
