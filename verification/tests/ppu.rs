use gameboy_crust::gpu::{shade_color, shade_of, Gpu, SpriteEntry, StatusMode, TileEntry};
use gameboy_crust::interrupt::InterruptHandler;
use gameboy_crust::sink::VideoSink;

const WHITE: u32 = 0xEEEEEE;
const LIGHT: u32 = 0x999999;
const DARK: u32 = 0x666666;
const BLACK: u32 = 0x222222;

struct Rig {
    gpu: Gpu,
    interrupt: InterruptHandler,
    sink: VideoSink,
}

fn rig() -> Rig {
    let mut interrupt = InterruptHandler::new();
    interrupt.write(0xFF0F, 0x00);
    Rig { gpu: Gpu::new(), interrupt, sink: VideoSink::new() }
}

fn run(rig: &mut Rig, cycles: usize) {
    rig.gpu.cycles(cycles, &mut rig.interrupt, &mut rig.sink);
}

fn ly(rig: &Rig) -> u8 {
    rig.gpu.read(0xFF44)
}

fn stat(rig: &Rig) -> u8 {
    rig.gpu.read(0xFF41)
}

fn write_tile_row(gpu: &mut Gpu, tile: u16, row: u16, lo: u8, hi: u8) {
    gpu.write(0x8000 + tile * 16 + row * 2, lo);
    gpu.write(0x8000 + tile * 16 + row * 2 + 1, hi);
}

fn line(rig: &Rig, y: usize) -> Vec<u32> {
    rig.gpu.frame()[y * 160..(y + 1) * 160].to_vec()
}

fn blanked() -> Rig {
    let mut r = rig();
    r.gpu.write(0xFF40, 0x00);
    r
}

fn draw_first_line(r: &mut Rig, lcdc: u8) {
    r.gpu.write(0xFF40, lcdc);
    run(r, 252);
    assert_eq!(r.gpu.get_mode(), StatusMode::HBlank);
}

#[test]
fn ppu_lyc_coincidence() {
    let mut r = rig();
    r.gpu.write(0xFF45, 0x10);
    r.gpu.write(0xFF41, 0x40);
    let mut requests_on_line = 0;
    let mut seen_line = false;
    let mut seen_next = false;
    while ly(&r) <= 0x11 {
        run(&mut r, 4);
        let line = ly(&r);
        let requested = r.interrupt.read(0xFF0F) & 0x02 != 0;
        r.interrupt.write(0xFF0F, 0x00);
        if line < 0x10 {
            assert!(!requested);
            assert_eq!(stat(&r) & 0x04, 0);
        } else if line == 0x10 {
            if !seen_line {
                assert!(requested);
                seen_line = true;
            }
            if requested {
                requests_on_line += 1;
            }
            assert_eq!(stat(&r) & 0x04, 0x04);
        } else if line == 0x11 {
            assert!(!requested);
            assert_eq!(stat(&r) & 0x04, 0);
            seen_next = true;
        }
    }
    assert!(seen_line && seen_next);
    assert_eq!(requests_on_line, 1);
}

#[test]
fn initial_state() {
    let r = rig();
    assert_eq!(r.gpu.read(0xFF40), 0x91);
    assert_eq!(r.gpu.read(0xFF47), 0xFC);
    assert_eq!(ly(&r), 0);
    assert_eq!(stat(&r), 0x02);
    assert_eq!(r.gpu.get_mode(), StatusMode::Oam);
    assert!(r.gpu.display_enabled());
    assert_eq!(r.gpu.frame().len(), 160 * 144);
    assert!(r.gpu.frame().iter().all(|pixel| *pixel == 0xFF00FF));
}

#[test]
fn scanline_goes_through_its_phases() {
    let mut r = rig();
    run(&mut r, 79);
    assert_eq!(r.gpu.get_mode(), StatusMode::Oam);
    run(&mut r, 1);
    assert_eq!(r.gpu.get_mode(), StatusMode::Transfer);
    assert_eq!(stat(&r) & 0x03, 3);
    run(&mut r, 171);
    assert_eq!(r.gpu.get_mode(), StatusMode::Transfer);
    run(&mut r, 1);
    assert_eq!(r.gpu.get_mode(), StatusMode::HBlank);
    assert_eq!(stat(&r) & 0x03, 0);
    run(&mut r, 203);
    assert_eq!(ly(&r), 0);
    run(&mut r, 1);
    assert_eq!(ly(&r), 1);
    assert_eq!(r.gpu.get_mode(), StatusMode::Oam);
    assert_eq!(stat(&r) & 0x03, 2);
}

#[test]
fn one_tick_may_span_many_phases() {
    let mut r = rig();
    run(&mut r, 456 * 3 + 100);
    assert_eq!(ly(&r), 3);
    assert_eq!(r.gpu.get_mode(), StatusMode::Transfer);
}

#[test]
fn vblank_requests_interrupt_and_delivers_frame() {
    let mut r = rig();
    run(&mut r, 456 * 144 - 1);
    assert_eq!(ly(&r), 143);
    assert_eq!(r.interrupt.read(0xFF0F) & 0x01, 0);
    run(&mut r, 1);
    assert_eq!(ly(&r), 144);
    assert_eq!(r.gpu.get_mode(), StatusMode::VBlank);
    assert_eq!(stat(&r) & 0x03, 1);
    assert_eq!(r.interrupt.read(0xFF0F) & 0x01, 0x01);
    let expected = r.gpu.frame().clone();
    assert_eq!(r.sink.consume(), Some(expected));
}

#[test]
fn ly_goes_round_once_per_frame() {
    let mut r = rig();
    let mut seen = vec![0usize; 154];
    let mut last = 255u8;
    for _ in 0..(70224 / 4) {
        let line = ly(&r);
        if line != last {
            seen[line as usize] += 1;
            last = line;
        }
        run(&mut r, 4);
    }
    assert!(seen.iter().all(|count| *count == 1));
    assert_eq!(ly(&r), 0);
    assert_eq!(r.gpu.get_mode(), StatusMode::Oam);
    run(&mut r, 70224 + 456 * 5);
    assert_eq!(ly(&r), 5);
}

#[test]
fn stat_interrupts_on_mode_entry() {
    let mut r = rig();
    r.gpu.write(0xFF45, 0xFF);
    r.gpu.write(0xFF41, 0x08);
    run(&mut r, 251);
    assert_eq!(r.interrupt.read(0xFF0F) & 0x02, 0);
    run(&mut r, 1);
    assert_eq!(r.interrupt.read(0xFF0F) & 0x02, 0x02);
    r.interrupt.write(0xFF0F, 0x00);
    run(&mut r, 100);
    assert_eq!(r.interrupt.read(0xFF0F) & 0x02, 0);

    r.gpu.write(0xFF41, 0x20);
    run(&mut r, 103);
    assert_eq!(r.interrupt.read(0xFF0F) & 0x02, 0);
    run(&mut r, 1);
    assert_eq!(ly(&r), 1);
    assert_eq!(r.interrupt.read(0xFF0F) & 0x02, 0x02);
    r.interrupt.write(0xFF0F, 0x00);

    r.gpu.write(0xFF41, 0x10);
    run(&mut r, 456 * 143 - 1);
    assert_eq!(r.interrupt.read(0xFF0F), 0x00);
    run(&mut r, 1);
    assert_eq!(r.interrupt.read(0xFF0F), 0x03);
    r.interrupt.write(0xFF0F, 0x00);
    run(&mut r, 456 * 9);
    assert_eq!(ly(&r), 153);
    assert_eq!(r.interrupt.read(0xFF0F), 0x00);
}

#[test]
fn stat_low_bits_are_read_only() {
    let mut r = rig();
    run(&mut r, 80);
    r.gpu.write(0xFF41, 0xF8);
    assert_eq!(stat(&r), 0xF8 | 0x04 | 0x03);
    r.gpu.write(0xFF41, 0x07);
    assert_eq!(stat(&r), 0x04 | 0x03);
}

#[test]
fn writing_ly_resets_the_scanline_counter() {
    let mut r = rig();
    run(&mut r, 456 * 20 + 300);
    assert_eq!(ly(&r), 20);
    r.gpu.write(0xFF44, 0x55);
    assert_eq!(ly(&r), 0);
    assert_eq!(r.gpu.get_mode(), StatusMode::Oam);
    run(&mut r, 455);
    assert_eq!(ly(&r), 0);
    run(&mut r, 1);
    assert_eq!(ly(&r), 1);
}

#[test]
fn disabled_lcd_rests() {
    let mut r = rig();
    run(&mut r, 456 * 50 + 100);
    r.gpu.write(0xFF40, 0x11);
    assert!(!r.gpu.display_enabled());
    assert_eq!(ly(&r), 0);
    assert_eq!(r.gpu.get_mode(), StatusMode::HBlank);
    r.gpu.write(0xFF41, 0x78);
    r.interrupt.write(0xFF0F, 0x00);
    run(&mut r, 70224 * 2);
    assert_eq!(ly(&r), 0);
    assert_eq!(stat(&r) & 0x03, 0);
    assert_eq!(stat(&r) & 0x04, 0x04);
    assert_eq!(r.interrupt.read(0xFF0F), 0x00);
    assert_eq!(r.sink.consume(), None);
}

#[test]
fn enabling_lcd_starts_the_frame() {
    let mut r = blanked();
    r.gpu.write(0xFF40, 0x91);
    assert_eq!(r.gpu.get_mode(), StatusMode::Oam);
    assert_eq!(ly(&r), 0);
    run(&mut r, 456);
    assert_eq!(ly(&r), 1);
}

#[test]
fn vram_is_locked_during_transfer() {
    let mut r = rig();
    r.gpu.write(0x8000, 0x12);
    assert_eq!(r.gpu.read(0x8000), 0x12);
    run(&mut r, 80);
    assert_eq!(r.gpu.read(0x8000), 0xFF);
    r.gpu.write(0x8000, 0x34);
    assert_eq!(r.gpu.read_raw(0x8000), 0x12);
    run(&mut r, 172);
    assert_eq!(r.gpu.read(0x8000), 0x12);
    r.gpu.write(0x9FFF, 0x56);
    assert_eq!(r.gpu.read(0x9FFF), 0x56);
}

#[test]
fn oam_is_locked_during_search_and_transfer() {
    let mut r = rig();
    r.gpu.write(0xFE00, 0x12);
    assert_eq!(r.gpu.read(0xFE00), 0xFF);
    assert_eq!(r.gpu.read_raw(0xFE00), 0x00);
    run(&mut r, 80);
    assert_eq!(r.gpu.read(0xFE00), 0xFF);
    run(&mut r, 172);
    r.gpu.write(0xFE9F, 0x34);
    assert_eq!(r.gpu.read(0xFE9F), 0x34);
    run(&mut r, 456 * 144);
    assert_eq!(r.gpu.get_mode(), StatusMode::VBlank);
    r.gpu.write(0xFE00, 0x56);
    assert_eq!(r.gpu.read(0xFE00), 0x56);
    r.gpu.write_oam(3, 0x78);
    assert_eq!(r.gpu.read(0xFE03), 0x78);
}

#[test]
fn registers_read_back() {
    let mut r = rig();
    for (address, value) in [(0xFF42u16, 0x11u8), (0xFF43, 0x22), (0xFF45, 0x33), (0xFF47, 0x44), (0xFF48, 0x55), (0xFF49, 0x66), (0xFF4A, 0x77), (0xFF4B, 0x88)] {
        r.gpu.write(address, value);
        assert_eq!(r.gpu.read(address), value);
    }
    assert_eq!(r.gpu.read(0xFF46), 0xFF);
    assert_eq!(r.gpu.read(0x1234), 0xFF);
}

#[test]
fn shades_and_colours() {
    assert_eq!(shade_of(0xAA, 0xCC, 0), 3);
    assert_eq!(shade_of(0xAA, 0xCC, 1), 2);
    assert_eq!(shade_of(0xAA, 0xCC, 2), 1);
    assert_eq!(shade_of(0xAA, 0xCC, 3), 0);
    assert_eq!(shade_of(0x01, 0x00, 7), 1);
    assert_eq!(shade_color(0), WHITE);
    assert_eq!(shade_color(1), LIGHT);
    assert_eq!(shade_color(2), DARK);
    assert_eq!(shade_color(3), BLACK);
    assert_eq!(Gpu::colorize(0, 0xE4), WHITE);
    assert_eq!(Gpu::colorize(1, 0xE4), LIGHT);
    assert_eq!(Gpu::colorize(2, 0xE4), DARK);
    assert_eq!(Gpu::colorize(3, 0xE4), BLACK);
    assert_eq!(Gpu::colorize(0, 0x1B), BLACK);
    assert_eq!(Gpu::colorize(3, 0x1B), WHITE);
    assert_eq!(Gpu::colorize(1, 0xFC), BLACK);
}

#[test]
fn tile_cache_follows_vram() {
    let mut r = blanked();
    assert!(r.gpu.get_tile(5).dirty);
    write_tile_row(&mut r.gpu, 5, 2, 0xAA, 0xCC);
    r.gpu.refresh_tile(5);
    let tile = r.gpu.get_tile(5);
    assert!(!tile.dirty);
    assert_eq!(tile.pixels.len(), 64);
    assert_eq!(&tile.pixels[16..24], &[3, 2, 1, 0, 3, 2, 1, 0]);
    assert_eq!(&tile.pixels[0..8], &[0; 8]);
    assert!(r.gpu.get_tile(4).dirty);
    r.gpu.write(0x8000 + 5 * 16 + 2, 0xFF);
    assert!(r.gpu.get_tile(5).dirty);
    r.gpu.refresh_tile(5);
    let tile = r.gpu.get_tile(5);
    assert!(!tile.dirty);
    assert_eq!(&tile.pixels[8..16], &[1; 8]);
    assert_eq!(&tile.pixels[16..24], &[3, 2, 1, 0, 3, 2, 1, 0]);
    r.gpu.write(0x9800, 0x01);
    assert!(!r.gpu.get_tile(5).dirty);
    r.gpu.write(0x97FF, 0x01);
    assert!(r.gpu.get_tile(383).dirty);
}

#[test]
fn tile_cache_entry_equals_decoding_on_demand() {
    let mut r = blanked();
    for i in 0..16u16 {
        r.gpu.write(0x8000 + 7 * 16 + i, (i as u8).wrapping_mul(37) ^ 0xC3);
    }
    r.gpu.refresh_tile(7);
    let tile = r.gpu.get_tile(7);
    for y in 0..8u16 {
        let lo = r.gpu.read_raw(0x8000 + 7 * 16 + y * 2);
        let hi = r.gpu.read_raw(0x8000 + 7 * 16 + y * 2 + 1);
        for x in 0..8u8 {
            assert_eq!(tile.pixels[(y * 8) as usize + x as usize], shade_of(lo, hi, x));
        }
    }
}

#[test]
fn fresh_entries() {
    let tile = TileEntry::new();
    assert!(tile.dirty);
    assert_eq!(tile.pixels, vec![0u8; 64]);
    let sprite = SpriteEntry::new();
    assert_eq!(sprite.y_pos, -16);
    assert_eq!(sprite.x_pos, -8);
    assert_eq!(sprite.tile_id, 0);
    assert!(!sprite.behind_background && !sprite.x_flip && !sprite.y_flip && !sprite.use_palette_one);
    let sprite = SpriteEntry::decode(0x20, 0x10, 0x42, 0xF0);
    assert_eq!((sprite.y_pos, sprite.x_pos, sprite.tile_id), (16, 8, 0x42));
    assert!(sprite.behind_background && sprite.x_flip && sprite.y_flip && sprite.use_palette_one);
}

#[test]
fn background_is_drawn_from_the_tile_map() {
    let mut r = blanked();
    r.gpu.write(0xFF47, 0xE4);
    write_tile_row(&mut r.gpu, 1, 0, 0xAA, 0xCC);
    r.gpu.write(0x9800, 0x01);
    r.gpu.write(0x9802, 0x01);
    draw_first_line(&mut r, 0x91);
    let drawn = line(&r, 0);
    assert_eq!(&drawn[0..8], &[BLACK, DARK, LIGHT, WHITE, BLACK, DARK, LIGHT, WHITE]);
    assert_eq!(&drawn[8..16], &[WHITE; 8]);
    assert_eq!(&drawn[16..24], &[BLACK, DARK, LIGHT, WHITE, BLACK, DARK, LIGHT, WHITE]);
    assert!(drawn[24..].iter().all(|pixel| *pixel == WHITE));
    assert!(line(&r, 1).iter().all(|pixel| *pixel == 0xFF00FF));
}

#[test]
fn background_scrolls_and_wraps() {
    let mut r = blanked();
    r.gpu.write(0xFF47, 0xE4);
    write_tile_row(&mut r.gpu, 1, 3, 0xAA, 0xCC);
    r.gpu.write(0x9800 + 31 * 32 + 31, 0x01);
    r.gpu.write(0xFF43, 0xFD);
    r.gpu.write(0xFF42, 0xFB);
    draw_first_line(&mut r, 0x91);
    let drawn = line(&r, 0);
    assert_eq!(&drawn[0..3], &[DARK, LIGHT, WHITE]);
    assert!(drawn[3..].iter().all(|pixel| *pixel == WHITE));
}

#[test]
fn signed_tile_numbers_count_from_the_third_block() {
    let mut r = blanked();
    r.gpu.write(0xFF47, 0xE4);
    write_tile_row(&mut r.gpu, 256, 0, 0xFF, 0x00);
    write_tile_row(&mut r.gpu, 255, 0, 0x00, 0xFF);
    write_tile_row(&mut r.gpu, 0, 0, 0xFF, 0xFF);
    r.gpu.write(0x9801, 0xFF);
    draw_first_line(&mut r, 0x81);
    let drawn = line(&r, 0);
    assert_eq!(&drawn[0..8], &[LIGHT; 8]);
    assert_eq!(&drawn[8..16], &[DARK; 8]);
}

#[test]
fn second_tile_map_is_selected_by_bit_three() {
    let mut r = blanked();
    r.gpu.write(0xFF47, 0xE4);
    write_tile_row(&mut r.gpu, 2, 0, 0xFF, 0xFF);
    r.gpu.write(0x9C00, 0x02);
    draw_first_line(&mut r, 0x99);
    assert_eq!(&line(&r, 0)[0..9], &[BLACK, BLACK, BLACK, BLACK, BLACK, BLACK, BLACK, BLACK, WHITE]);
}

#[test]
fn background_off_leaves_the_frame() {
    let mut r = blanked();
    draw_first_line(&mut r, 0x90);
    assert!(line(&r, 0).iter().all(|pixel| *pixel == 0xFF00FF));
}

#[test]
fn window_covers_from_its_origin() {
    let mut r = blanked();
    r.gpu.write(0xFF47, 0xE4);
    write_tile_row(&mut r.gpu, 3, 0, 0xFF, 0x00);
    r.gpu.write(0x9C00, 0x03);
    r.gpu.write(0xFF4B, 7 + 100);
    r.gpu.write(0xFF4A, 0);
    draw_first_line(&mut r, 0xF1);
    let drawn = line(&r, 0);
    assert!(drawn[0..100].iter().all(|pixel| *pixel == WHITE));
    assert_eq!(&drawn[100..108], &[LIGHT; 8]);
    assert!(drawn[108..].iter().all(|pixel| *pixel == WHITE));
}

#[test]
fn window_clipped_on_the_left() {
    let mut r = blanked();
    r.gpu.write(0xFF47, 0xE4);
    write_tile_row(&mut r.gpu, 3, 0, 0xAA, 0xCC);
    r.gpu.write(0x9C00, 0x03);
    r.gpu.write(0xFF4B, 4);
    draw_first_line(&mut r, 0xF1);
    let drawn = line(&r, 0);
    assert_eq!(&drawn[0..5], &[WHITE, BLACK, DARK, LIGHT, WHITE]);
}

#[test]
fn window_waits_for_its_first_line() {
    let mut r = blanked();
    r.gpu.write(0xFF47, 0xE4);
    write_tile_row(&mut r.gpu, 3, 0, 0xFF, 0x00);
    r.gpu.write(0x9C00, 0x03);
    r.gpu.write(0xFF4B, 7);
    r.gpu.write(0xFF4A, 1);
    r.gpu.write(0xFF40, 0xF1);
    run(&mut r, 456 + 252);
    assert!(line(&r, 0).iter().all(|pixel| *pixel == WHITE));
    assert_eq!(&line(&r, 1)[0..9], &[LIGHT, LIGHT, LIGHT, LIGHT, LIGHT, LIGHT, LIGHT, LIGHT, WHITE]);
}

fn put_sprite(gpu: &mut Gpu, index: u16, y: u8, x: u8, tile: u8, attributes: u8) {
    gpu.write_oam(index * 4, y);
    gpu.write_oam(index * 4 + 1, x);
    gpu.write_oam(index * 4 + 2, tile);
    gpu.write_oam(index * 4 + 3, attributes);
}

fn hide_other_sprites(gpu: &mut Gpu, used: u16) {
    for index in used..40 {
        put_sprite(gpu, index, 0, 0, 0, 0);
    }
}

#[test]
fn sprite_is_drawn_over_the_background() {
    let mut r = blanked();
    r.gpu.write(0xFF47, 0xE4);
    r.gpu.write(0xFF48, 0xE4);
    r.gpu.write(0xFF49, 0x1B);
    write_tile_row(&mut r.gpu, 4, 0, 0xAA, 0xCC);
    put_sprite(&mut r.gpu, 0, 16, 8 + 10, 4, 0x00);
    put_sprite(&mut r.gpu, 1, 16, 8 + 30, 4, 0x10);
    put_sprite(&mut r.gpu, 2, 16, 8 + 50, 4, 0x20);
    hide_other_sprites(&mut r.gpu, 3);
    draw_first_line(&mut r, 0x93);
    let drawn = line(&r, 0);
    assert_eq!(&drawn[10..18], &[BLACK, DARK, LIGHT, WHITE, BLACK, DARK, LIGHT, WHITE]);
    assert_eq!(&drawn[30..38], &[WHITE, LIGHT, DARK, WHITE, WHITE, LIGHT, DARK, WHITE]);
    assert_eq!(&drawn[50..58], &[WHITE, LIGHT, DARK, BLACK, WHITE, LIGHT, DARK, BLACK]);
    assert!(drawn[0..10].iter().all(|pixel| *pixel == WHITE));
}

#[test]
fn sprites_off_draws_none() {
    let mut r = blanked();
    r.gpu.write(0xFF47, 0xE4);
    r.gpu.write(0xFF48, 0xE4);
    write_tile_row(&mut r.gpu, 4, 0, 0xFF, 0xFF);
    put_sprite(&mut r.gpu, 0, 16, 8, 4, 0x00);
    draw_first_line(&mut r, 0x91);
    assert!(line(&r, 0).iter().all(|pixel| *pixel == WHITE));
}

#[test]
fn sprite_clipped_at_the_edges() {
    let mut r = blanked();
    r.gpu.write(0xFF47, 0xE4);
    r.gpu.write(0xFF48, 0xE4);
    write_tile_row(&mut r.gpu, 4, 0, 0xAA, 0xCC);
    put_sprite(&mut r.gpu, 0, 16, 8 - 5, 4, 0x00);
    put_sprite(&mut r.gpu, 1, 16, 8 + 157, 4, 0x00);
    put_sprite(&mut r.gpu, 2, 16, 0, 4, 0x00);
    put_sprite(&mut r.gpu, 3, 16, 168, 4, 0x00);
    hide_other_sprites(&mut r.gpu, 4);
    draw_first_line(&mut r, 0x93);
    let drawn = line(&r, 0);
    assert_eq!(&drawn[0..4], &[DARK, LIGHT, WHITE, WHITE]);
    assert_eq!(&drawn[156..160], &[WHITE, BLACK, DARK, LIGHT]);
}

#[test]
fn lower_sprite_index_wins() {
    let mut r = blanked();
    r.gpu.write(0xFF47, 0xE4);
    r.gpu.write(0xFF48, 0xE4);
    write_tile_row(&mut r.gpu, 4, 0, 0xFF, 0x00);
    write_tile_row(&mut r.gpu, 5, 0, 0x00, 0xFF);
    write_tile_row(&mut r.gpu, 6, 0, 0x0F, 0x00);
    put_sprite(&mut r.gpu, 0, 16, 8 + 4, 6, 0x00);
    put_sprite(&mut r.gpu, 1, 16, 8 + 4, 5, 0x00);
    put_sprite(&mut r.gpu, 2, 16, 8, 4, 0x00);
    hide_other_sprites(&mut r.gpu, 3);
    draw_first_line(&mut r, 0x93);
    let drawn = line(&r, 0);
    assert_eq!(&drawn[0..4], &[LIGHT; 4]);
    assert_eq!(&drawn[4..8], &[DARK; 4]);
    assert_eq!(&drawn[8..12], &[LIGHT; 4]);
    assert_eq!(drawn[12], WHITE);
}

#[test]
fn sprite_behind_background_shows_through_shade_zero_only() {
    let mut r = blanked();
    r.gpu.write(0xFF47, 0xE4);
    r.gpu.write(0xFF48, 0x1B);
    write_tile_row(&mut r.gpu, 1, 0, 0xF0, 0x00);
    write_tile_row(&mut r.gpu, 4, 0, 0xFF, 0xFF);
    r.gpu.write(0x9800, 0x01);
    put_sprite(&mut r.gpu, 0, 16, 8, 4, 0x80);
    hide_other_sprites(&mut r.gpu, 1);
    draw_first_line(&mut r, 0x93);
    let drawn = line(&r, 0);
    assert_eq!(&drawn[0..4], &[LIGHT; 4]);
    assert_eq!(&drawn[4..8], &[WHITE; 4]);
}

#[test]
fn at_most_ten_sprites_per_line() {
    let mut r = blanked();
    r.gpu.write(0xFF47, 0xE4);
    r.gpu.write(0xFF48, 0xE4);
    write_tile_row(&mut r.gpu, 4, 0, 0xFF, 0xFF);
    for index in 0..12u16 {
        put_sprite(&mut r.gpu, index, 16, 8 + 8 * index as u8, 4, 0x00);
    }
    put_sprite(&mut r.gpu, 3, 100, 8 + 24, 4, 0x00);
    hide_other_sprites(&mut r.gpu, 12);
    draw_first_line(&mut r, 0x93);
    let drawn = line(&r, 0);
    assert!(drawn[0..24].iter().all(|pixel| *pixel == BLACK));
    assert!(drawn[24..32].iter().all(|pixel| *pixel == WHITE));
    assert!(drawn[32..88].iter().all(|pixel| *pixel == BLACK));
    assert!(drawn[88..96].iter().all(|pixel| *pixel == WHITE));
}

#[test]
fn sprite_flips_vertically() {
    let mut r = blanked();
    r.gpu.write(0xFF47, 0xE4);
    r.gpu.write(0xFF48, 0xE4);
    write_tile_row(&mut r.gpu, 4, 7, 0xFF, 0x00);
    put_sprite(&mut r.gpu, 0, 16, 8, 4, 0x40);
    put_sprite(&mut r.gpu, 1, 16, 16, 4, 0x00);
    hide_other_sprites(&mut r.gpu, 2);
    draw_first_line(&mut r, 0x93);
    let drawn = line(&r, 0);
    assert_eq!(&drawn[0..8], &[LIGHT; 8]);
    assert_eq!(&drawn[8..16], &[WHITE; 8]);
}

#[test]
fn tall_sprites_use_a_pair_of_tiles() {
    let mut r = blanked();
    r.gpu.write(0xFF47, 0xE4);
    r.gpu.write(0xFF48, 0xE4);
    write_tile_row(&mut r.gpu, 4, 0, 0xFF, 0x00);
    write_tile_row(&mut r.gpu, 5, 0, 0x00, 0xFF);
    write_tile_row(&mut r.gpu, 5, 7, 0xFF, 0xFF);
    put_sprite(&mut r.gpu, 0, 16, 8, 5, 0x00);
    put_sprite(&mut r.gpu, 1, 16 - 8, 16, 4, 0x00);
    put_sprite(&mut r.gpu, 2, 16, 24, 4, 0x40);
    put_sprite(&mut r.gpu, 3, 16 - 8, 32, 5, 0x40);
    hide_other_sprites(&mut r.gpu, 4);
    draw_first_line(&mut r, 0x97);
    let drawn = line(&r, 0);
    assert_eq!(&drawn[0..8], &[LIGHT; 8]);
    assert_eq!(&drawn[8..16], &[DARK; 8]);
    assert_eq!(&drawn[16..24], &[BLACK; 8]);
    assert_eq!(&drawn[24..32], &[WHITE; 8]);
}

#[test]
fn tile_sheet_shows_all_tiles() {
    let mut r = blanked();
    r.gpu.write(0xFF47, 0xE4);
    write_tile_row(&mut r.gpu, 0, 0, 0xAA, 0xCC);
    write_tile_row(&mut r.gpu, 17, 1, 0xFF, 0xFF);
    write_tile_row(&mut r.gpu, 383, 7, 0xFF, 0x00);
    let sheet = r.gpu.get_tiles();
    assert_eq!(sheet.len(), 128 * 192);
    assert_eq!(&sheet[0..8], &[BLACK, DARK, LIGHT, WHITE, BLACK, DARK, LIGHT, WHITE]);
    assert_eq!(&sheet[(8 + 1) * 128 + 8..(8 + 1) * 128 + 16], &[BLACK; 8]);
    assert_eq!(&sheet[191 * 128 + 120..191 * 128 + 128], &[LIGHT; 8]);
    assert_eq!(sheet[128], WHITE);
    assert!(!r.gpu.get_tile(383).dirty);
}
