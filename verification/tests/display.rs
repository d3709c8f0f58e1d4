use rs_boy::gameboy::memory_bus::MemoryAccessor;
use rs_boy::lib_rs_boy::gameboy::graphics::processor::{Mode, Processor};
use rs_boy::lib_rs_boy::gameboy::graphics::Display;
use rs_boy::lib_rs_boy::gameboy::interrupts::{STAT, VBLANK};

const WHITE: u32 = 0xffffff;
const BLACK: u32 = 0x000000;

/// Runs one visible line: OAM scan, drawing, horizontal blank.
fn run_line(d: &mut Display) -> (u8, bool) {
    assert!(d.can_step(80));
    d.gpu_step(80);
    assert!(d.can_step(172));
    d.gpu_step(172);
    assert!(d.can_step(204));
    d.gpu_step(204)
}

#[test]
fn processor_boot_registers() {
    let p = Processor::new();
    assert_eq!(p.get(0xff40), 0x91);
    // bit 7, LY == LYC and mode 2
    assert_eq!(p.get(0xff41), 0x86);
    assert_eq!(p.get(0xff47), 0xfc);
    assert_eq!(p.get_tile_data_baseline(), 0x8000);
    assert_eq!(p.get_tile_map(false), 0x9800);
    assert!(p.lcd_enabled());
    assert!(p.is_bg_window_enabled());
    assert!(!p.is_object_enabled());
}

#[test]
fn processor_lcd_off_freezes_compare_and_resets_ly() {
    let mut p = Processor::new();
    p.write(0xff45, 5);
    p.write(0xff40, 0x11);
    assert_eq!(p.get(0xff44), 0);
    // while off the mode reads 0 and the compare bit is the one frozen (LY 0 != LYC 5)
    assert_eq!(p.get(0xff41) & 0x07, 0);
    p.write(0xff40, 0x91);
    assert!(p.gpu_mode == Mode::Two);
    // STAT keeps its three low bits clear
    p.write(0xff41, 0xff);
    assert_eq!(p.lcd_status, 0xf8);
}

#[test]
fn line_modes_follow_the_dots() {
    let mut d = Display::new();
    assert_eq!(d.gpu_step(79), (0, false));
    assert_eq!(d.get(0xff41) & 0x03, 2);
    d.gpu_step(1);
    assert_eq!(d.get(0xff41) & 0x03, 3);
    d.gpu_step(172);
    assert_eq!(d.get(0xff41) & 0x03, 0);
    // the drawn line is the background of tile 0 through BGP 0xFC: white
    assert_eq!(d.engine.screen[0], WHITE);
    assert_eq!(d.engine.screen[159], WHITE);
    assert_eq!(d.engine.screen[160], 0);
    d.gpu_step(204);
    assert_eq!(d.get(0xff44), 1);
    assert_eq!(d.get(0xff41) & 0x03, 2);
}

#[test]
fn frame_finishes_after_line_143() {
    let mut d = Display::new();
    for line in 0..143 {
        let (_, render) = run_line(&mut d);
        assert!(!render, "line {}", line);
    }
    let (interrupt, render) = run_line(&mut d);
    assert!(render);
    assert_eq!(interrupt & VBLANK, VBLANK);
    assert_eq!(d.get(0xff44), 144);
    assert_eq!(d.get(0xff41) & 0x03, 1);
    for _ in 144..153 {
        assert_eq!(d.gpu_step(456), (0, false));
    }
    assert_eq!(d.get(0xff44), 153);
    d.gpu_step(456);
    assert_eq!(d.get(0xff44), 0);
    assert_eq!(d.get(0xff41) & 0x03, 2);
}

#[test]
fn lcd_off_rests_on_line_zero() {
    let mut d = Display::new();
    run_line(&mut d);
    d.write(0xff40, 0x11);
    assert_eq!(d.gpu_step(1000), (0, false));
    assert_eq!(d.get(0xff44), 0);
}

#[test]
fn stat_interrupt_on_mode_two() {
    let mut d = Display::new();
    // select the mode 2 interrupt
    d.write(0xff41, 0x20);
    d.gpu_step(80);
    d.gpu_step(172);
    let (interrupt, _) = d.gpu_step(204);
    assert_eq!(interrupt & STAT, STAT);
}

#[test]
fn background_tile_colours() {
    let mut d = Display::new();
    // row 0 of tile 0: colour 1 everywhere, shown as BGP bits 2-3 (0b11: black)
    d.write(0x8000, 0xff);
    d.write(0x8001, 0x00);
    assert_eq!(d.get_tile_data(0x8000, 0, 0), (0xff, 0x00));
    run_line(&mut d);
    assert_eq!(d.engine.screen[0], BLACK);
    assert_eq!(d.engine.screen[159], BLACK);
}

#[test]
fn sprite_drawn_over_background() {
    let mut d = Display::new();
    // objects on
    d.write(0xff40, 0x93);
    // object 0: on line 0, screen column 0, tile 1
    d.write(0xfe00, 16);
    d.write(0xfe01, 8);
    d.write(0xfe02, 1);
    d.write(0xfe03, 0);
    let t = d.get_oam_object(0);
    assert_eq!((t.y, t.x, t.tile_index, t.flags), (16, 8, 1, 0));
    // row 0 of tile 1: colour 3
    d.write(0x8010, 0xff);
    d.write(0x8011, 0xff);
    run_line(&mut d);
    for x in 0..8 {
        assert_eq!(d.engine.screen[x], BLACK, "column {}", x);
    }
    assert_eq!(d.engine.screen[8], WHITE);
}
