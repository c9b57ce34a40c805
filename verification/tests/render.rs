use hd44780_simulator::graphics::GraphicData;
use hd44780_simulator::graphics::Point;
use hd44780_simulator::render::cell_origin;
use hd44780_simulator::render::pixel_lit;
use hd44780_simulator::render::pixel_origin;
use hd44780_simulator::render::resolve;
use hd44780_simulator::render::screen_origin;
use hd44780_simulator::render::Glyph;
use hd44780_simulator::render::ResolutionError;

fn rom() -> [[u8; 8]; 96] {
    let mut rom = [[0u8; 8]; 96];
    for (i, glyph) in rom.iter_mut().enumerate() {
        for (j, row) in glyph.iter_mut().enumerate() {
            *row = ((i * 8 + j) % 32) as u8;
        }
    }
    rom
}

#[test]
fn resolve_codes() {
    assert_eq!(resolve(5), Ok(Glyph::Custom { slot: 5 }));
    assert_eq!(resolve(40), Ok(Glyph::Rom { slot: 8 }));
    assert_eq!(resolve(10), Err(ResolutionError { code: 10 }));
    assert_eq!(resolve(25), Err(ResolutionError { code: 25 }));
}

#[test]
fn resolve_boundaries() {
    assert_eq!(resolve(0), Ok(Glyph::Custom { slot: 0 }));
    assert_eq!(resolve(7), Ok(Glyph::Custom { slot: 7 }));
    assert_eq!(resolve(8), Err(ResolutionError { code: 8 }));
    assert_eq!(resolve(31), Err(ResolutionError { code: 31 }));
    assert_eq!(resolve(32), Ok(Glyph::Rom { slot: 0 }));
    assert_eq!(resolve(127), Ok(Glyph::Rom { slot: 95 }));
    assert_eq!(resolve(255), Ok(Glyph::Rom { slot: 223 }));
}

#[test]
fn glyph_rows_come_from_the_right_table() {
    let mut g = GraphicData::new(rom());
    g.cgram[5] = [1, 2, 3, 4, 5, 6, 7, 8];
    assert_eq!(g.glyph(5), Ok(&[1u8, 2, 3, 4, 5, 6, 7, 8]));
    assert_eq!(g.glyph(40), Ok(&rom()[8]));
    assert_eq!(g.glyph(32), Ok(&rom()[0]));
    assert_eq!(g.glyph(127), Ok(&rom()[95]));
    assert_eq!(g.glyph(10), Err(ResolutionError { code: 10 }));
    assert_eq!(g.glyph(25), Err(ResolutionError { code: 25 }));
}

#[test]
fn glyph_beyond_the_rom_is_an_error() {
    let g = GraphicData::new(rom());
    assert_eq!(g.glyph(128), Err(ResolutionError { code: 128 }));
    assert_eq!(g.glyph(255), Err(ResolutionError { code: 255 }));
}

#[test]
fn window_starts_at_offset_and_goes_round() {
    let mut g = GraphicData::new(rom());
    for column in 0..40 {
        g.ddram[0][column] = 100 + column as u8;
        g.ddram[1][column] = 200 + column as u8;
    }
    let first: Vec<u8> = (100..116).collect();
    assert_eq!(g.visible(0, 16), first);
    g.offset = 30;
    let expected: Vec<u8> = (130..140).chain(100..106).collect();
    assert_eq!(g.visible(0, 16), expected);
    let expected: Vec<u8> = (230..240).chain(200..206).collect();
    assert_eq!(g.visible(1, 16), expected);
    g.offset = 39;
    assert_eq!(g.visible(0, 3), vec![139, 100, 101]);
    assert_eq!(g.visible(0, 0), Vec::<u8>::new());
    let all = g.visible(1, 42);
    assert_eq!(all.len(), 42);
    assert_eq!(all[0], 239);
    assert_eq!(all[1], 200);
    assert_eq!(all[40], 239);
    assert_eq!(all[41], 200);
}

#[test]
fn render_line_gives_rows_of_each_visible_glyph() {
    let mut g = GraphicData::new(rom());
    g.cgram[1] = [0x1f; 8];
    g.ddram[0][38] = b'A';
    g.ddram[0][39] = 1;
    g.ddram[0][0] = b'z';
    g.offset = 38;
    let glyphs = g.render_line(0, 4).unwrap();
    assert_eq!(
        glyphs,
        vec![rom()[(b'A' - 32) as usize], [0x1f; 8], rom()[(b'z' - 32) as usize], rom()[0]]
    );
    assert_eq!(g.render_line(1, 16).unwrap(), vec![rom()[0]; 16]);
}

#[test]
fn render_line_reports_first_bad_code() {
    let mut g = GraphicData::new(rom());
    g.ddram[1][3] = 25;
    g.ddram[1][2] = 10;
    g.ddram[1][20] = 9;
    assert_eq!(g.render_line(1, 16), Err(ResolutionError { code: 10 }));
    assert_eq!(g.render_line(1, 2).unwrap().len(), 2);
    assert_eq!(g.render_line(0, 16).unwrap().len(), 16);
    g.offset = 3;
    assert_eq!(g.render_line(1, 16), Err(ResolutionError { code: 25 }));
    g.offset = 4;
    assert_eq!(g.render_line(1, 16).unwrap().len(), 16);
    assert_eq!(g.render_line(1, 17), Err(ResolutionError { code: 9 }));
    g.ddram[1][20] = 200;
    assert_eq!(g.render_line(1, 17), Err(ResolutionError { code: 200 }));
}

#[test]
fn leftmost_pixel_is_the_highest_of_five_bits() {
    assert!(pixel_lit(0b10000, 0));
    assert!(!pixel_lit(0b10000, 1));
    assert!(pixel_lit(0b00001, 4));
    assert!(!pixel_lit(0b00001, 3));
    let row = 0b01110;
    let lit: Vec<bool> = (0..5).map(|c| pixel_lit(row, c)).collect();
    assert_eq!(lit, vec![false, true, true, true, false]);
    // The upper three bits are not pixels.
    let lit: Vec<bool> = (0..5).map(|c| pixel_lit(0b1110_0000, c)).collect();
    assert_eq!(lit, vec![false; 5]);
}

#[test]
fn screen_geometry() {
    assert_eq!(screen_origin(), Point { x: 60, y: 66 });
    assert_eq!(cell_origin(screen_origin(), 0, 0), Point { x: 60, y: 66 });
    assert_eq!(cell_origin(screen_origin(), 1, 2), Point { x: 60 + 2 * 23, y: 66 + 35 });
    assert_eq!(cell_origin(screen_origin(), 1, 15), Point { x: 405, y: 101 });
    let cell = cell_origin(screen_origin(), 0, 1);
    assert_eq!(pixel_origin(cell, 0, 0), Point { x: 83, y: 66 });
    assert_eq!(pixel_origin(cell, 4, 7), Point { x: 99, y: 94 });
}
