use rs_boy::gameboy::graphics::tile::Tile;

#[test]
fn tile_object_in_scanline() {
    assert!(!Tile::new(0, 7, 1, 1).object_in_scanline(0, false));
    assert!(!Tile::new(2, 7, 1, 1).object_in_scanline(0, false));

    let t = Tile::new(16, 7, 1, 1);
    for i in 0..8 {
        assert!(t.object_in_scanline(i, false), "iteration {}", i);
    }
    assert!(!t.object_in_scanline(9, false));

    let t = Tile::new(144, 7, 1, 1);
    for i in 0..8 {
        assert!(
            t.object_in_scanline(144 - 16 + i, false),
            "iteration {}",
            144 + i
        );
    }
    assert!(!t.object_in_scanline(144 - 16 + 8, false));
}

#[test]
fn tile_object_in_scanline_double() {
    assert!(!Tile::new(0, 7, 1, 1).object_in_scanline(0, true));

    assert!(Tile::new(2, 7, 1, 1).object_in_scanline(0, true));
    assert!(Tile::new(2, 7, 1, 1).object_in_scanline(1, true));
    assert!(!Tile::new(2, 7, 1, 1).object_in_scanline(2, true));

    let t = Tile::new(16, 7, 1, 1);
    for i in 0..16 {
        assert!(t.object_in_scanline(i, true), "iteration {}", i);
    }
    assert!(!t.object_in_scanline(17, true));

    let t = Tile::new(144, 7, 1, 1);
    for i in 0..16 {
        assert!(
            t.object_in_scanline(144 - 16 + i, true),
            "iteration {}",
            144 + i
        );
    }
    assert!(!t.object_in_scanline(144 - 16 + 16, false));
}

#[test]
fn tile_flag_bits() {
    let t = Tile::new(16, 8, 3, 0b1110_0000);
    assert!(t.is_x_flipped());
    assert!(t.is_y_flipped());
    assert!(!t.has_priority());
    let t = Tile::new(16, 8, 3, 0b0001_0000);
    assert!(!t.is_x_flipped());
    assert!(!t.is_y_flipped());
    assert!(t.has_priority());
}
