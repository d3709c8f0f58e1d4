use rs_boy::gpu::{LcdStatusFlag, Mode, Tile};

#[test]
fn gpu_object_in_scanline() {
    assert_eq!(Tile::new(0, 7, 1, 1).object_in_scanline(0, false), false);
    assert_eq!(Tile::new(2, 7, 1, 1).object_in_scanline(0, false), false);

    let t = Tile::new(16, 7, 1, 1);
    for i in 0..8 {
        assert_eq!(t.object_in_scanline(i, false), true, "iteration {}", i);
    }
    assert_eq!(t.object_in_scanline(9, false), false);

    let t = Tile::new(144, 7, 1, 1);
    for i in 0..8 {
        assert_eq!(
            t.object_in_scanline(144 - 16 + i, false),
            true,
            "iteration {}",
            144 + i
        );
    }
    assert_eq!(t.object_in_scanline(144 - 16 + 8, false), false);
}

#[test]
fn gpu_object_in_scanline_double() {
    assert_eq!(Tile::new(0, 7, 1, 1).object_in_scanline(0, true), false);

    assert_eq!(Tile::new(2, 7, 1, 1).object_in_scanline(0, true), true);
    assert_eq!(Tile::new(2, 7, 1, 1).object_in_scanline(1, true), true);
    assert_eq!(Tile::new(2, 7, 1, 1).object_in_scanline(2, true), false);

    let t = Tile::new(16, 7, 1, 1);
    for i in 0..16 {
        assert_eq!(t.object_in_scanline(i, true), true, "iteration {}", i);
    }
    assert_eq!(t.object_in_scanline(17, true), false);

    let t = Tile::new(144, 7, 1, 1);
    for i in 0..16 {
        assert_eq!(
            t.object_in_scanline(144 - 16 + i, true),
            true,
            "iteration {}",
            144 + i
        );
    }
    assert_eq!(t.object_in_scanline(144 - 16 + 16, false), false);
}

#[test]
fn gpu_modes_and_control_bits() {
    assert_eq!(Mode::Zero.number(), 0);
    assert_eq!(Mode::Three.number(), 3);
    assert_eq!(LcdStatusFlag::LcdEnabled.mask(), 0x80);
    assert_eq!(LcdStatusFlag::BgWindowEnabled.mask(), 0x01);
    assert!(LcdStatusFlag::ObjectSize.is_set_in(0x04));
    assert!(!LcdStatusFlag::ObjectSize.is_set_in(0xfb));
}
