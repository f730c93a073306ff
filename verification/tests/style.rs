use mouse_passthrough::style::{
    clear_transparent, enable_passthrough, is_layered, is_transparent, set_transparent,
};

const LAYERED: isize = 0x0008_0000;
const TRANSPARENT: isize = 0x20;

#[test]
fn enabling_sets_both_bits() {
    assert_eq!(enable_passthrough(0), 0x0008_0020);
    assert_eq!(enable_passthrough(0x100), 0x0008_0120);
    assert_eq!(enable_passthrough(LAYERED), 0x0008_0020);
    assert_eq!(enable_passthrough(TRANSPARENT), 0x0008_0020);
}

#[test]
fn enabling_twice_is_enabling_once() {
    for style in [0isize, 1, 0x20, 0x0008_0000, 0x0008_0020, 0x1234_5678, -1, isize::MIN, isize::MAX]
    {
        let once = enable_passthrough(style);
        assert_eq!(enable_passthrough(once), once);
    }
}

#[test]
fn setting_the_transparent_bit_keeps_the_others() {
    assert_eq!(set_transparent(0), 0x20);
    assert_eq!(set_transparent(LAYERED), 0x0008_0020);
    assert_eq!(set_transparent(0x0008_0020), 0x0008_0020);
    assert_eq!(set_transparent(0x100), 0x120);
    assert!(!is_layered(set_transparent(0x100)));
}

#[test]
fn clearing_the_transparent_bit_keeps_the_others() {
    assert_eq!(clear_transparent(0x0008_0020), 0x0008_0000);
    assert_eq!(clear_transparent(0x20), 0);
    assert_eq!(clear_transparent(0x0008_0000), 0x0008_0000);
    assert_eq!(clear_transparent(0x1ff), 0x1df);
    assert_eq!(clear_transparent(-1), -33);
    assert!(is_layered(clear_transparent(0x0008_0020)));
}

#[test]
fn bits_are_read_one_by_one() {
    assert!(is_layered(LAYERED));
    assert!(!is_layered(TRANSPARENT));
    assert!(is_transparent(TRANSPARENT));
    assert!(!is_transparent(LAYERED));
    assert!(!is_layered(0));
    assert!(!is_transparent(0));
    assert!(is_layered(-1));
    assert!(is_transparent(-1));
    assert!(!is_layered(0x0004_0000));
    assert!(!is_transparent(0x40));
}
