use mouse_passthrough::report::{style_report, to_upper_hex};

#[test]
fn hexadecimal_has_no_leading_zeros() {
    assert_eq!(to_upper_hex(0), "0");
    assert_eq!(to_upper_hex(9), "9");
    assert_eq!(to_upper_hex(10), "A");
    assert_eq!(to_upper_hex(15), "F");
    assert_eq!(to_upper_hex(16), "10");
    assert_eq!(to_upper_hex(255), "FF");
    assert_eq!(to_upper_hex(0x0008_0020), "80020");
    assert_eq!(to_upper_hex(0x1234_ABCD), "1234ABCD");
}

#[test]
fn hexadecimal_agrees_with_the_standard_formatter() {
    for value in [0usize, 1, 0x20, 0x0008_0000, 0xDEAD_BEEF, usize::MAX, usize::MAX / 3] {
        assert_eq!(to_upper_hex(value), format!("{:X}", value));
    }
}

#[test]
fn report_with_both_bits_set() {
    assert_eq!(
        style_report(0x0008_0020, 12345),
        "窗口样式 (GWL_EXSTYLE): 0x80020\n\
         - WS_EX_LAYERED (透明支持): ✅ 已启用\n\
         - WS_EX_TRANSPARENT (鼠标透传): ✅ 已启用\n\
         - HWND: HWND(12345)"
    );
}

#[test]
fn report_with_no_bit_set() {
    assert_eq!(
        style_report(0x100, 1),
        "窗口样式 (GWL_EXSTYLE): 0x100\n\
         - WS_EX_LAYERED (透明支持): ❌ 未启用\n\
         - WS_EX_TRANSPARENT (鼠标透传): ❌ 未启用\n\
         - HWND: HWND(1)"
    );
}

#[test]
fn report_with_one_bit_set() {
    assert_eq!(
        style_report(0x0008_0000, 77),
        "窗口样式 (GWL_EXSTYLE): 0x80000\n\
         - WS_EX_LAYERED (透明支持): ✅ 已启用\n\
         - WS_EX_TRANSPARENT (鼠标透传): ❌ 未启用\n\
         - HWND: HWND(77)"
    );
    assert_eq!(
        style_report(0x20, -3),
        "窗口样式 (GWL_EXSTYLE): 0x20\n\
         - WS_EX_LAYERED (透明支持): ❌ 未启用\n\
         - WS_EX_TRANSPARENT (鼠标透传): ✅ 已启用\n\
         - HWND: HWND(-3)"
    );
}

#[test]
fn report_of_a_negative_style_word_is_its_twos_complement() {
    let report = style_report(-1, 5);
    let expected = format!(
        "窗口样式 (GWL_EXSTYLE): 0x{:X}\n\
         - WS_EX_LAYERED (透明支持): ✅ 已启用\n\
         - WS_EX_TRANSPARENT (鼠标透传): ✅ 已启用\n\
         - HWND: HWND(5)",
        -1isize
    );
    assert_eq!(report, expected);
    assert!(report.starts_with("窗口样式 (GWL_EXSTYLE): 0xFFFFFFFF"));
}

#[test]
fn report_has_four_lines() {
    assert_eq!(style_report(0, 9).lines().count(), 4);
}
