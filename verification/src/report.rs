//! The diagnostic report on a window's extended style.

use crate::style::{has_layered, has_transparent, is_layered, is_transparent};
use vstd::prelude::*;
use vstd::string::StringExecFns;
use windows::Win32::Foundation::HWND;

verus! {

/// The `Debug` text of the `HWND` with this raw value.
pub uninterp spec fn hwnd_debug_text(hwnd: isize) -> Seq<char>;

/// `HWND`'s `Debug` output, from the `windows` crate: the text for the handle
/// with this raw value. The same value always gives the same text.
#[verifier::external_body]
fn hwnd_debug(hwnd: isize) -> (text: String)
    ensures
        text@ == hwnd_debug_text(hwnd),
{
    format!("{:?}", HWND(hwnd))
}

/// The upper-case hexadecimal digit for a value below 16.
pub open spec fn hex_digit(value: nat) -> char {
    if value == 0 {
        '0'
    } else if value == 1 {
        '1'
    } else if value == 2 {
        '2'
    } else if value == 3 {
        '3'
    } else if value == 4 {
        '4'
    } else if value == 5 {
        '5'
    } else if value == 6 {
        '6'
    } else if value == 7 {
        '7'
    } else if value == 8 {
        '8'
    } else if value == 9 {
        '9'
    } else if value == 10 {
        'A'
    } else if value == 11 {
        'B'
    } else if value == 12 {
        'C'
    } else if value == 13 {
        'D'
    } else if value == 14 {
        'E'
    } else {
        'F'
    }
}

/// A number in upper-case hexadecimal, most significant digit first, without
/// leading zeros; zero is "0".
pub open spec fn upper_hex(value: nat) -> Seq<char>
    decreases value,
{
    if value < 16 {
        seq![hex_digit(value)]
    } else {
        upper_hex(value / 16).push(hex_digit(value % 16))
    }
}

/// The bits of a style word read as an unsigned number: a negative word is
/// its two's complement.
pub open spec fn style_bits(style: isize) -> nat {
    (style as usize) as nat
}

/// How the report words a flag that is set, or not.
pub open spec fn flag_text(set: bool) -> Seq<char> {
    if set {
        "✅ 已启用"@
    } else {
        "❌ 未启用"@
    }
}

/// The report: the raw style in hexadecimal, whether each of the two bits is
/// set, and the window's handle, one per line.
pub open spec fn spec_style_report(style: isize, hwnd: isize) -> Seq<char> {
    "窗口样式 (GWL_EXSTYLE): 0x"@ + upper_hex(style_bits(style))
        + "\n- WS_EX_LAYERED (透明支持): "@ + flag_text(has_layered(style))
        + "\n- WS_EX_TRANSPARENT (鼠标透传): "@ + flag_text(has_transparent(style))
        + "\n- HWND: "@ + hwnd_debug_text(hwnd)
}

fn hex_digit_text(value: usize) -> (text: &'static str)
    requires
        value < 16,
    ensures
        text@ == seq![hex_digit(value as nat)],
{
    proof {
        reveal_strlit("0");
        reveal_strlit("1");
        reveal_strlit("2");
        reveal_strlit("3");
        reveal_strlit("4");
        reveal_strlit("5");
        reveal_strlit("6");
        reveal_strlit("7");
        reveal_strlit("8");
        reveal_strlit("9");
        reveal_strlit("A");
        reveal_strlit("B");
        reveal_strlit("C");
        reveal_strlit("D");
        reveal_strlit("E");
        reveal_strlit("F");
    }
    let text = if value == 0 {
        "0"
    } else if value == 1 {
        "1"
    } else if value == 2 {
        "2"
    } else if value == 3 {
        "3"
    } else if value == 4 {
        "4"
    } else if value == 5 {
        "5"
    } else if value == 6 {
        "6"
    } else if value == 7 {
        "7"
    } else if value == 8 {
        "8"
    } else if value == 9 {
        "9"
    } else if value == 10 {
        "A"
    } else if value == 11 {
        "B"
    } else if value == 12 {
        "C"
    } else if value == 13 {
        "D"
    } else if value == 14 {
        "E"
    } else {
        "F"
    };
    assert(text@ =~= seq![hex_digit(value as nat)]);
    text
}

fn append_upper_hex(value: usize, out: &mut String)
    ensures
        final(out)@ == old(out)@ + upper_hex(value as nat),
    decreases value,
{
    if value >= 16 {
        append_upper_hex(value / 16, out);
    }
    out.append(hex_digit_text(value % 16));
    assert(out@ =~= old(out)@ + upper_hex(value as nat));
}

/// A number in upper-case hexadecimal.
pub fn to_upper_hex(value: usize) -> (text: String)
    ensures
        text@ == upper_hex(value as nat),
{
    let mut text = String::new();
    append_upper_hex(value, &mut text);
    assert(text@ =~= upper_hex(value as nat));
    text
}

fn flag_label(set: bool) -> (text: &'static str)
    ensures
        text@ == flag_text(set),
{
    if set {
        "✅ 已启用"
    } else {
        "❌ 未启用"
    }
}

/// Writes the report on a style word read from the window `hwnd`.
pub fn style_report(style: isize, hwnd: isize) -> (text: String)
    ensures
        text@ == spec_style_report(style, hwnd),
{
    let mut text = String::from_str("窗口样式 (GWL_EXSTYLE): 0x");
    append_upper_hex(#[verifier::truncate] (style as usize), &mut text);
    text.append("\n- WS_EX_LAYERED (透明支持): ");
    text.append(flag_label(is_layered(style)));
    text.append("\n- WS_EX_TRANSPARENT (鼠标透传): ");
    text.append(flag_label(is_transparent(style)));
    text.append("\n- HWND: ");
    let handle = hwnd_debug(hwnd);
    text.append(handle.as_str());
    text
}

} // verus!
