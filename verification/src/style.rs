//! The two extended-style bits that decide how a window takes mouse input.

use vstd::prelude::*;
use windows::Win32::UI::WindowsAndMessaging::{WS_EX_LAYERED, WS_EX_TRANSPARENT};

verus! {

/// The bit that turns on composited transparency for the window.
pub open spec fn layered_bit() -> isize {
    0x0008_0000
}

/// The bit that hides the window from hit-testing: clicks fall through it.
pub open spec fn transparent_bit() -> isize {
    0x0000_0020
}

pub open spec fn has_layered(style: isize) -> bool {
    style & layered_bit() != 0
}

pub open spec fn has_transparent(style: isize) -> bool {
    style & transparent_bit() != 0
}

/// The style with both bits set: full-window passthrough.
pub open spec fn with_passthrough(style: isize) -> isize {
    style | layered_bit() | transparent_bit()
}

/// The style with the transparent bit set and every other bit kept.
pub open spec fn with_transparent(style: isize) -> isize {
    style | transparent_bit()
}

/// The style with the transparent bit cleared and every other bit kept.
pub open spec fn without_transparent(style: isize) -> isize {
    style & !transparent_bit()
}

/// `WS_EX_LAYERED` of the `windows` crate, as a style word. The contract gives
/// its value, 0x80000.
#[verifier::external_body]
fn ws_ex_layered() -> (bit: isize)
    ensures
        bit == layered_bit(),
{
    WS_EX_LAYERED.0 as isize
}

/// `WS_EX_TRANSPARENT` of the `windows` crate, as a style word. The contract
/// gives its value, 0x20.
#[verifier::external_body]
fn ws_ex_transparent() -> (bit: isize)
    ensures
        bit == transparent_bit(),
{
    WS_EX_TRANSPARENT.0 as isize
}

pub fn is_layered(style: isize) -> (set: bool)
    ensures
        set == has_layered(style),
{
    style & ws_ex_layered() != 0
}

pub fn is_transparent(style: isize) -> (set: bool)
    ensures
        set == has_transparent(style),
{
    style & ws_ex_transparent() != 0
}

/// Sets the layered bit, which transparency needs, and the transparent bit.
pub fn enable_passthrough(style: isize) -> (styled: isize)
    ensures
        styled == with_passthrough(style),
        has_layered(styled),
        has_transparent(styled),
{
    proof {
        lemma_with_passthrough(style);
    }
    style | ws_ex_layered() | ws_ex_transparent()
}

/// Sets the transparent bit only.
pub fn set_transparent(style: isize) -> (styled: isize)
    ensures
        styled == with_transparent(style),
        has_transparent(styled),
        has_layered(styled) == has_layered(style),
{
    proof {
        lemma_with_transparent(style);
    }
    style | ws_ex_transparent()
}

/// Clears the transparent bit only.
pub fn clear_transparent(style: isize) -> (styled: isize)
    ensures
        styled == without_transparent(style),
        !has_transparent(styled),
        has_layered(styled) == has_layered(style),
{
    proof {
        lemma_without_transparent(style);
    }
    style & !ws_ex_transparent()
}

/// Enabling passthrough sets both bits, keeps every other bit, and changes
/// nothing when done again.
pub proof fn lemma_with_passthrough(style: isize)
    ensures
        has_layered(with_passthrough(style)),
        has_transparent(with_passthrough(style)),
        with_passthrough(with_passthrough(style)) == with_passthrough(style),
        with_passthrough(style) & !(layered_bit() | transparent_bit()) == style & !(layered_bit()
            | transparent_bit()),
{
    assert((style | 0x0008_0000isize | 0x20isize) & 0x0008_0000isize != 0) by (bit_vector);
    assert((style | 0x0008_0000isize | 0x20isize) & 0x20isize != 0) by (bit_vector);
    assert((style | 0x0008_0000isize | 0x20isize) | 0x0008_0000isize | 0x20isize == (style
        | 0x0008_0000isize | 0x20isize)) by (bit_vector);
    assert((style | 0x0008_0000isize | 0x20isize) & !(0x0008_0000isize | 0x20isize) == style & !(
    0x0008_0000isize | 0x20isize)) by (bit_vector);
}

/// Setting the transparent bit keeps every other bit, the layered bit among
/// them, and changes nothing when done again.
pub proof fn lemma_with_transparent(style: isize)
    ensures
        has_transparent(with_transparent(style)),
        has_layered(with_transparent(style)) == has_layered(style),
        with_transparent(with_transparent(style)) == with_transparent(style),
        with_transparent(style) & !transparent_bit() == style & !transparent_bit(),
{
    assert((style | 0x20isize) & 0x20isize != 0) by (bit_vector);
    assert((style | 0x20isize) & 0x0008_0000isize == style & 0x0008_0000isize) by (bit_vector);
    assert((style | 0x20isize) | 0x20isize == (style | 0x20isize)) by (bit_vector);
    assert((style | 0x20isize) & !0x20isize == style & !0x20isize) by (bit_vector);
}

/// Clearing the transparent bit keeps every other bit, the layered bit among
/// them, and changes nothing when done again.
pub proof fn lemma_without_transparent(style: isize)
    ensures
        !has_transparent(without_transparent(style)),
        has_layered(without_transparent(style)) == has_layered(style),
        without_transparent(without_transparent(style)) == without_transparent(style),
        without_transparent(style) | transparent_bit() == style | transparent_bit(),
{
    assert((style & !0x20isize) & 0x20isize == 0) by (bit_vector);
    assert((style & !0x20isize) & 0x0008_0000isize == style & 0x0008_0000isize) by (bit_vector);
    assert((style & !0x20isize) & !0x20isize == (style & !0x20isize)) by (bit_vector);
    assert((style & !0x20isize) | 0x20isize == style | 0x20isize) by (bit_vector);
}

} // verus!
