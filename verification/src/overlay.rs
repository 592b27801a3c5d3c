//! The telemetry overlay: where it is drawn and what its text says.

use vstd::prelude::*;
use vstd::string::StringExecFns;

verus! {

/// Raw RGB565 colour that a frame is cleared to: blue.
pub const BACKGROUND_COLOR: u16 = 0x001f;

/// Raw RGB565 colour of the panel behind the text: black.
pub const PANEL_COLOR: u16 = 0x0000;

/// Raw RGB565 colour of the text: white.
pub const TEXT_COLOR: u16 = 0xffff;

/// Left edge of the panel behind the text.
pub const PANEL_LEFT: i32 = 10;

/// Top edge of the panel behind the text.
pub const PANEL_TOP: i32 = 10;

/// Width of the panel behind the text.
pub const PANEL_WIDTH: u32 = 200;

/// Height of the panel behind the text.
pub const PANEL_HEIGHT: u32 = 156;

/// Horizontal position of the text's anchor.
pub const TEXT_LEFT: i32 = 20;

/// Vertical position of the text's anchor.
pub const TEXT_TOP: i32 = 20;

/// The character of a decimal digit.
pub open spec fn digit_char(d: nat) -> char {
    if d == 0 {
        '0'
    } else if d == 1 {
        '1'
    } else if d == 2 {
        '2'
    } else if d == 3 {
        '3'
    } else if d == 4 {
        '4'
    } else if d == 5 {
        '5'
    } else if d == 6 {
        '6'
    } else if d == 7 {
        '7'
    } else if d == 8 {
        '8'
    } else {
        '9'
    }
}

/// A number in decimal, without leading zeros.
pub open spec fn decimal(n: nat) -> Seq<char>
    decreases n,
{
    if n < 10 {
        seq![digit_char(n)]
    } else {
        decimal(n / 10).push(digit_char(n % 10))
    }
}

/// The overlay's text for the two figures: `FPS:`, the frame rate,
/// `, sps:` and the milliseconds since the previous tick.
pub open spec fn overlay_text_of(fps: u64, sps: u64) -> Seq<char> {
    "FPS:"@ + decimal(fps as nat) + ", sps:"@ + decimal(sps as nat)
}

/// The text of one decimal digit.
fn digit_text(d: u64) -> (text: &'static str)
    requires
        d < 10,
    ensures
        text@ == seq![digit_char(d as nat)],
{
    proof {
        reveal_strlit("0");
        reveal_strlit("1");
        reveal_strlit("2");
        reveal_strlit("3");
        reveal_strlit("4");
        reveal_strlit("5");
        reveal_strlit("6");
        reveal_strlit("7");
        reveal_strlit("8");
        reveal_strlit("9");
    }
    if d == 0 {
        "0"
    } else if d == 1 {
        "1"
    } else if d == 2 {
        "2"
    } else if d == 3 {
        "3"
    } else if d == 4 {
        "4"
    } else if d == 5 {
        "5"
    } else if d == 6 {
        "6"
    } else if d == 7 {
        "7"
    } else if d == 8 {
        "8"
    } else {
        "9"
    }
}

/// Appends a number in decimal to the text.
pub fn push_decimal(text: &mut String, n: u64)
    ensures
        final(text)@ == old(text)@ + decimal(n as nat),
    decreases n,
{
    if n >= 10 {
        push_decimal(text, n / 10);
    }
    text.append(digit_text(n % 10));
}

/// The overlay's text for a frame with the given figures.
pub fn overlay_text(fps: u64, sps: u64) -> (text: String)
    ensures
        text@ == overlay_text_of(fps, sps),
{
    let mut text = String::from_str("FPS:");
    push_decimal(&mut text, fps);
    text.append(", sps:");
    push_decimal(&mut text, sps);
    text
}

} // verus!
