//! Packed 32-bit colours: four 8-bit channels at fixed bit offsets.

use vstd::prelude::*;

verus! {

/// Bit offset of the blue channel.
pub const BITMAPCOL_B_SHIFT: u32 = 0;

/// Bit offset of the green channel.
pub const BITMAPCOL_G_SHIFT: u32 = 8;

/// Bit offset of the red channel.
pub const BITMAPCOL_R_SHIFT: u32 = 16;

/// Bit offset of the alpha channel.
pub const BITMAPCOL_A_SHIFT: u32 = 24;

/// The red channel of a packed colour: bits 16 to 23.
pub open spec fn red_of(col: u32) -> u8 {
    ((col >> 16) & 0xFF) as u8
}

/// The green channel of a packed colour: bits 8 to 15.
pub open spec fn green_of(col: u32) -> u8 {
    ((col >> 8) & 0xFF) as u8
}

/// The blue channel of a packed colour: bits 0 to 7.
pub open spec fn blue_of(col: u32) -> u8 {
    (col & 0xFF) as u8
}

/// The alpha channel of a packed colour: bits 24 to 31.
pub open spec fn alpha_of(col: u32) -> u8 {
    ((col >> 24) & 0xFF) as u8
}

/// The packed colour whose channels are `r`, `g`, `b` and `a`.
pub open spec fn packed(r: u8, g: u8, b: u8, a: u8) -> u32 {
    ((a as u32) << 24) | ((r as u32) << 16) | ((g as u32) << 8) | (b as u32)
}

/// Extracts the red channel.
pub fn bitmap_col_r(col: u32) -> (r: u8)
    ensures
        r == (col >> 16) & 0xFF,
        r == red_of(col),
{
    assert((col >> 16) & 0xFF < 0x100) by (bit_vector);
    ((col >> BITMAPCOL_R_SHIFT) & 0xFF) as u8
}

/// Extracts the green channel.
pub fn bitmap_col_g(col: u32) -> (g: u8)
    ensures
        g == (col >> 8) & 0xFF,
        g == green_of(col),
{
    assert((col >> 8) & 0xFF < 0x100) by (bit_vector);
    ((col >> BITMAPCOL_G_SHIFT) & 0xFF) as u8
}

/// Extracts the blue channel.
pub fn bitmap_col_b(col: u32) -> (b: u8)
    ensures
        b == col & 0xFF,
        b == blue_of(col),
{
    assert(col & 0xFF < 0x100) by (bit_vector);
    assert((col >> 0) == col) by (bit_vector);
    ((col >> BITMAPCOL_B_SHIFT) & 0xFF) as u8
}

/// Extracts the alpha channel.
pub fn bitmap_col_a(col: u32) -> (a: u8)
    ensures
        a == (col >> 24) & 0xFF,
        a == alpha_of(col),
{
    assert((col >> 24) & 0xFF < 0x100) by (bit_vector);
    ((col >> BITMAPCOL_A_SHIFT) & 0xFF) as u8
}

/// Packs four channels into one colour, each at its own bit offset.
pub fn bitmap_col_make(r: u8, g: u8, b: u8, a: u8) -> (col: u32)
    ensures
        col == packed(r, g, b, a),
{
    let low: u32 = b as u32;
    assert(low << 0 == low) by (bit_vector);
    ((a as u32) << BITMAPCOL_A_SHIFT) | ((r as u32) << BITMAPCOL_R_SHIFT) | ((g as u32)
        << BITMAPCOL_G_SHIFT) | ((b as u32) << BITMAPCOL_B_SHIFT)
}

/// Packing four bytes and extracting the channels again gives back the same
/// four bytes.
pub proof fn lemma_pack_extract(r: u8, g: u8, b: u8, a: u8)
    ensures
        red_of(packed(r, g, b, a)) == r,
        green_of(packed(r, g, b, a)) == g,
        blue_of(packed(r, g, b, a)) == b,
        alpha_of(packed(r, g, b, a)) == a,
{
    let c = packed(r, g, b, a);
    assert(((c >> 16) & 0xFF) as u8 == r) by (bit_vector)
        requires
            c == ((a as u32) << 24) | ((r as u32) << 16) | ((g as u32) << 8) | (b as u32),
    ;
    assert(((c >> 8) & 0xFF) as u8 == g) by (bit_vector)
        requires
            c == ((a as u32) << 24) | ((r as u32) << 16) | ((g as u32) << 8) | (b as u32),
    ;
    assert((c & 0xFF) as u8 == b) by (bit_vector)
        requires
            c == ((a as u32) << 24) | ((r as u32) << 16) | ((g as u32) << 8) | (b as u32),
    ;
    assert(((c >> 24) & 0xFF) as u8 == a) by (bit_vector)
        requires
            c == ((a as u32) << 24) | ((r as u32) << 16) | ((g as u32) << 8) | (b as u32),
    ;
}

/// Extracting the four channels of a colour and packing them again gives back
/// the same colour: the four channels hold every bit of it.
pub proof fn lemma_extract_pack(col: u32)
    ensures
        packed(red_of(col), green_of(col), blue_of(col), alpha_of(col)) == col,
{
    let r = red_of(col);
    let g = green_of(col);
    let b = blue_of(col);
    let a = alpha_of(col);
    assert(((a as u32) << 24) | ((r as u32) << 16) | ((g as u32) << 8) | (b as u32) == col)
        by (bit_vector)
        requires
            r == ((col >> 16) & 0xFF) as u8,
            g == ((col >> 8) & 0xFF) as u8,
            b == (col & 0xFF) as u8,
            a == ((col >> 24) & 0xFF) as u8,
    ;
}

} // verus!
