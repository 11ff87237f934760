//! Repacking a buffer of packed colours into interleaved R, G, B, A bytes.

use crate::color::{
    alpha_of, bitmap_col_a, bitmap_col_b, bitmap_col_g, bitmap_col_r, blue_of, green_of, red_of,
};
use rayon::iter::{IntoParallelRefIterator, ParallelIterator};
use vstd::prelude::*;

verus! {

/// The four output bytes of one pixel, in the order R, G, B, A.
pub open spec fn pixel_bytes(col: u32) -> Seq<u8> {
    seq![red_of(col), green_of(col), blue_of(col), alpha_of(col)]
}

/// The interleaved bytes of a pixel buffer: pixel `i` fills the bytes
/// `4 * i` to `4 * i + 3`, in the order R, G, B, A.
pub open spec fn rgba_bytes(pixels: Seq<u32>) -> Seq<u8> {
    Seq::new(4 * pixels.len(), |j: int| pixel_bytes(pixels[j / 4])[j % 4])
}

/// Converting one more pixel appends its four bytes to the bytes of the
/// pixels before it.
pub proof fn lemma_rgba_bytes_step(pixels: Seq<u32>, i: int)
    requires
        0 <= i < pixels.len(),
    ensures
        rgba_bytes(pixels.take(i + 1)) == rgba_bytes(pixels.take(i)) + pixel_bytes(pixels[i]),
{
    assert(rgba_bytes(pixels.take(i + 1)) =~= rgba_bytes(pixels.take(i)) + pixel_bytes(
        pixels[i],
    ));
}

/// The bytes of a buffer cut in two are the bytes of the first part followed
/// by the bytes of the second: a buffer may be split between workers at any
/// pixel, and the parts put together again by position give the same bytes.
pub proof fn lemma_rgba_bytes_concat(left: Seq<u32>, right: Seq<u32>)
    ensures
        rgba_bytes(left + right) == rgba_bytes(left) + rgba_bytes(right),
{
    assert(rgba_bytes(left + right) =~= rgba_bytes(left) + rgba_bytes(right));
}

/// Mapping each of the first `i` pixels to its four bytes and concatenating
/// the results in pixel order gives the interleaved bytes of those pixels.
proof fn lemma_flat_map_prefix(pixels: Seq<u32>, i: int)
    requires
        0 <= i <= pixels.len(),
    ensures
        pixels.take(i).flat_map(|col: u32| pixel_bytes(col)) == rgba_bytes(pixels.take(i)),
    decreases i,
{
    let f = |col: u32| pixel_bytes(col);
    if i == 0 {
        assert(pixels.take(0).flat_map(f) =~= rgba_bytes(pixels.take(0)));
    } else {
        lemma_flat_map_prefix(pixels, i - 1);
        pixels.lemma_flat_map_take_append(f, i - 1);
        lemma_rgba_bytes_step(pixels, i - 1);
    }
}

/// Mapping each pixel to its four bytes and concatenating the results in
/// pixel order gives exactly the interleaved bytes of the buffer: what the
/// worker threads collect is, byte for byte, what `pixels_to_rgba` returns.
pub proof fn lemma_flat_map_is_rgba_bytes(pixels: Seq<u32>)
    ensures
        pixels.flat_map(|col: u32| pixel_bytes(col)) == rgba_bytes(pixels),
{
    lemma_flat_map_prefix(pixels, pixels.len() as int);
    assert(pixels.take(pixels.len() as int) =~= pixels);
}

/// The four bytes of one pixel in output order.
pub fn pixel_rgba(col: u32) -> (out: [u8; 4])
    ensures
        out@ == pixel_bytes(col),
{
    let out = [bitmap_col_r(col), bitmap_col_g(col), bitmap_col_b(col), bitmap_col_a(col)];
    assert(out@ =~= pixel_bytes(col));
    out
}

/// Converts a pixel buffer to interleaved bytes, one pixel after the other.
pub fn pixels_to_rgba(pixels: &Vec<u32>) -> (out: Vec<u8>)
    ensures
        out@ == rgba_bytes(pixels@),
        out@.len() == 4 * pixels@.len(),
{
    let mut out: Vec<u8> = Vec::new();
    let mut i: usize = 0;
    assert(out@ =~= rgba_bytes(pixels@.take(0)));
    while i < pixels.len()
        invariant
            i <= pixels@.len(),
            out@ == rgba_bytes(pixels@.take(i as int)),
        decreases pixels@.len() - i,
    {
        let col = pixels[i];
        let ghost before = out@;
        out.push(bitmap_col_r(col));
        out.push(bitmap_col_g(col));
        out.push(bitmap_col_b(col));
        out.push(bitmap_col_a(col));
        proof {
            assert(out@ =~= before + pixel_bytes(col));
            lemma_rgba_bytes_step(pixels@, i as int);
        }
        i = i + 1;
    }
    assert(pixels@.take(pixels@.len() as int) =~= pixels@);
    out
}

/// Calls rayon's `par_iter`, `flat_map` and `collect` on the buffer, with
/// `pixel_rgba` as the mapping. As rayon documents for `flat_map` collected
/// into a `Vec`, the result holds the mapped items of each element, flattened
/// in the order of the elements, whatever the number of worker threads.
#[verifier::external_body]
fn par_flat_map_rgba(pixels: &Vec<u32>) -> (out: Vec<u8>)
    ensures
        out@ == pixels@.flat_map(|col: u32| pixel_bytes(col)),
{
    pixels.par_iter().flat_map(|&col| pixel_rgba(col)).collect::<Vec<u8>>()
}

/// Converts a pixel buffer to interleaved bytes on rayon's worker threads.
/// The bytes are those of `pixels_to_rgba`.
pub fn pixels_to_rgba_par(pixels: &Vec<u32>) -> (out: Vec<u8>)
    ensures
        out@ == rgba_bytes(pixels@),
        out@.len() == 4 * pixels@.len(),
{
    let out = par_flat_map_rgba(pixels);
    proof {
        lemma_flat_map_is_rgba_bytes(pixels@);
    }
    out
}

} // verus!
