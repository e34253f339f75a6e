use vstd::prelude::*;

verus! {

/// The xorshift permutation used to scramble lattice cell ids:
/// shift left 13, right 17, left 5, each folded in with xor.
pub open spec fn xorshift_spec(n: u32) -> u32 {
    let a = n ^ (n << 13u32);
    let b = a ^ (a >> 17u32);
    b ^ (b << 5u32)
}

/// Scrambles `n` with the xorshift permutation.
pub fn xorshift32(n: u32) -> (r: u32)
    ensures
        r == xorshift_spec(n),
{
    let mut x = n;
    x = x ^ (x << 13u32);
    x = x ^ (x >> 17u32);
    x = x ^ (x << 5u32);
    x
}

/// Id of the 2-D lattice cell `(ix, iy)`: each coordinate is multiplied by
/// its own large prime with wrap-around, the two products are xor-ed and the
/// bits are read as unsigned.
pub open spec fn cell_id2_spec(ix: i32, iy: i32) -> u32 {
    (ix.wrapping_mul(73856093i32) ^ iy.wrapping_mul(19349663i32)) as u32
}

/// Id of the 3-D lattice cell `(ix, iy, iz)`, built as `cell_id2_spec` with a
/// third prime for the third axis.
pub open spec fn cell_id3_spec(ix: i32, iy: i32, iz: i32) -> u32 {
    (ix.wrapping_mul(73856093i32) ^ iy.wrapping_mul(19349663i32) ^ iz.wrapping_mul(
        83492791i32,
    )) as u32
}

pub fn cell_id2(ix: i32, iy: i32) -> (r: u32)
    ensures
        r == cell_id2_spec(ix, iy),
{
    (ix.wrapping_mul(73856093i32) ^ iy.wrapping_mul(19349663i32)) as u32
}

pub fn cell_id3(ix: i32, iy: i32, iz: i32) -> (r: u32)
    ensures
        r == cell_id3_spec(ix, iy, iz),
{
    (ix.wrapping_mul(73856093i32) ^ iy.wrapping_mul(19349663i32) ^ iz.wrapping_mul(83492791i32))
        as u32
}

/// Raw noise bits of the 2-D lattice cell `(ix, iy)`.
pub fn lattice_noise_bits(ix: i32, iy: i32) -> (r: u32)
    ensures
        r == xorshift_spec(cell_id2_spec(ix, iy)),
{
    xorshift32(cell_id2(ix, iy))
}

/// The two hash values that decide the star of the sky cell `(ix, iy, iz)`:
/// the first says whether the cell holds a star, the second how bright it is.
pub fn star_bits(ix: i32, iy: i32, iz: i32) -> (r: (u32, u32))
    ensures
        r.0 == xorshift_spec(cell_id3_spec(ix, iy, iz)),
        r.1 == xorshift_spec(cell_id3_spec(ix, iy, iz).wrapping_mul(7919u32)),
{
    let id = cell_id3(ix, iy, iz);
    (xorshift32(id), xorshift32(id.wrapping_mul(7919u32)))
}

} // verus!
