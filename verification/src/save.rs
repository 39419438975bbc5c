use vstd::prelude::*;
use crate::grid::{Grid, Position};

verus! {

/// Byte `i` (big-endian, so byte 0 carries the highest bits) of a 64-bit
/// value.
pub open spec fn be_byte(v: u64, i: int) -> u8 {
    (v >> (((7 - i) * 8) as u64)) as u8
}

/// The eight bytes of a 64-bit value, highest first.
pub open spec fn be_bytes_of(v: u64) -> Seq<u8> {
    Seq::new(8, |i: int| be_byte(v, i))
}

/// The fixed-width save payload: grid width, grid height, and the food
/// cell's two coordinates, each as eight big-endian bytes.
pub open spec fn save_bytes_spec(g: Grid, food: Position) -> Seq<u8> {
    be_bytes_of(g.width as u64) + be_bytes_of(g.height as u64) + be_bytes_of(food.x as u64)
        + be_bytes_of(food.y as u64)
}

/// Why a save payload was rejected on load.
#[derive(Clone, Copy, PartialEq, Eq, Structural, Debug)]
pub enum SaveError {
    /// The payload is not exactly 32 bytes long.
    WrongLength,
    /// The stored width differs from the current grid's width.
    WidthMismatch,
    /// The stored height differs from the current grid's height.
    HeightMismatch,
}

pub fn u64_to_be_bytes(v: u64) -> (r: Vec<u8>)
    ensures
        r@ == be_bytes_of(v),
{
    let mut r: Vec<u8> = Vec::new();
    r.push((v >> 56u64) as u8);
    r.push((v >> 48u64) as u8);
    r.push((v >> 40u64) as u8);
    r.push((v >> 32u64) as u8);
    r.push((v >> 24u64) as u8);
    r.push((v >> 16u64) as u8);
    r.push((v >> 8u64) as u8);
    r.push((v >> 0u64) as u8);
    proof {
        assert(r@ =~= be_bytes_of(v));
    }
    r
}

pub fn u64_from_be_bytes(bytes: &Vec<u8>, at: usize) -> (v: u64)
    requires
        at + 8 <= bytes@.len(),
    ensures
        be_bytes_of(v) == bytes@.subrange(at as int, at as int + 8),
{
    // pins the vector's length under the machine word's top, which the
    // index arithmetic below needs
    let _len: usize = bytes.len();
    let b0 = bytes[at];
    let b1 = bytes[at + 1];
    let b2 = bytes[at + 2];
    let b3 = bytes[at + 3];
    let b4 = bytes[at + 4];
    let b5 = bytes[at + 5];
    let b6 = bytes[at + 6];
    let b7 = bytes[at + 7];
    let v = ((b0 as u64) << 56u64) | ((b1 as u64) << 48u64) | ((b2 as u64) << 40u64) | ((b3
        as u64) << 32u64) | ((b4 as u64) << 24u64) | ((b5 as u64) << 16u64) | ((b6 as u64)
        << 8u64) | (b7 as u64);
    proof {
        assert(((((b0 as u64) << 56u64) | ((b1 as u64) << 48u64) | ((b2 as u64) << 40u64) | ((b3
            as u64) << 32u64) | ((b4 as u64) << 24u64) | ((b5 as u64) << 16u64) | ((b6 as u64)
            << 8u64) | (b7 as u64)) >> 56u64) as u8 == b0) by (bit_vector);
        assert(((((b0 as u64) << 56u64) | ((b1 as u64) << 48u64) | ((b2 as u64) << 40u64) | ((b3
            as u64) << 32u64) | ((b4 as u64) << 24u64) | ((b5 as u64) << 16u64) | ((b6 as u64)
            << 8u64) | (b7 as u64)) >> 48u64) as u8 == b1) by (bit_vector);
        assert(((((b0 as u64) << 56u64) | ((b1 as u64) << 48u64) | ((b2 as u64) << 40u64) | ((b3
            as u64) << 32u64) | ((b4 as u64) << 24u64) | ((b5 as u64) << 16u64) | ((b6 as u64)
            << 8u64) | (b7 as u64)) >> 40u64) as u8 == b2) by (bit_vector);
        assert(((((b0 as u64) << 56u64) | ((b1 as u64) << 48u64) | ((b2 as u64) << 40u64) | ((b3
            as u64) << 32u64) | ((b4 as u64) << 24u64) | ((b5 as u64) << 16u64) | ((b6 as u64)
            << 8u64) | (b7 as u64)) >> 32u64) as u8 == b3) by (bit_vector);
        assert(((((b0 as u64) << 56u64) | ((b1 as u64) << 48u64) | ((b2 as u64) << 40u64) | ((b3
            as u64) << 32u64) | ((b4 as u64) << 24u64) | ((b5 as u64) << 16u64) | ((b6 as u64)
            << 8u64) | (b7 as u64)) >> 24u64) as u8 == b4) by (bit_vector);
        assert(((((b0 as u64) << 56u64) | ((b1 as u64) << 48u64) | ((b2 as u64) << 40u64) | ((b3
            as u64) << 32u64) | ((b4 as u64) << 24u64) | ((b5 as u64) << 16u64) | ((b6 as u64)
            << 8u64) | (b7 as u64)) >> 16u64) as u8 == b5) by (bit_vector);
        assert(((((b0 as u64) << 56u64) | ((b1 as u64) << 48u64) | ((b2 as u64) << 40u64) | ((b3
            as u64) << 32u64) | ((b4 as u64) << 24u64) | ((b5 as u64) << 16u64) | ((b6 as u64)
            << 8u64) | (b7 as u64)) >> 8u64) as u8 == b6) by (bit_vector);
        assert(((((b0 as u64) << 56u64) | ((b1 as u64) << 48u64) | ((b2 as u64) << 40u64) | ((b3
            as u64) << 32u64) | ((b4 as u64) << 24u64) | ((b5 as u64) << 16u64) | ((b6 as u64)
            << 8u64) | (b7 as u64)) >> 0u64) as u8 == b7) by (bit_vector);
        assert(be_bytes_of(v) =~= bytes@.subrange(at as int, at as int + 8));
    }
    v
}

/// The save payload the persistence collaborator writes on a save request.
pub fn encode_save(grid: &Grid, food: Position) -> (r: Vec<u8>)
    ensures
        r@ == save_bytes_spec(*grid, food),
        r@.len() == 32,
{
    let mut r = u64_to_be_bytes(grid.width as u64);
    let mut part = u64_to_be_bytes(grid.height as u64);
    r.append(&mut part);
    let mut part = u64_to_be_bytes(food.x as u64);
    r.append(&mut part);
    let mut part = u64_to_be_bytes(food.y as u64);
    r.append(&mut part);
    proof {
        assert(r@ =~= save_bytes_spec(*grid, food));
    }
    r
}

fn bytes_match(bytes: &Vec<u8>, at: usize, expected: &Vec<u8>) -> (r: bool)
    requires
        expected@.len() == 8,
        at + 8 <= bytes@.len(),
    ensures
        r == (bytes@.subrange(at as int, at as int + 8) == expected@),
{
    let n: usize = bytes.len();
    let mut i: usize = 0;
    while i < 8
        invariant
            i <= 8,
            expected@.len() == 8,
            at + 8 <= n,
            n == bytes@.len(),
            forall|j: int| 0 <= j < i ==> bytes@[at + j] == expected@[j],
        decreases 8 - i,
    {
        if bytes[at + i] != expected[i] {
            proof {
                assert(bytes@.subrange(at as int, at as int + 8)[i as int] != expected@[i as int]);
            }
            return false;
        }
        i += 1;
    }
    proof {
        assert(bytes@.subrange(at as int, at as int + 8) =~= expected@);
    }
    true
}

/// Validates a save payload against the current grid and reads the stored
/// food coordinates back. A payload of the wrong size, or one whose stored
/// width or height differs from the grid's, is rejected; the dimension check
/// happens in that order, width first.
pub fn decode_save(bytes: &Vec<u8>, grid: &Grid) -> (r: Result<(u64, u64), SaveError>)
    ensures
        bytes@.len() != 32 ==> r == Err::<(u64, u64), SaveError>(SaveError::WrongLength),
        bytes@.len() == 32 ==> {
            let wb = be_bytes_of(grid.width as u64);
            let hb = be_bytes_of(grid.height as u64);
            &&& wb != bytes@.subrange(0, 8) ==> r == Err::<(u64, u64), SaveError>(
                SaveError::WidthMismatch,
            )
            &&& wb == bytes@.subrange(0, 8) && hb != bytes@.subrange(8, 16) ==> r == Err::<
                (u64, u64),
                SaveError,
            >(SaveError::HeightMismatch)
            &&& wb == bytes@.subrange(0, 8) && hb == bytes@.subrange(8, 16) ==> match r {
                Ok(food) => be_bytes_of(food.0) == bytes@.subrange(16, 24) && be_bytes_of(food.1)
                    == bytes@.subrange(24, 32),
                Err(_) => false,
            }
        },
{
    if bytes.len() != 32 {
        return Err(SaveError::WrongLength);
    }
    let wb = u64_to_be_bytes(grid.width as u64);
    if !bytes_match(bytes, 0, &wb) {
        return Err(SaveError::WidthMismatch);
    }
    let hb = u64_to_be_bytes(grid.height as u64);
    if !bytes_match(bytes, 8, &hb) {
        return Err(SaveError::HeightMismatch);
    }
    let x = u64_from_be_bytes(bytes, 16);
    let y = u64_from_be_bytes(bytes, 24);
    Ok((x, y))
}

/// The save payload splits back into its four fields: each eight-byte slice
/// of the encoded form is the big-endian form of the field that was written
/// there, so loading a payload against the grid it was saved from always
/// succeeds and returns the food cell that was saved.
pub proof fn lemma_save_bytes_parts(g: Grid, food: Position)
    ensures
        save_bytes_spec(g, food).len() == 32,
        save_bytes_spec(g, food).subrange(0, 8) == be_bytes_of(g.width as u64),
        save_bytes_spec(g, food).subrange(8, 16) == be_bytes_of(g.height as u64),
        save_bytes_spec(g, food).subrange(16, 24) == be_bytes_of(food.x as u64),
        save_bytes_spec(g, food).subrange(24, 32) == be_bytes_of(food.y as u64),
{
    assert(save_bytes_spec(g, food).subrange(0, 8) =~= be_bytes_of(g.width as u64));
    assert(save_bytes_spec(g, food).subrange(8, 16) =~= be_bytes_of(g.height as u64));
    assert(save_bytes_spec(g, food).subrange(16, 24) =~= be_bytes_of(food.x as u64));
    assert(save_bytes_spec(g, food).subrange(24, 32) =~= be_bytes_of(food.y as u64));
}

} // verus!
