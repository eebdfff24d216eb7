//! Reading the dimensions out of a PNG header.
//!
//! When no image tool is available to report a screenshot's size,
//! the PNG header itself is parsed: after the eight-byte signature,
//! the IHDR chunk carries width and height as big-endian 32-bit
//! integers at byte offsets 16 and 20.

use vstd::prelude::*;

verus! {

/// The eight-byte PNG file signature.
pub open spec fn png_signature() -> Seq<u8> {
    seq![0x89u8, 0x50u8, 0x4eu8, 0x47u8, 0x0du8, 0x0au8, 0x1au8, 0x0au8]
}

/// A 32-bit big-endian integer from four bytes.
pub open spec fn be_u32(b0: int, b1: int, b2: int, b3: int) -> int {
    b0 * 0x1000000 + b1 * 0x10000 + b2 * 0x100 + b3
}

/// A byte sequence starts with the PNG signature and is long enough
/// to hold the IHDR dimensions.
pub open spec fn has_png_header(data: Seq<u8>) -> bool {
    data.len() >= 24 && data.subrange(0, 8) == png_signature()
}

/// Read a big-endian `u32` at the given offset.
fn read_be_u32(data: &[u8], offset: usize) -> (r: u32)
    requires
        offset + 4 <= data@.len(),
    ensures
        r == be_u32(
            data@[offset as int] as int,
            data@[offset + 1] as int,
            data@[offset + 2] as int,
            data@[offset + 3] as int,
        ),
{
    let b0 = data[offset] as u32;
    let b1 = data[offset + 1] as u32;
    let b2 = data[offset + 2] as u32;
    let b3 = data[offset + 3] as u32;
    b0 * 0x1000000 + b1 * 0x10000 + b2 * 0x100 + b3
}

/// Parse width and height from a PNG file's bytes. Returns `Some`
/// exactly when the data begins with the PNG signature and is long
/// enough; the pair is then the IHDR width and height.
pub fn png_dimensions(data: &[u8]) -> (r: Option<(u32, u32)>)
    ensures
        r is Some <==> has_png_header(data@),
        r matches Some(d) ==> {
            &&& d.0 == be_u32(
                data@[16] as int,
                data@[17] as int,
                data@[18] as int,
                data@[19] as int,
            )
            &&& d.1 == be_u32(
                data@[20] as int,
                data@[21] as int,
                data@[22] as int,
                data@[23] as int,
            )
        },
{
    if data.len() < 24 {
        return None;
    }
    let sig_ok = data[0] == 0x89 && data[1] == 0x50 && data[2] == 0x4e && data[3] == 0x47
        && data[4] == 0x0d && data[5] == 0x0a && data[6] == 0x1a && data[7] == 0x0a;
    proof {
        if sig_ok {
            assert(data@.subrange(0, 8) =~= png_signature());
        } else {
            assert(data@.subrange(0, 8) != png_signature()) by {
                if data@.subrange(0, 8) == png_signature() {
                    assert(data@[0] == png_signature()[0]);
                    assert(data@[1] == png_signature()[1]);
                    assert(data@[2] == png_signature()[2]);
                    assert(data@[3] == png_signature()[3]);
                    assert(data@[4] == png_signature()[4]);
                    assert(data@[5] == png_signature()[5]);
                    assert(data@[6] == png_signature()[6]);
                    assert(data@[7] == png_signature()[7]);
                }
            }
        }
    }
    if !sig_ok {
        return None;
    }
    let w = read_be_u32(data, 16);
    let h = read_be_u32(data, 20);
    Some((w, h))
}

} // verus!
