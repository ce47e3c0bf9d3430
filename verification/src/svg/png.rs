//! The size that a PNG image states in its header.

use crate::svg::PixelSize;
use vstd::prelude::*;

verus! {

/// The eight bytes every PNG image starts with, and after them the first
/// eight bytes of the header chunk: its length, thirteen, and its name,
/// `IHDR`.
pub open spec fn png_prelude() -> Seq<u8> {
    seq![
        137u8,
        80u8,
        78u8,
        71u8,
        13u8,
        10u8,
        26u8,
        10u8,
        0u8,
        0u8,
        0u8,
        13u8,
        73u8,
        72u8,
        68u8,
        82u8,
    ]
}

/// The number that the four bytes of `data` from `at` on spell, most
/// significant byte first.
pub open spec fn be_u32(data: Seq<u8>, at: int) -> int {
    data[at] * 0x100_0000 + data[at + 1] * 0x1_0000 + data[at + 2] * 0x100 + data[at + 3]
}

/// The size that `data` states, if `data` starts as a PNG image does: the
/// header chunk opens with the width and the height.
pub open spec fn png_dimensions(data: Seq<u8>) -> Option<PixelSize> {
    if data.len() >= 24 && data.subrange(0, 16) == png_prelude() {
        Some(PixelSize { width: be_u32(data, 16) as u32, height: be_u32(data, 20) as u32 })
    } else {
        None
    }
}

/// Read four bytes as a number, most significant byte first.
fn read_be_u32(data: &[u8], at: usize) -> (number: u32)
    requires
        at + 4 <= data.len(),
    ensures
        number == be_u32(data@, at as int),
{
    let b0: u32 = data[at] as u32;
    let b1: u32 = data[at + 1] as u32;
    let b2: u32 = data[at + 2] as u32;
    let b3: u32 = data[at + 3] as u32;
    b0 * 0x100_0000 + b1 * 0x1_0000 + b2 * 0x100 + b3
}

/// Whether `data` starts as a PNG image does.
fn has_png_prelude(data: &[u8]) -> (found: bool)
    ensures
        found == (data.len() >= 16 && data@.subrange(0, 16) == png_prelude()),
{
    if data.len() < 16 {
        return false;
    }
    let prelude: [u8; 16] = [137, 80, 78, 71, 13, 10, 26, 10, 0, 0, 0, 13, 73, 72, 68, 82];
    let mut at: usize = 0;
    while at < 16
        invariant
            at <= 16,
            data.len() >= 16,
            prelude@ == png_prelude(),
            forall|i: int| 0 <= i < at ==> data@[i] == png_prelude()[i],
        decreases 16 - at,
    {
        if data[at] != prelude[at] {
            return false;
        }
        at += 1;
    }
    assert(data@.subrange(0, 16) =~= png_prelude());
    true
}

/// The pixel size that a PNG image states in its header, or `None` if
/// `data` does not start as a PNG image does.
pub fn read_png_dimensions(data: &[u8]) -> (size: Option<PixelSize>)
    ensures
        size == png_dimensions(data@),
{
    if data.len() >= 24 && has_png_prelude(data) {
        Some(PixelSize { width: read_be_u32(data, 16), height: read_be_u32(data, 20) })
    } else {
        None
    }
}

} // verus!
