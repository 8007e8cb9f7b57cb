//! Byte buffers that receive an image from the device.

use vstd::prelude::*;

verus! {

/// Bytes that one pixel takes in a readback buffer.
pub const BYTES_PER_PIXEL: usize = 4;

/// Number of bytes that an image of the given size takes in a readback
/// buffer.
pub open spec fn readback_len(width: u32, height: u32) -> int {
    BYTES_PER_PIXEL * width * height
}

/// A zeroed readback buffer for an image of the given size, or `None` if
/// no buffer of that many bytes can exist on this machine.
pub fn blank_readback(width: u32, height: u32) -> (content: Option<Vec<u8>>)
    ensures
        content is Some <==> readback_len(width, height) <= usize::MAX,
        content matches Some(bytes) ==> bytes@ == Seq::new(
            readback_len(width, height) as nat,
            |i: int| 0u8,
        ),
{
    assert(0 <= width * height <= 0xFFFF_FFFF * 0xFFFF_FFFF) by (nonlinear_arith)
        requires
            0 <= width <= 0xFFFF_FFFF,
            0 <= height <= 0xFFFF_FFFF,
    ;
    let pixels: u64 = (width as u64) * (height as u64);
    assert(readback_len(width, height) == 4 * pixels) by (nonlinear_arith)
        requires
            pixels == width * height,
            readback_len(width, height) == 4 * width * height,
    ;
    if pixels > (usize::MAX / BYTES_PER_PIXEL) as u64 {
        return None;
    }
    let len: usize = (pixels as usize) * BYTES_PER_PIXEL;
    let mut bytes: Vec<u8> = Vec::new();
    while bytes.len() < len
        invariant
            bytes.len() <= len,
            forall|i: int| 0 <= i < bytes.len() ==> bytes@[i] == 0u8,
        decreases len - bytes.len(),
    {
        bytes.push(0);
    }
    Some(bytes)
}

} // verus!
