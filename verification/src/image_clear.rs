//! The image clear: an image is cleared to one colour on the device and
//! copied into a byte buffer, which the host reads back and exports.

use vstd::prelude::*;
use crate::commands::{Command, Rgba};
use crate::readback::BYTES_PER_PIXEL;
use crate::model::{byte_elements, channel, filled_with, outcome, Memory, Shading};

verus! {

/// Width of the image, in pixels.
pub const WIDTH: u32 = 1024;

/// Height of the image, in pixels.
pub const HEIGHT: u32 = 1024;

/// Slot of the image.
pub const IMAGE: u32 = 0;

/// Slot of the buffer that the image is copied into.
pub const READBACK: u32 = 1;

/// The command sequence of the demonstration: clear the image to `color`,
/// then copy it into the readback buffer.
pub open spec fn plan_spec(color: Rgba) -> Seq<Command> {
    seq![
        Command::ClearImage { image: IMAGE, color },
        Command::CopyImageToBuffer { image: IMAGE, buffer: READBACK },
    ]
}

/// The command sequence to record for the clear colour `color`.
pub fn plan(color: Rgba) -> (commands: Vec<Command>)
    ensures
        commands@ == plan_spec(color),
{
    let mut commands: Vec<Command> = Vec::new();
    commands.push(Command::ClearImage { image: IMAGE, color });
    commands.push(Command::CopyImageToBuffer { image: IMAGE, buffer: READBACK });
    commands
}

/// Whether every pixel of a readback equals `color`.
pub fn is_filled_with(readback: &[u8], color: Rgba) -> (uniform: bool)
    ensures
        uniform == filled_with(byte_elements(readback@), color),
{
    if readback.len() % BYTES_PER_PIXEL != 0 {
        return false;
    }
    let mut k: usize = 0;
    while k < readback.len()
        invariant
            k <= readback.len(),
            k % 4 == 0,
            readback.len() % 4 == 0,
            forall|j: int| 0 <= j < k ==> #[trigger] byte_elements(readback@)[j] == channel(color, j % 4),
        decreases readback.len() - k,
    {
        if readback[k] != color.red || readback[k + 1] != color.green || readback[k + 2]
            != color.blue || readback[k + 3] != color.alpha {
            assert(byte_elements(readback@)[k as int] == readback@[k as int]);
            assert(byte_elements(readback@)[k + 1] == readback@[k + 1]);
            assert(byte_elements(readback@)[k + 2] == readback@[k + 2]);
            assert(byte_elements(readback@)[k + 3] == readback@[k + 3]);
            return false;
        }
        k += 4;
    }
    true
}

/// Once the planned sequence has run on an image and a buffer of the size
/// that holds it, every pixel of the buffer equals the clear colour: four
/// bytes per pixel, red first.
pub proof fn clear_fills_readback(memory: Memory, color: Rgba, shading: Shading)
    requires
        memory.is_image(IMAGE),
        memory.is_buffer(READBACK),
        memory.buffer(READBACK).len() == 4 * memory.texels(IMAGE).len(),
    ensures
        filled_with(outcome(plan_spec(color), memory, shading).buffer(READBACK), color),
        outcome(plan_spec(color), memory, shading).buffer(READBACK).len() == memory.buffer(
            READBACK,
        ).len(),
{
    reveal_with_fuel(outcome, 3);
}

} // verus!
