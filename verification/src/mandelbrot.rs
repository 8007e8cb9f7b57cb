//! The fractal renderer: the fractal kernel shades every pixel of an image
//! on the device, the image is copied into a byte buffer, and the host
//! reads it back and exports it.

use vstd::prelude::*;
use crate::commands::{Command, Extent, Kernel, Rgba};
use crate::model::{effect, grey, outcome, texel_bytes, Memory, Shading};

verus! {

/// Width of the image, in pixels.
pub const WIDTH: u32 = 1024;

/// Height of the image, in pixels.
pub const HEIGHT: u32 = 1024;

/// Slot of the image.
pub const IMAGE: u32 = 0;

/// Slot of the buffer that the image is copied into.
pub const READBACK: u32 = 1;

/// The command sequence of the demonstration: dispatch the fractal kernel
/// with one lane for each pixel, then copy the image into the readback
/// buffer.
pub open spec fn plan_spec() -> Seq<Command> {
    seq![
        Command::Dispatch {
            groups: Extent { x: 128, y: 128, z: 1 },
            kernel: Kernel::Fractal,
            target: IMAGE,
        },
        Command::CopyImageToBuffer { image: IMAGE, buffer: READBACK },
    ]
}

/// The picture that the kernel draws under `shading`: at each pixel the
/// grey, opaque colour of the shade computed there, in row-major order.
pub open spec fn picture(shading: Shading) -> Seq<Rgba> {
    Seq::new(
        (WIDTH * HEIGHT) as nat,
        |p: int| grey(shading(p % (WIDTH as int), p / (WIDTH as int))),
    )
}

/// The command sequence to record.
pub fn plan() -> (commands: Vec<Command>)
    ensures
        commands@ == plan_spec(),
{
    let span = Extent { x: WIDTH, y: HEIGHT, z: 1 };
    let groups = span.groups_of(Kernel::Fractal.local_size());
    assert(groups == Extent { x: 128, y: 128, z: 1 });
    let mut commands: Vec<Command> = Vec::new();
    commands.push(Command::Dispatch { groups, kernel: Kernel::Fractal, target: IMAGE });
    commands.push(Command::CopyImageToBuffer { image: IMAGE, buffer: READBACK });
    commands
}

/// Once the planned sequence has run on an image of the planned size and a
/// buffer that holds it, the buffer shows the whole picture: no pixel is
/// left as it was, each is grey and opaque, and its shade is the one that
/// the kernel computed at its coordinate.
pub proof fn dispatch_shades_every_pixel(memory: Memory, shading: Shading)
    requires
        memory.is_image(IMAGE),
        memory.width(IMAGE) == WIDTH,
        memory.height(IMAGE) == HEIGHT,
        memory.texels(IMAGE).len() == WIDTH * HEIGHT,
        memory.is_buffer(READBACK),
        memory.buffer(READBACK).len() == 4 * WIDTH * HEIGHT,
    ensures
        outcome(plan_spec(), memory, shading).buffer(READBACK) == texel_bytes(picture(shading)),
{
    reveal_with_fuel(outcome, 3);
    let plan = plan_spec();
    let drawn = effect(plan[0], memory, shading);
    assert forall|p: int| 0 <= p < WIDTH * HEIGHT implies #[trigger] drawn.texels(IMAGE)[p]
        == picture(shading)[p] by {
        assert(p % 1024 < 128 * 8 && p / 1024 < 128 * 8) by (nonlinear_arith)
            requires
                0 <= p < 1024 * 1024,
        ;
    }
}

} // verus!
