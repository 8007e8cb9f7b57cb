//! What a command sequence means: a mathematical picture of device memory,
//! and the memory that each command leaves behind when the device carries
//! it out in order. Nothing here runs; the plans of the demonstrations are
//! proved against it.

use vstd::prelude::*;
use crate::commands::{Command, Kernel, Rgba, SCALE_FACTOR};

verus! {

/// What one slot of device memory holds.
pub enum Store {
    /// A linear buffer, seen as the sequence of its elements.
    Buffer(Seq<int>),
    /// A two-dimensional image, its texels in row-major order.
    Image { width: nat, height: nat, texels: Seq<Rgba> },
}

/// Device memory: the resources that exist, by slot.
pub struct Memory {
    pub stores: Map<u32, Store>,
}

/// The shade that the fractal kernel computes for the pixel at `(x, y)`.
/// The kernel works in floating point; the model leaves its values open and
/// speaks of every such function.
pub type Shading = spec_fn(int, int) -> u8;

/// The byte that channel `k` (0 to 3) of a colour contributes to a readback.
pub open spec fn channel(color: Rgba, k: int) -> u8 {
    if k == 0 {
        color.red
    } else if k == 1 {
        color.green
    } else if k == 2 {
        color.blue
    } else {
        color.alpha
    }
}

/// The bytes of a run of texels as a buffer receives them: four per texel,
/// red first, texel after texel.
pub open spec fn texel_bytes(texels: Seq<Rgba>) -> Seq<int> {
    Seq::new(4 * texels.len(), |k: int| channel(texels[k / 4], k % 4) as int)
}

/// The elements of a byte buffer as the model sees them.
pub open spec fn byte_elements(bytes: Seq<u8>) -> Seq<int> {
    Seq::new(bytes.len(), |i: int| bytes[i] as int)
}

/// The elements of a buffer of 32-bit words as the model sees them.
pub open spec fn word_elements(words: Seq<u32>) -> Seq<int> {
    Seq::new(words.len(), |i: int| words[i] as int)
}

/// Whether a readback holds nothing but `color`: whole pixels only, and in
/// each the four channel bytes of the colour, red first.
pub open spec fn filled_with(bytes: Seq<int>, color: Rgba) -> bool {
    &&& bytes.len() % 4 == 0
    &&& forall|k: int| 0 <= k < bytes.len() ==> #[trigger] bytes[k] == channel(color, k % 4)
}

/// Whether every element of a buffer is its own index times the scale
/// factor.
pub open spec fn scaled_ramp(elements: Seq<int>) -> bool {
    forall|i: int| 0 <= i < elements.len() ==> #[trigger] elements[i] == i * SCALE_FACTOR
}

/// The grey, opaque colour of intensity `shade`.
pub open spec fn grey(shade: u8) -> Rgba {
    Rgba { red: shade, green: shade, blue: shade, alpha: 255 }
}

/// The value that the scaling kernel leaves where it found `value`:
/// the product in 32-bit unsigned arithmetic.
pub open spec fn scaled(value: int) -> int {
    (value * SCALE_FACTOR) % 0x1_0000_0000
}

impl Memory {
    /// Whether `slot` holds a buffer.
    pub open spec fn is_buffer(self, slot: u32) -> bool {
        self.stores.dom().contains(slot) && self.stores[slot] is Buffer
    }

    /// Whether `slot` holds an image.
    pub open spec fn is_image(self, slot: u32) -> bool {
        self.stores.dom().contains(slot) && self.stores[slot] is Image
    }

    /// The elements of the buffer in `slot`.
    pub open spec fn buffer(self, slot: u32) -> Seq<int>
        recommends
            self.is_buffer(slot),
    {
        self.stores[slot]->Buffer_0
    }

    /// The texels of the image in `slot`, in row-major order.
    pub open spec fn texels(self, slot: u32) -> Seq<Rgba>
        recommends
            self.is_image(slot),
    {
        self.stores[slot]->texels
    }

    /// The width of the image in `slot`.
    pub open spec fn width(self, slot: u32) -> nat
        recommends
            self.is_image(slot),
    {
        self.stores[slot]->width
    }

    /// The height of the image in `slot`.
    pub open spec fn height(self, slot: u32) -> nat
        recommends
            self.is_image(slot),
    {
        self.stores[slot]->height
    }

    /// This memory with the buffer in `slot` replaced.
    pub open spec fn with_buffer(self, slot: u32, elements: Seq<int>) -> Memory {
        Memory { stores: self.stores.insert(slot, Store::Buffer(elements)) }
    }

    /// This memory with the texels of the image in `slot` replaced.
    pub open spec fn with_texels(self, slot: u32, texels: Seq<Rgba>) -> Memory {
        Memory {
            stores: self.stores.insert(
                slot,
                Store::Image { width: self.width(slot), height: self.height(slot), texels },
            ),
        }
    }
}

/// Whether the device can carry out `command` on `memory`: the slots hold
/// what the command expects, a copy does not overlap itself, a readback
/// buffer is large enough, and no kernel lane reaches outside its target.
pub open spec fn accepts(command: Command, memory: Memory) -> bool {
    match command {
        Command::CopyBuffer { source, dest } => {
            &&& memory.is_buffer(source)
            &&& memory.is_buffer(dest)
            &&& source != dest
        },
        Command::ClearImage { image, color } => memory.is_image(image),
        Command::CopyImageToBuffer { image, buffer } => {
            &&& memory.is_image(image)
            &&& memory.is_buffer(buffer)
            &&& 4 * memory.texels(image).len() <= memory.buffer(buffer).len()
        },
        Command::Dispatch { groups, kernel, target } => match kernel {
            Kernel::Scale => {
                &&& memory.is_buffer(target)
                &&& groups.y == 1
                &&& groups.z == 1
                &&& groups.x * kernel.local_size_spec().x <= memory.buffer(target).len()
            },
            Kernel::Fractal => {
                &&& memory.is_image(target)
                &&& groups.z == 1
            },
        },
    }
}

/// The elements of `dest` after `source` was copied over it: as many as
/// the shorter of the two holds are replaced, the rest stay.
pub open spec fn copied_over(source: Seq<int>, dest: Seq<int>) -> Seq<int> {
    Seq::new(dest.len(), |i: int| if i < source.len() { source[i] } else { dest[i] })
}

/// The elements of a buffer after `lanes` lanes of the scaling kernel ran
/// over it, lane `i` on element `i`.
pub open spec fn scaled_prefix(elements: Seq<int>, lanes: int) -> Seq<int> {
    Seq::new(elements.len(), |i: int| if i < lanes { scaled(elements[i]) } else { elements[i] })
}

/// The texels of an image of the given width after the fractal kernel ran
/// on the pixels with `x < columns` and `y < rows`.
pub open spec fn shaded_region(
    texels: Seq<Rgba>,
    width: nat,
    columns: int,
    rows: int,
    shading: Shading,
) -> Seq<Rgba> {
    Seq::new(
        texels.len(),
        |p: int|
            if width > 0 && p % (width as int) < columns && p / (width as int) < rows {
                grey(shading(p % (width as int), p / (width as int)))
            } else {
                texels[p]
            },
    )
}

/// The memory that `command` leaves behind. A command that the device
/// cannot carry out leaves memory as it was.
pub open spec fn effect(command: Command, memory: Memory, shading: Shading) -> Memory {
    if !accepts(command, memory) {
        memory
    } else {
        match command {
            Command::CopyBuffer { source, dest } => memory.with_buffer(
                dest,
                copied_over(memory.buffer(source), memory.buffer(dest)),
            ),
            Command::ClearImage { image, color } => memory.with_texels(
                image,
                Seq::new(memory.texels(image).len(), |p: int| color),
            ),
            Command::CopyImageToBuffer { image, buffer } => memory.with_buffer(
                buffer,
                copied_over(texel_bytes(memory.texels(image)), memory.buffer(buffer)),
            ),
            Command::Dispatch { groups, kernel, target } => match kernel {
                Kernel::Scale => memory.with_buffer(
                    target,
                    scaled_prefix(memory.buffer(target), groups.x * kernel.local_size_spec().x),
                ),
                Kernel::Fractal => memory.with_texels(
                    target,
                    shaded_region(
                        memory.texels(target),
                        memory.width(target),
                        groups.x * kernel.local_size_spec().x,
                        groups.y * kernel.local_size_spec().y,
                        shading,
                    ),
                ),
            },
        }
    }
}

/// The memory after the device carried out `commands` from first to last.
pub open spec fn outcome(commands: Seq<Command>, memory: Memory, shading: Shading) -> Memory
    decreases commands.len(),
{
    if commands.len() == 0 {
        memory
    } else {
        outcome(commands.drop_first(), effect(commands[0], memory, shading), shading)
    }
}

} // verus!
