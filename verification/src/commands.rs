//! The vocabulary of a command sequence: resources are named by slot
//! numbers, and each command says which slots it reads and writes.

use vstd::prelude::*;

verus! {

/// A colour with four 8-bit channels, in the order in which a readback
/// buffer holds them.
#[derive(Clone, Copy, Debug, PartialEq, Eq, Structural)]
pub struct Rgba {
    pub red: u8,
    pub green: u8,
    pub blue: u8,
    pub alpha: u8,
}

/// A size in three dimensions: workgroups per axis, or lanes per workgroup.
#[derive(Clone, Copy, Debug, PartialEq, Eq, Structural)]
pub struct Extent {
    pub x: u32,
    pub y: u32,
    pub z: u32,
}

/// The compute kernels that the demonstrations load.
#[derive(Clone, Copy, Debug, PartialEq, Eq, Structural)]
pub enum Kernel {
    /// Multiplies the element at its global index by twelve.
    Scale,
    /// Shades the pixel at its global coordinate by how fast the quadratic
    /// recurrence escapes there.
    Fractal,
}

/// One operation of a command sequence.
#[derive(Clone, Copy, Debug, PartialEq, Eq, Structural)]
pub enum Command {
    /// Copies the buffer in slot `source` over the buffer in slot `dest`.
    CopyBuffer { source: u32, dest: u32 },
    /// Sets every pixel of the image in slot `image` to `color`.
    ClearImage { image: u32, color: Rgba },
    /// Writes the image in slot `image` into the buffer in slot `buffer`,
    /// four bytes per pixel.
    CopyImageToBuffer { image: u32, buffer: u32 },
    /// Runs `kernel` over `groups` workgroups on the resource in slot `target`.
    Dispatch { groups: Extent, kernel: Kernel, target: u32 },
}

/// The factor by which [`Kernel::Scale`] multiplies.
pub const SCALE_FACTOR: u32 = 12;

impl Extent {
    /// The number of whole workgroups of size `local` that fit into this
    /// extent, axis by axis.
    pub open spec fn groups_of_spec(self, local: Extent) -> Extent {
        Extent {
            x: (self.x as int / local.x as int) as u32,
            y: (self.y as int / local.y as int) as u32,
            z: (self.z as int / local.z as int) as u32,
        }
    }

    /// Whether `local` divides this extent on every axis.
    pub open spec fn tiled_by(self, local: Extent) -> bool {
        &&& local.x > 0 && self.x as int % local.x as int == 0
        &&& local.y > 0 && self.y as int % local.y as int == 0
        &&& local.z > 0 && self.z as int % local.z as int == 0
    }

    /// The number of workgroups of size `local` to dispatch over this
    /// extent: the quotient on each axis, rounded down.
    pub fn groups_of(self, local: Extent) -> (groups: Extent)
        requires
            local.x > 0,
            local.y > 0,
            local.z > 0,
        ensures
            groups == self.groups_of_spec(local),
    {
        Extent { x: self.x / local.x, y: self.y / local.y, z: self.z / local.z }
    }

    /// Where the workgroup size divides the extent, the workgroups cover it
    /// exactly: on each axis the number of groups times the group size is
    /// the extent.
    pub proof fn groups_cover(self, local: Extent)
        requires
            self.tiled_by(local),
        ensures
            self.groups_of_spec(local).x * local.x == self.x,
            self.groups_of_spec(local).y * local.y == self.y,
            self.groups_of_spec(local).z * local.z == self.z,
    {
        Self::quotient_times_divisor(self.x, local.x);
        Self::quotient_times_divisor(self.y, local.y);
        Self::quotient_times_divisor(self.z, local.z);
    }

    proof fn quotient_times_divisor(n: u32, d: u32)
        requires
            d > 0,
            n as int % d as int == 0,
        ensures
            0 <= n as int / d as int <= n,
            ((n as int / d as int) as u32) * d == n,
    {
        assert(0 <= n as int / d as int <= n && (n as int / d as int) * d == n)
            by (nonlinear_arith)
            requires
                d > 0,
                n >= 0,
                n as int % d as int == 0,
        ;
    }
}

impl Kernel {
    /// Lanes per workgroup, as the kernel declares them.
    pub open spec fn local_size_spec(self) -> Extent {
        match self {
            Kernel::Scale => Extent { x: 64, y: 1, z: 1 },
            Kernel::Fractal => Extent { x: 8, y: 8, z: 1 },
        }
    }

    /// Lanes per workgroup, as the kernel declares them.
    pub fn local_size(self) -> (local: Extent)
        ensures
            local == self.local_size_spec(),
    {
        match self {
            Kernel::Scale => Extent { x: 64, y: 1, z: 1 },
            Kernel::Fractal => Extent { x: 8, y: 8, z: 1 },
        }
    }
}

} // verus!
