//! The linear copy: a buffer of ascending numbers is copied over a buffer
//! of zeros on the device, and both are read back and compared.

use vstd::prelude::*;
use crate::commands::Command;
use crate::model::{outcome, Memory, Shading};

verus! {

/// Number of elements in each of the two buffers.
pub const ELEMENTS: usize = 64;

/// Slot of the buffer that is copied from.
pub const SOURCE: u32 = 0;

/// Slot of the buffer that is copied to.
pub const DEST: u32 = 1;

/// What the source buffer holds at the start: the numbers from 0 up.
pub open spec fn source_spec() -> Seq<i32> {
    Seq::new(ELEMENTS as nat, |i: int| i as i32)
}

/// What the destination buffer holds at the start: zeros.
pub open spec fn dest_spec() -> Seq<i32> {
    Seq::new(ELEMENTS as nat, |i: int| 0i32)
}

/// The command sequence of the demonstration: one copy from source to
/// destination.
pub open spec fn plan_spec() -> Seq<Command> {
    seq![Command::CopyBuffer { source: SOURCE, dest: DEST }]
}

/// The initial content of the source buffer.
pub fn source_content() -> (content: Vec<i32>)
    ensures
        content@ == source_spec(),
{
    let mut content: Vec<i32> = Vec::new();
    let mut next: i32 = 0;
    while content.len() < ELEMENTS
        invariant
            content.len() <= ELEMENTS,
            next == content.len(),
            forall|i: int| 0 <= i < content.len() ==> content@[i] == i as i32,
        decreases ELEMENTS - content.len(),
    {
        content.push(next);
        next = next + 1;
    }
    content
}

/// The initial content of the destination buffer.
pub fn dest_content() -> (content: Vec<i32>)
    ensures
        content@ == dest_spec(),
{
    let mut content: Vec<i32> = Vec::new();
    while content.len() < ELEMENTS
        invariant
            content.len() <= ELEMENTS,
            forall|i: int| 0 <= i < content.len() ==> content@[i] == 0i32,
        decreases ELEMENTS - content.len(),
    {
        content.push(0);
    }
    content
}

/// The command sequence to record.
pub fn plan() -> (commands: Vec<Command>)
    ensures
        commands@ == plan_spec(),
{
    let mut commands: Vec<Command> = Vec::new();
    commands.push(Command::CopyBuffer { source: SOURCE, dest: DEST });
    commands
}

/// Whether the destination read back holds what the source holds, element
/// for element.
pub fn buffers_match(source: &[i32], dest: &[i32]) -> (same: bool)
    ensures
        same == (source@ == dest@),
{
    if source.len() != dest.len() {
        return false;
    }
    let mut i: usize = 0;
    while i < source.len()
        invariant
            i <= source.len(),
            source.len() == dest.len(),
            forall|k: int| 0 <= k < i ==> source@[k] == dest@[k],
        decreases source.len() - i,
    {
        if source[i] != dest[i] {
            return false;
        }
        i += 1;
    }
    assert(source@ =~= dest@);
    true
}

/// Once the planned sequence has run on two buffers of one length, the
/// destination holds at every index what the source holds, and the source
/// is as it was.
pub proof fn copy_fills_destination(memory: Memory, shading: Shading)
    requires
        memory.is_buffer(SOURCE),
        memory.is_buffer(DEST),
        memory.buffer(SOURCE).len() == memory.buffer(DEST).len(),
    ensures
        outcome(plan_spec(), memory, shading).buffer(DEST) == memory.buffer(SOURCE),
        outcome(plan_spec(), memory, shading).buffer(SOURCE) == memory.buffer(SOURCE),
        forall|i: int|
            0 <= i < memory.buffer(SOURCE).len() ==> outcome(plan_spec(), memory, shading).buffer(
                DEST,
            )[i] == memory.buffer(SOURCE)[i],
{
    reveal_with_fuel(outcome, 2);
}

} // verus!
