//! The compute dispatch: a buffer of ascending numbers is multiplied in
//! place by the scaling kernel, one lane per element, and read back.

use vstd::prelude::*;
use crate::commands::{Command, Extent, Kernel, SCALE_FACTOR};
use crate::model::{outcome, scaled_ramp, word_elements, Memory, Shading};

verus! {

/// Number of elements in the data buffer.
pub const ELEMENTS: u32 = 65536;

/// Slot of the data buffer.
pub const DATA: u32 = 0;

/// What the data buffer holds at the start: the numbers from 0 up.
pub open spec fn input_spec() -> Seq<u32> {
    Seq::new(ELEMENTS as nat, |i: int| i as u32)
}

/// The command sequence of the demonstration: one dispatch of the scaling
/// kernel, with one lane for each element.
pub open spec fn plan_spec() -> Seq<Command> {
    seq![
        Command::Dispatch {
            groups: Extent { x: 1024, y: 1, z: 1 },
            kernel: Kernel::Scale,
            target: DATA,
        },
    ]
}

/// The initial content of the data buffer.
pub fn input_data() -> (content: Vec<u32>)
    ensures
        content@ == input_spec(),
{
    let mut content: Vec<u32> = Vec::new();
    let mut next: u32 = 0;
    while next < ELEMENTS
        invariant
            next <= ELEMENTS,
            next == content.len(),
            forall|i: int| 0 <= i < content.len() ==> content@[i] == i as u32,
        decreases ELEMENTS - next,
    {
        content.push(next);
        next = next + 1;
    }
    content
}

/// The command sequence to record.
pub fn plan() -> (commands: Vec<Command>)
    ensures
        commands@ == plan_spec(),
{
    let span = Extent { x: ELEMENTS, y: 1, z: 1 };
    let groups = span.groups_of(Kernel::Scale.local_size());
    let mut commands: Vec<Command> = Vec::new();
    commands.push(Command::Dispatch { groups, kernel: Kernel::Scale, target: DATA });
    commands
}

/// Whether every element read back is its index times twelve.
pub fn products_match(content: &[u32]) -> (exact: bool)
    ensures
        exact == scaled_ramp(word_elements(content@)),
{
    let mut i: usize = 0;
    while i < content.len()
        invariant
            i <= content.len(),
            forall|k: int| 0 <= k < i ==> #[trigger] word_elements(content@)[k] == k * SCALE_FACTOR,
        decreases content.len() - i,
    {
        let expected: u64 = if i <= (u32::MAX / SCALE_FACTOR) as usize {
            (i as u64) * (SCALE_FACTOR as u64)
        } else {
            u64::MAX
        };
        if content[i] as u64 != expected {
            assert(word_elements(content@)[i as int] == content@[i as int]);
            return false;
        }
        i += 1;
    }
    true
}

/// Once the planned sequence has run on a buffer that holds the numbers
/// from 0 up, one for each lane, every element is its index times twelve.
pub proof fn dispatch_scales_every_element(memory: Memory, shading: Shading)
    requires
        memory.is_buffer(DATA),
        memory.buffer(DATA) == word_elements(input_spec()),
    ensures
        scaled_ramp(outcome(plan_spec(), memory, shading).buffer(DATA)),
        outcome(plan_spec(), memory, shading).buffer(DATA).len() == ELEMENTS,
{
    reveal_with_fuel(outcome, 2);
}

} // verus!
