//! Choosing where to run: the first accelerator that has a queue family
//! with the capability that the work needs, and the first such family on
//! it.

use vstd::prelude::*;

verus! {

/// What a queue family must be able to do.
#[derive(Clone, Copy, Debug, PartialEq, Eq, Structural)]
pub enum Capability {
    Graphics,
    Compute,
}

/// What the choice needs to know of one queue family.
#[derive(Clone, Copy, Debug, PartialEq, Eq, Structural)]
pub struct QueueFamily {
    /// Whether its queues take graphics work.
    pub graphics: bool,
    /// Whether its queues take compute work.
    pub compute: bool,
}

/// What the choice needs to know of one accelerator: its queue families,
/// in the order in which it lists them.
#[derive(Clone, Debug)]
pub struct Accelerator {
    pub families: Vec<QueueFamily>,
}

/// An accelerator and one of its queue families, each by its position.
#[derive(Clone, Copy, Debug, PartialEq, Eq, Structural)]
pub struct Choice {
    pub device: usize,
    pub family: usize,
}

impl QueueFamily {
    /// Whether the queues of the family take work of kind `need`.
    pub open spec fn serves(self, need: Capability) -> bool {
        match need {
            Capability::Graphics => self.graphics,
            Capability::Compute => self.compute,
        }
    }

    /// Whether the queues of the family take work of kind `need`.
    pub fn can_serve(&self, need: Capability) -> (able: bool)
        ensures
            able == self.serves(need),
    {
        match need {
            Capability::Graphics => self.graphics,
            Capability::Compute => self.compute,
        }
    }
}

/// Whether `position` is the first family among `families` that serves
/// `need`.
pub open spec fn is_first_family(
    families: Seq<QueueFamily>,
    need: Capability,
    position: int,
) -> bool {
    &&& 0 <= position < families.len()
    &&& families[position].serves(need)
    &&& forall|j: int| 0 <= j < position ==> !(#[trigger] families[j]).serves(need)
}

/// Whether none of `families` serves `need`.
pub open spec fn no_family(families: Seq<QueueFamily>, need: Capability) -> bool {
    forall|j: int| 0 <= j < families.len() ==> !(#[trigger] families[j]).serves(need)
}

/// The first queue family that serves `need`, if there is one.
pub fn first_family(families: &[QueueFamily], need: Capability) -> (found: Option<usize>)
    ensures
        match found {
            Some(position) => is_first_family(families@, need, position as int),
            None => no_family(families@, need),
        },
{
    let mut j: usize = 0;
    while j < families.len()
        invariant
            j <= families.len(),
            forall|k: int| 0 <= k < j ==> !(#[trigger] families@[k]).serves(need),
        decreases families.len() - j,
    {
        if families[j].can_serve(need) {
            return Some(j);
        }
        j += 1;
    }
    None
}

/// The first accelerator with a queue family that serves `need`, together
/// with the first such family on it; `None` exactly if no accelerator has
/// one.
pub fn choose_device(devices: &[Accelerator], need: Capability) -> (chosen: Option<Choice>)
    ensures
        match chosen {
            Some(choice) => {
                &&& choice.device < devices.len()
                &&& is_first_family(
                    devices@[choice.device as int].families@,
                    need,
                    choice.family as int,
                )
                &&& forall|d: int|
                    0 <= d < choice.device ==> no_family((#[trigger] devices@[d]).families@, need)
            },
            None => forall|d: int|
                0 <= d < devices.len() ==> no_family((#[trigger] devices@[d]).families@, need),
        },
{
    let mut d: usize = 0;
    while d < devices.len()
        invariant
            d <= devices.len(),
            forall|k: int| 0 <= k < d ==> no_family((#[trigger] devices@[k]).families@, need),
        decreases devices.len() - d,
    {
        match first_family(devices[d].families.as_slice(), need) {
            Some(family) => {
                return Some(Choice { device: d, family });
            },
            None => {},
        }
        d += 1;
    }
    None
}

} // verus!
