//! The choice of the queue family that draws.
use vstd::prelude::*;

verus! {

/// Index of the first queue family that supports graphics, given for each
/// family of the device, in order, whether it does; `None` if none does.
pub fn graphics_queue_family(supports_graphics: &[bool]) -> (res: Option<usize>)
    ensures
        match res {
            Some(i) => i < supports_graphics@.len() && supports_graphics@[i as int]
                && forall|j: int| 0 <= j < i ==> !supports_graphics@[j],
            None => forall|j: int| 0 <= j < supports_graphics@.len() ==> !supports_graphics@[j],
        },
{
    let mut i: usize = 0;
    while i < supports_graphics.len()
        invariant
            i <= supports_graphics@.len(),
            forall|j: int| 0 <= j < i ==> !supports_graphics@[j],
        decreases supports_graphics@.len() - i,
    {
        if supports_graphics[i] {
            return Some(i);
        }
        i = i + 1;
    }
    None
}

} // verus!
