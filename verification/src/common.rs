//! Messages passed between the game's actors.
use vstd::prelude::*;

verus! {

/// A ping carrying a sequence number.
#[derive(Clone, Copy, Debug, PartialEq, Eq)]
pub struct Ping {
    pub id: usize,
}

} // verus!
