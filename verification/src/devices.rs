//! Walking the adapters of the system and the displays of an adapter by
//! index.

use vstd::prelude::*;

verus! {

/// The position of an enumeration that asks for one index after the other
/// until nothing is found, and then starts over.
#[derive(Clone, Copy, Debug, PartialEq, Eq, Structural)]
pub struct EnumCursor {
    /// The index that is asked for next.
    pub idx: u32,
}

impl EnumCursor {
    /// The position after the index asked for was found or not.
    pub open spec fn advanced(self, found: bool) -> EnumCursor {
        if found {
            EnumCursor { idx: (self.idx + 1) as u32 }
        } else {
            EnumCursor { idx: 0 }
        }
    }

    /// An enumeration at its start.
    pub fn new() -> (c: Self)
        ensures
            c.idx == 0,
    {
        EnumCursor { idx: 0 }
    }

    /// Starts the enumeration over.
    pub fn reset(&mut self)
        ensures
            final(self).idx == 0,
    {
        self.idx = 0;
    }

    /// Moves on after the index asked for was looked up: to the next index
    /// if something was found, back to the start if not. Returns whether the
    /// enumeration goes on.
    pub fn next(&mut self, found: bool) -> (more: bool)
        requires
            found ==> old(self).idx < u32::MAX,
        ensures
            more == found,
            *final(self) == old(self).advanced(found),
    {
        if found {
            self.idx += 1;
        } else {
            self.idx = 0;
        }
        found
    }
}

impl Default for EnumCursor {
    fn default() -> (c: Self)
        ensures
            c.idx == 0,
    {
        EnumCursor { idx: 0 }
    }
}

} // verus!
