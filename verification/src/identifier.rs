//! A cursor over the range of request identifiers.

use vstd::prelude::*;

verus! {

/// A cursor over the 64-bit range of identifiers. It hands out the
/// identifier it stands at and moves on by one, from the last identifier
/// back to zero.
#[derive(Debug)]
pub struct Identifier {
    v: u64,
}

/// The identifier after `v`: the next number, and zero after the last.
pub open spec fn spec_successor(v: u64) -> u64 {
    if v == u64::MAX {
        0
    } else {
        (v + 1) as u64
    }
}

impl Identifier {
    /// The identifier that the cursor stands at.
    pub closed spec fn value(&self) -> u64 {
        self.v
    }

    /// A cursor that stands at `start`.
    pub fn new(start: u64) -> (cursor: Identifier)
        ensures
            cursor.value() == start,
    {
        Identifier { v: start }
    }

    /// The identifier that the cursor stands at. The cursor moves on by one.
    pub fn next(&mut self) -> (id: u64)
        ensures
            id == old(self).value(),
            final(self).value() == spec_successor(old(self).value()),
    {
        let v = self.v;
        self.v = if v == u64::MAX {
            0
        } else {
            v + 1
        };
        v
    }
}

impl Default for Identifier {
    /// A cursor that stands at zero.
    fn default() -> (cursor: Identifier)
        ensures
            cursor.value() == 0,
    {
        Identifier { v: 0 }
    }
}

} // verus!
