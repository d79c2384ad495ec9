//! Ids for the requests of one session.

use vstd::prelude::*;

verus! {

/// The greatest id: 2 to the power of 53.
pub const MAX_ID: i64 = 0x20_0000_0000_0000;

/// Hands out the ids 1, 2, ... up to [`MAX_ID`], and then starts again at 1.
#[derive(Debug)]
pub struct SessionScopeIDGenerator {
    id: i64,
}

/// The id that follows `last`.
pub open spec fn next_after(last: i64) -> int {
    if last == MAX_ID {
        1
    } else {
        last + 1
    }
}

impl View for SessionScopeIDGenerator {
    type V = i64;

    /// The id handed out last; 0 before the first.
    closed spec fn view(&self) -> i64 {
        self.id
    }
}

impl SessionScopeIDGenerator {
    #[verifier::type_invariant]
    spec fn in_range(self) -> bool {
        0 <= self.id <= MAX_ID
    }

    pub fn new() -> (r: Self)
        ensures
            r@ == 0,
    {
        SessionScopeIDGenerator { id: 0 }
    }

    /// The next id. It is never zero and never more than [`MAX_ID`].
    pub fn next_id(&mut self) -> (r: i64)
        ensures
            r == next_after(old(self)@),
            final(self)@ == r,
            1 <= r <= MAX_ID,
    {
        proof {
            use_type_invariant(&*self);
        }
        let next = if self.id == MAX_ID {
            1
        } else {
            self.id + 1
        };
        self.id = next;
        next
    }
}

impl Default for SessionScopeIDGenerator {
    fn default() -> (r: Self)
        ensures
            r@ == 0,
    {
        Self::new()
    }
}

} // verus!
