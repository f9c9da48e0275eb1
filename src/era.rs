use vstd::prelude::*;

verus! {

/// One participant's era record.
#[derive(Clone, Copy, Debug, PartialEq, Eq, PartialOrd, Ord)]
pub struct Profile {
    /// Number of blocks that must pass before the next claim.
    pub claim_era: u8,
    /// Block at which the current era began.
    pub start_block: u32,
    /// Number of badges earned and not yet spent.
    pub badges_claimed: u8,
}

/// Blocks left in the era of `p` at block `now`; zero once the era has run out.
pub open spec fn remaining_at(p: Profile, now: u32) -> int {
    let elapsed = now - p.start_block;
    if elapsed >= p.claim_era {
        0
    } else {
        p.claim_era - elapsed
    }
}

impl Profile {
    /// Blocks left in this era at block `now`.
    pub fn remaining(&self, now: u32) -> (r: u8)
        requires
            self.start_block <= now,
        ensures
            r == remaining_at(*self, now),
    {
        let elapsed: u32 = now - self.start_block;
        if elapsed >= self.claim_era as u32 {
            0
        } else {
            self.claim_era - elapsed as u8
        }
    }
}

} // verus!
