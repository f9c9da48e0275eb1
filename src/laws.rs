use vstd::prelude::*;
use crate::era::Profile;
use crate::magink::{
    Error, CallError, badges_in, claim_result, claimed, mint_result, remaining_in, started,
};

verus! {

/// Right after an era of `era` blocks starts at block `t`, exactly `era`
/// blocks are left; from then on each block takes one off until none are
/// left, and none stay left: the count never goes below zero nor wraps.
pub proof fn start_counts_down(m: Map<Seq<u8>, Profile>, a: Seq<u8>, t: u32, era: u8, now: u32)
    requires
        t <= now < u32::MAX,
    ensures
        remaining_in(started(m, a, t, era), a, t) == era,
        0 <= remaining_in(started(m, a, t, era), a, now) <= era,
        remaining_in(started(m, a, t, era), a, (now + 1) as u32) == (if remaining_in(
            started(m, a, t, era),
            a,
            now,
        ) > 0 {
            remaining_in(started(m, a, t, era), a, now) - 1
        } else {
            0
        }),
{
}

/// During an era that began at block `t`, a claim is refused as too early
/// exactly at the blocks before `t + era`, and succeeds from then on.
pub proof fn claim_window(m: Map<Seq<u8>, Profile>, a: Seq<u8>, now: u32)
    requires
        m.contains_key(a),
        m[a].start_block <= now,
    ensures
        claim_result(m, a, now) == (if now < m[a].start_block + m[a].claim_era {
            Err::<(), Error>(Error::TooEarlyToClaim)
        } else {
            Ok::<(), Error>(())
        }),
{
}

/// A successful claim at block `t` opens a new window: the next claim is
/// refused exactly at the blocks before `t + era`.
pub proof fn claim_restarts_window(m: Map<Seq<u8>, Profile>, a: Seq<u8>, t: u32, now: u32)
    requires
        claim_result(m, a, t) is Ok,
        t <= now,
    ensures
        claim_result(claimed(m, a, t), a, now) == (if now < t + m[a].claim_era {
            Err::<(), Error>(Error::TooEarlyToClaim)
        } else {
            Ok::<(), Error>(())
        }),
{
}

/// Each successful claim adds exactly one badge to the claimer and changes
/// no other account's badges.
pub proof fn claim_adds_one_badge(m: Map<Seq<u8>, Profile>, a: Seq<u8>, t: u32, b: Seq<u8>)
    requires
        claim_result(m, a, t) is Ok,
        badges_in(m, a) < 255,
    ensures
        badges_in(claimed(m, a, t), a) == badges_in(m, a) + 1,
        b != a ==> badges_in(claimed(m, a, t), b) == badges_in(m, b),
{
}

/// An account that never started an era holds no badge and has no blocks
/// left, whatever the block.
pub proof fn unknown_account_reads_zero(m: Map<Seq<u8>, Profile>, a: Seq<u8>, now: u32)
    requires
        !m.contains_key(a),
    ensures
        badges_in(m, a) == 0,
        remaining_in(m, a, now) == 0,
        claim_result(m, a, now) == Err::<(), Error>(Error::UserNotFound),
{
}

/// Without a badge a mint is refused before the collection is asked, whatever
/// the collection would have answered.
pub proof fn mint_needs_badge(outcome: Result<(), CallError>)
    ensures
        mint_result(0, outcome) == Err::<(), Error>(Error::NotAllBadgesCollected),
{
}

} // verus!
