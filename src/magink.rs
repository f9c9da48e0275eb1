use vstd::prelude::*;
use crate::account::AccountId;
use crate::era::{Profile, remaining_at};
use crate::store::EraStore;
use crate::wizard::{Id, LedgerError};

verus! {

/// Why an operation of the coordinator failed.
#[derive(Clone, Copy, Debug, PartialEq, Eq, Structural)]
pub enum Error {
    /// The caller's era has not run out yet.
    TooEarlyToClaim,
    /// The caller never started an era.
    UserNotFound,
    /// The token collection was reached and refused the mint.
    MintFailed(LedgerError),
    /// The caller holds no badge to spend.
    NotAllBadgesCollected,
    /// The call to the token collection did not complete.
    CallFailed,
}

/// How a call to the token collection ended, when it did not succeed.
#[derive(Clone, Copy, Debug, PartialEq, Eq, Structural)]
pub enum CallError {
    /// The collection was reached and answered with this refusal.
    Rejected(LedgerError),
    /// The call itself did not complete.
    NotCompleted,
}

/// A mint that the coordinator asks the token collection to perform.
#[derive(Clone, Debug)]
pub struct MintCall {
    /// The token collection to call.
    pub ledger: AccountId,
    /// The account that receives the token.
    pub account: AccountId,
    /// The identifier of the new token.
    pub id: Id,
}

/// Blocks left in `a`'s era at block `now`; zero for an account without a profile.
pub open spec fn remaining_in(m: Map<Seq<u8>, Profile>, a: Seq<u8>, now: u32) -> int {
    if m.contains_key(a) {
        remaining_at(m[a], now)
    } else {
        0
    }
}

/// Badges `a` holds; zero for an account without a profile.
pub open spec fn badges_in(m: Map<Seq<u8>, Profile>, a: Seq<u8>) -> int {
    if m.contains_key(a) {
        m[a].badges_claimed as int
    } else {
        0
    }
}

/// The block counter has not gone back before the start of `a`'s era.
pub open spec fn clock_reached(m: Map<Seq<u8>, Profile>, a: Seq<u8>, now: u32) -> bool {
    m.contains_key(a) ==> m[a].start_block <= now
}

/// The profiles after `a` starts an era of `era` blocks at block `now`.
pub open spec fn started(m: Map<Seq<u8>, Profile>, a: Seq<u8>, now: u32, era: u8) -> Map<Seq<u8>, Profile> {
    m.insert(a, Profile { claim_era: era, start_block: now, badges_claimed: 0 })
}

/// The profiles after `a` claims a badge at block `now`: one more badge, a new era from `now`.
pub open spec fn claimed(m: Map<Seq<u8>, Profile>, a: Seq<u8>, now: u32) -> Map<Seq<u8>, Profile> {
    m.insert(
        a,
        Profile {
            claim_era: m[a].claim_era,
            start_block: now,
            badges_claimed: (m[a].badges_claimed + 1) as u8,
        },
    )
}

/// The profiles after `a` spends one badge.
pub open spec fn spent(m: Map<Seq<u8>, Profile>, a: Seq<u8>) -> Map<Seq<u8>, Profile> {
    m.insert(a, Profile { badges_claimed: (m[a].badges_claimed - 1) as u8, ..m[a] })
}

/// The answer of a claim by `a` at block `now`.
pub open spec fn claim_result(m: Map<Seq<u8>, Profile>, a: Seq<u8>, now: u32) -> Result<(), Error> {
    if !m.contains_key(a) {
        Err(Error::UserNotFound)
    } else if remaining_in(m, a, now) > 0 {
        Err(Error::TooEarlyToClaim)
    } else {
        Ok(())
    }
}

/// The answer of a mint for a caller holding `badges` badges, once the collection answered `outcome`.
pub open spec fn mint_result(badges: int, outcome: Result<(), CallError>) -> Result<(), Error> {
    if badges == 0 {
        Err(Error::NotAllBadgesCollected)
    } else {
        match outcome {
            Ok(()) => Ok(()),
            Err(CallError::Rejected(e)) => Err(Error::MintFailed(e)),
            Err(CallError::NotCompleted) => Err(Error::CallFailed),
        }
    }
}

/// The coordinator: each participant's era profile, the token collection it
/// mints through, and the identifier the next minted token gets.
pub struct Magink {
    user: EraStore,
    wizard_contract_account_id: AccountId,
    last_token_id: u64,
}

impl Magink {
    /// The profile of each account that started an era.
    pub closed spec fn profiles(&self) -> Map<Seq<u8>, Profile> {
        self.user@
    }

    /// The token collection this coordinator mints through.
    pub closed spec fn wizard(&self) -> AccountId {
        self.wizard_contract_account_id
    }

    /// The identifier the next minted token gets.
    pub closed spec fn next_token_id(&self) -> u64 {
        self.last_token_id
    }

    /// The coordinator's invariant.
    pub closed spec fn wf(&self) -> bool {
        self.user.wf()
    }

    /// A coordinator with no profiles that mints through `account_id`, numbering tokens from 1.
    pub fn new(account_id: AccountId) -> (r: Magink)
        ensures
            r.wf(),
            r.profiles() == Map::<Seq<u8>, Profile>::empty(),
            r.wizard() == account_id,
            r.next_token_id() == 1,
    {
        Magink { user: EraStore::new(), wizard_contract_account_id: account_id, last_token_id: 1 }
    }

    /// The token collection this coordinator mints through.
    pub fn wizard_contract_account_id(&self) -> (r: AccountId)
        ensures
            r == self.wizard(),
    {
        self.wizard_contract_account_id
    }

    /// (Re)starts `caller`'s era of `era` blocks at block `now`; unspent badges are forfeited.
    pub fn start(&mut self, caller: AccountId, now: u32, era: u8)
        requires
            old(self).wf(),
        ensures
            final(self).wf(),
            final(self).profiles() == started(old(self).profiles(), caller@, now, era),
            final(self).wizard() == old(self).wizard(),
            final(self).next_token_id() == old(self).next_token_id(),
    {
        let profile = Profile { claim_era: era, start_block: now, badges_claimed: 0 };
        self.user.insert(&caller, profile);
    }

    /// Claims a badge for `caller` at block `now`, once its era has run out;
    /// the next era starts at `now`.
    pub fn claim(&mut self, caller: AccountId, now: u32) -> (r: Result<(), Error>)
        requires
            old(self).wf(),
            clock_reached(old(self).profiles(), caller@, now),
            claim_result(old(self).profiles(), caller@, now) is Ok ==> badges_in(
                old(self).profiles(),
                caller@,
            ) < 255,
        ensures
            final(self).wf(),
            r == claim_result(old(self).profiles(), caller@, now),
            r is Ok ==> final(self).profiles() == claimed(old(self).profiles(), caller@, now),
            r is Err ==> final(self).profiles() == old(self).profiles(),
            final(self).wizard() == old(self).wizard(),
            final(self).next_token_id() == old(self).next_token_id(),
    {
        match self.user.get(&caller) {
            None => Err(Error::UserNotFound),
            Some(profile) => {
                if profile.remaining(now) != 0 {
                    return Err(Error::TooEarlyToClaim);
                }
                let updated = Profile {
                    claim_era: profile.claim_era,
                    start_block: now,
                    badges_claimed: profile.badges_claimed + 1,
                };
                self.user.insert(&caller, updated);
                Ok(())
            },
        }
    }

    /// Blocks left at block `now` in the era of the calling account.
    pub fn get_remaining(&self, caller: AccountId, now: u32) -> (r: u8)
        requires
            self.wf(),
            clock_reached(self.profiles(), caller@, now),
        ensures
            r == remaining_in(self.profiles(), caller@, now),
    {
        self.get_remaining_for(caller, now)
    }

    /// Blocks left at block `now` in the era of `account`; 0 if it never started one.
    pub fn get_remaining_for(&self, account: AccountId, now: u32) -> (r: u8)
        requires
            self.wf(),
            clock_reached(self.profiles(), account@, now),
        ensures
            r == remaining_in(self.profiles(), account@, now),
    {
        match self.user.get(&account) {
            None => 0,
            Some(profile) => profile.remaining(now),
        }
    }

    /// The profile of `account`, if it started an era.
    pub fn get_account_profile(&self, account: AccountId) -> (r: Option<Profile>)
        requires
            self.wf(),
        ensures
            r == (if self.profiles().contains_key(account@) {
                Some(self.profiles()[account@])
            } else {
                None::<Profile>
            }),
    {
        self.user.get(&account)
    }

    /// The profile of the calling account, if it started an era.
    pub fn get_profile(&self, caller: AccountId) -> (r: Option<Profile>)
        requires
            self.wf(),
        ensures
            r == (if self.profiles().contains_key(caller@) {
                Some(self.profiles()[caller@])
            } else {
                None::<Profile>
            }),
    {
        self.get_account_profile(caller)
    }

    /// The badges the calling account holds.
    pub fn get_badges(&self, caller: AccountId) -> (r: u8)
        requires
            self.wf(),
        ensures
            r == badges_in(self.profiles(), caller@),
    {
        self.get_badges_for(caller)
    }

    /// The badges `account` holds; 0 if it never started an era.
    pub fn get_badges_for(&self, account: AccountId) -> (r: u8)
        requires
            self.wf(),
        ensures
            r == badges_in(self.profiles(), account@),
    {
        match self.get_account_profile(account) {
            None => 0,
            Some(profile) => profile.badges_claimed,
        }
    }

    /// The mint to ask of the token collection for `caller`, who must hold a badge.
    /// Nothing changes here: the badge is spent by `mint_wizard` once the collection answered.
    pub fn mint_request(&self, caller: AccountId) -> (r: Result<MintCall, Error>)
        requires
            self.wf(),
        ensures
            badges_in(self.profiles(), caller@) == 0 ==> r == Err::<MintCall, Error>(
                Error::NotAllBadgesCollected,
            ),
            badges_in(self.profiles(), caller@) > 0 ==> r is Ok && r->Ok_0 == (MintCall {
                ledger: self.wizard(),
                account: caller,
                id: Id::U64(self.next_token_id()),
            }),
    {
        if self.get_badges_for(caller) == 0 {
            return Err(Error::NotAllBadgesCollected);
        }
        Ok(MintCall {
            ledger: self.wizard_contract_account_id,
            account: caller,
            id: Id::U64(self.last_token_id),
        })
    }

    /// Settles `caller`'s mint once the token collection answered `outcome`.
    /// Only a completed mint spends a badge and moves on to the next identifier;
    /// any failure leaves everything as it was.
    pub fn mint_wizard(&mut self, caller: AccountId, outcome: Result<(), CallError>) -> (r: Result<(), Error>)
        requires
            old(self).wf(),
            badges_in(old(self).profiles(), caller@) > 0 && outcome is Ok
                ==> old(self).next_token_id() < u64::MAX,
        ensures
            final(self).wf(),
            r == mint_result(badges_in(old(self).profiles(), caller@), outcome),
            r is Ok ==> final(self).profiles() == spent(old(self).profiles(), caller@)
                && final(self).next_token_id() == old(self).next_token_id() + 1,
            r is Err ==> final(self).profiles() == old(self).profiles()
                && final(self).next_token_id() == old(self).next_token_id(),
            final(self).wizard() == old(self).wizard(),
    {
        let profile = match self.user.get(&caller) {
            None => {
                return Err(Error::NotAllBadgesCollected);
            },
            Some(p) => p,
        };
        if profile.badges_claimed == 0 {
            return Err(Error::NotAllBadgesCollected);
        }
        match outcome {
            Err(CallError::Rejected(e)) => Err(Error::MintFailed(e)),
            Err(CallError::NotCompleted) => Err(Error::CallFailed),
            Ok(()) => {
                let updated = Profile { badges_claimed: profile.badges_claimed - 1, ..profile };
                self.user.insert(&caller, updated);
                self.last_token_id = self.last_token_id + 1;
                Ok(())
            },
        }
    }
}

} // verus!
