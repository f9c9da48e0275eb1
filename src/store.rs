use vstd::prelude::*;
use crate::account::AccountId;
use crate::era::Profile;

verus! {

/// The profiles held by a list of entries, later entries overriding earlier ones.
pub open spec fn map_of(s: Seq<(AccountId, Profile)>) -> Map<Seq<u8>, Profile>
    decreases s.len(),
{
    if s.len() == 0 {
        Map::empty()
    } else {
        map_of(s.drop_last()).insert(s.last().0@, s.last().1)
    }
}

/// No account appears in two entries.
pub open spec fn keys_distinct(s: Seq<(AccountId, Profile)>) -> bool {
    forall|i: int, j: int| 0 <= i < j < s.len() ==> s[i].0@ != s[j].0@
}

proof fn lemma_map_of_absent(s: Seq<(AccountId, Profile)>, k: Seq<u8>)
    requires
        forall|i: int| 0 <= i < s.len() ==> s[i].0@ != k,
    ensures
        !map_of(s).contains_key(k),
    decreases s.len(),
{
    if s.len() > 0 {
        let t = s.drop_last();
        assert forall|i: int| 0 <= i < t.len() implies t[i].0@ != k by {
            assert(t[i] == s[i]);
        }
        lemma_map_of_absent(t, k);
        assert(s.last() == s[s.len() - 1]);
    }
}

proof fn lemma_map_of_index(s: Seq<(AccountId, Profile)>, i: int)
    requires
        keys_distinct(s),
        0 <= i < s.len(),
    ensures
        map_of(s).contains_key(s[i].0@),
        map_of(s)[s[i].0@] == s[i].1,
    decreases s.len(),
{
    let t = s.drop_last();
    if i < s.len() - 1 {
        assert(t[i] == s[i]);
        assert(s.last() == s[s.len() - 1]);
        lemma_map_of_index(t, i);
    }
}

proof fn lemma_map_of_update(s: Seq<(AccountId, Profile)>, i: int, p: Profile)
    requires
        keys_distinct(s),
        0 <= i < s.len(),
    ensures
        keys_distinct(s.update(i, (s[i].0, p))),
        map_of(s.update(i, (s[i].0, p))) =~= map_of(s).insert(s[i].0@, p),
    decreases s.len(),
{
    let u = s.update(i, (s[i].0, p));
    let t = s.drop_last();
    assert(u.drop_last() =~= if i == s.len() - 1 { t } else { t.update(i, (t[i].0, p)) });
    if i < s.len() - 1 {
        lemma_map_of_update(t, i, p);
        assert(s.last() == s[s.len() - 1]);
        assert(u.last() == s.last());
    }
}

/// Profiles keyed by account, with point lookups and point writes.
pub struct EraStore {
    entries: Vec<(AccountId, Profile)>,
}

impl View for EraStore {
    type V = Map<Seq<u8>, Profile>;

    closed spec fn view(&self) -> Map<Seq<u8>, Profile> {
        map_of(self.entries@)
    }
}

impl EraStore {
    /// The store's invariant: each account has at most one entry.
    pub closed spec fn wf(&self) -> bool {
        keys_distinct(self.entries@)
    }

    /// An empty store.
    pub fn new() -> (r: EraStore)
        ensures
            r.wf(),
            r@ == Map::<Seq<u8>, Profile>::empty(),
    {
        let r = EraStore { entries: Vec::new() };
        assert(r.entries@.len() == 0);
        r
    }

    fn find(&self, account: &AccountId) -> (r: Option<usize>)
        requires
            self.wf(),
        ensures
            match r {
                Some(i) => i < self.entries@.len() && self.entries@[i as int].0@ == account@,
                None => forall|i: int|
                    0 <= i < self.entries@.len() ==> self.entries@[i].0@ != account@,
            },
    {
        let mut i: usize = 0;
        while i < self.entries.len()
            invariant
                0 <= i <= self.entries@.len(),
                forall|j: int| 0 <= j < i ==> self.entries@[j].0@ != account@,
            decreases self.entries@.len() - i,
        {
            if self.entries[i].0.same_as(account) {
                return Some(i);
            }
            i = i + 1;
        }
        None
    }

    /// The profile stored for `account`, if any.
    pub fn get(&self, account: &AccountId) -> (r: Option<Profile>)
        requires
            self.wf(),
        ensures
            r == (if self@.contains_key(account@) {
                Some(self@[account@])
            } else {
                None::<Profile>
            }),
    {
        match self.find(account) {
            Some(i) => {
                proof {
                    lemma_map_of_index(self.entries@, i as int);
                }
                Some(self.entries[i].1)
            },
            None => {
                proof {
                    lemma_map_of_absent(self.entries@, account@);
                }
                None
            },
        }
    }

    /// Stores `profile` for `account`, replacing any earlier one.
    pub fn insert(&mut self, account: &AccountId, profile: Profile)
        requires
            old(self).wf(),
        ensures
            final(self).wf(),
            final(self)@ == old(self)@.insert(account@, profile),
    {
        match self.find(account) {
            Some(i) => {
                proof {
                    lemma_map_of_update(self.entries@, i as int, profile);
                }
                let key = self.entries[i].0;
                self.entries.set(i, (key, profile));
            },
            None => {
                let ghost s = self.entries@;
                self.entries.push((*account, profile));
                assert(self.entries@.drop_last() =~= s);
                assert(self.entries@.last() == (*account, profile));
            },
        }
    }
}

} // verus!
