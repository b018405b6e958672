use vstd::prelude::*;

use crate::types::{bytes_equal, AccountId};

verus! {

/// The key of a stored referral: a campaign id and a code.
pub type ReferralKey = (u32, Seq<u8>);

/// The key of entry `e`.
pub open spec fn key_of(e: (u32, Vec<u8>, AccountId)) -> ReferralKey {
    (e.0, e.1@)
}

/// Every key of `new_model`, which has the keys of `model` and `key`, has
/// an entry in `after`, when `after` keeps each entry of `before` whose key
/// is not `key` and holds `key` at `pos`.
proof fn lemma_insert_keeps_keys(
    before: Seq<(u32, Vec<u8>, AccountId)>,
    after: Seq<(u32, Vec<u8>, AccountId)>,
    model: Map<ReferralKey, AccountId>,
    new_model: Map<ReferralKey, AccountId>,
    key: ReferralKey,
    pos: int,
)
    requires
        new_model.dom() == model.dom().insert(key),
        forall|k: ReferralKey|
            #[trigger] model.contains_key(k) ==> exists|i: int|
                0 <= i < before.len() && key_of(#[trigger] before[i]) == k,
        before.len() <= after.len(),
        forall|i: int|
            0 <= i < before.len() && key_of(before[i]) != key ==> #[trigger] after[i] == before[i],
        0 <= pos < after.len(),
        key_of(after[pos]) == key,
    ensures
        forall|k: ReferralKey|
            #[trigger] new_model.contains_key(k) ==> exists|j: int|
                0 <= j < after.len() && key_of(#[trigger] after[j]) == k,
{
    assert forall|k: ReferralKey| #[trigger] new_model.contains_key(k) implies exists|j: int|
        0 <= j < after.len() && key_of(#[trigger] after[j]) == k by {
        if k == key {
            assert(key_of(after[pos]) == k);
        } else {
            assert(model.dom().insert(key).contains(k));
            assert(model.contains_key(k));
            let i = choose|i: int| 0 <= i < before.len() && key_of(#[trigger] before[i]) == k;
            assert(key_of(after[i]) == k);
        }
    }
}

/// A key-value store from (campaign id, referral code) to the account
/// that registered the code.
///
/// Entries are kept as a list of `(id, code, account)` triples whose keys
/// are pairwise distinct; the store's value is the map from key to account.
pub struct ReferralStore {
    entries: Vec<(u32, Vec<u8>, AccountId)>,
    model: Ghost<Map<ReferralKey, AccountId>>,
}

impl View for ReferralStore {
    type V = Map<ReferralKey, AccountId>;

    closed spec fn view(&self) -> Map<ReferralKey, AccountId> {
        self.model@
    }
}

impl ReferralStore {
    /// Keys are unique, and the entries hold exactly the map's pairs.
    pub closed spec fn wf(&self) -> bool {
        &&& forall|i: int, j: int|
            0 <= i < j < self.entries@.len() ==> key_of(#[trigger] self.entries@[i]) != key_of(
                #[trigger] self.entries@[j],
            )
        &&& forall|i: int|
            0 <= i < self.entries@.len() ==> self.model@.contains_key(key_of(#[trigger] self.entries@[i]))
                && self.model@[key_of(self.entries@[i])] == self.entries@[i].2
        &&& forall|k: ReferralKey|
            #[trigger] self.model@.contains_key(k) ==> exists|i: int|
                0 <= i < self.entries@.len() && key_of(#[trigger] self.entries@[i]) == k
    }

    /// An empty store.
    pub fn new() -> (r: ReferralStore)
        ensures
            r.wf(),
            r@ == Map::<ReferralKey, AccountId>::empty(),
    {
        ReferralStore { entries: Vec::new(), model: Ghost(Map::empty()) }
    }

    /// The position of the entry for `(id, code)`, if there is one.
    fn find(&self, id: u32, code: &Vec<u8>) -> (r: Option<usize>)
        requires
            self.wf(),
        ensures
            match r {
                Some(i) => i < self.entries@.len() && key_of(self.entries@[i as int]) == (id, code@),
                None => !self@.contains_key((id, code@)),
            },
    {
        let mut i: usize = 0;
        while i < self.entries.len()
            invariant
                i <= self.entries@.len(),
                forall|j: int| 0 <= j < i ==> key_of(#[trigger] self.entries@[j]) != (id, code@),
            decreases self.entries@.len() - i,
        {
            if self.entries[i].0 == id && bytes_equal(&self.entries[i].1, code) {
                return Some(i);
            }
            i = i + 1;
        }
        None
    }

    /// Whether a referral is stored under `(id, code)`.
    pub fn contains(&self, id: u32, code: &Vec<u8>) -> (r: bool)
        requires
            self.wf(),
        ensures
            r == self@.contains_key((id, code@)),
    {
        match self.find(id, code) {
            Some(_) => true,
            None => false,
        }
    }

    /// The account that registered `code` for campaign `id`, if any.
    pub fn get(&self, id: u32, code: &Vec<u8>) -> (r: Option<AccountId>)
        requires
            self.wf(),
        ensures
            match r {
                Some(a) => self@.contains_key((id, code@)) && a == self@[(id, code@)],
                None => !self@.contains_key((id, code@)),
            },
    {
        match self.find(id, code) {
            Some(i) => Some(self.entries[i].2),
            None => None,
        }
    }

    /// Records `account` under `(id, code)`, replacing any account already there.
    pub fn insert(&mut self, id: u32, code: Vec<u8>, account: AccountId)
        requires
            old(self).wf(),
        ensures
            final(self).wf(),
            final(self)@ == old(self)@.insert((id, code@), account),
    {
        let ghost key = (id, code@);
        let ghost m = self.model@.insert(key, account);
        match self.find(id, &code) {
            Some(i) => {
                self.entries.set(i, (id, code, account));
                self.model = Ghost(m);
                proof {
                    lemma_insert_keeps_keys(old(self).entries@, self.entries@, old(self).model@, m, key, i as int);
                }
            },
            None => {
                self.entries.push((id, code, account));
                self.model = Ghost(m);
                proof {
                    let n = self.entries@.len() - 1;
                    lemma_insert_keeps_keys(old(self).entries@, self.entries@, old(self).model@, m, key, n);
                }
            },
        }
    }

    /// Removes the referral stored under `(id, code)`, if any.
    pub fn remove(&mut self, id: u32, code: &Vec<u8>)
        requires
            old(self).wf(),
        ensures
            final(self).wf(),
            final(self)@ == old(self)@.remove((id, code@)),
    {
        let ghost key = (id, code@);
        match self.find(id, code) {
            Some(i) => {
                let ghost m = self.model@.remove(key);
                self.entries.remove(i);
                self.model = Ghost(m);
                assert forall|k: ReferralKey| #[trigger] m.contains_key(k) implies exists|j: int|
                    0 <= j < self.entries@.len() && key_of(#[trigger] self.entries@[j]) == k by {
                    assert(old(self).model@.contains_key(k));
                    let j = choose|j: int|
                        0 <= j < old(self).entries@.len() && key_of(
                            #[trigger] old(self).entries@[j],
                        ) == k;
                    assert(j != i);
                    if j < i {
                        assert(key_of(self.entries@[j]) == k);
                    } else {
                        assert(key_of(self.entries@[j - 1]) == k);
                    }
                }
                assert forall|j: int| 0 <= j < self.entries@.len() implies m.contains_key(
                    key_of(#[trigger] self.entries@[j]),
                ) && m[key_of(self.entries@[j])] == self.entries@[j].2 by {
                    if j < i {
                        assert(self.entries@[j] == old(self).entries@[j]);
                    } else {
                        assert(self.entries@[j] == old(self).entries@[j + 1]);
                    }
                }
            },
            None => {
                assert(self@ =~= old(self)@.remove(key));
            },
        }
    }
}

} // verus!
