use vstd::prelude::*;

use crate::types::{AccountId, Campaign, CampaignView, Error};

verus! {

/// Every id of `new_model`, which has the ids of `model` and `id`, has an entry in `after`, when `after`
/// keeps each entry of `before` whose id is not `id` and holds `id` at `pos`.
proof fn lemma_insert_keeps_ids(
    before: Seq<(u32, Campaign)>,
    after: Seq<(u32, Campaign)>,
    model: Map<u32, CampaignView>,
    new_model: Map<u32, CampaignView>,
    id: u32,
    pos: int,
)
    requires
        new_model.dom() == model.dom().insert(id),
        forall|k: u32|
            #[trigger] model.contains_key(k) ==> exists|i: int|
                0 <= i < before.len() && #[trigger] before[i].0 == k,
        before.len() <= after.len(),
        forall|i: int| 0 <= i < before.len() && before[i].0 != id ==> #[trigger] after[i] == before[i],
        0 <= pos < after.len(),
        after[pos].0 == id,
    ensures
        forall|k: u32|
            #[trigger] new_model.contains_key(k) ==> exists|j: int|
                0 <= j < after.len() && #[trigger] after[j].0 == k,
{
    assert forall|k: u32| #[trigger] new_model.contains_key(k) implies exists|j: int|
        0 <= j < after.len() && #[trigger] after[j].0 == k by {
        if k == id {
            assert(after[pos].0 == k);
        } else {
            assert(model.dom().insert(id).contains(k));
            assert(model.contains_key(k));
            let i = choose|i: int| 0 <= i < before.len() && #[trigger] before[i].0 == k;
            assert(after[i].0 == k);
        }
    }
}

/// A key-value store from campaign id to campaign record.
///
/// Records are kept as a list of `(id, record)` entries whose ids are
/// pairwise distinct; the store's value is the map from id to record.
pub struct CampaignStore {
    entries: Vec<(u32, Campaign)>,
    model: Ghost<Map<u32, CampaignView>>,
}

impl View for CampaignStore {
    type V = Map<u32, CampaignView>;

    closed spec fn view(&self) -> Map<u32, CampaignView> {
        self.model@
    }
}

impl CampaignStore {
    /// Ids are unique, and the entries hold exactly the map's pairs.
    pub closed spec fn wf(&self) -> bool {
        &&& forall|i: int, j: int|
            0 <= i < j < self.entries@.len() ==> #[trigger] self.entries@[i].0
                != #[trigger] self.entries@[j].0
        &&& forall|i: int|
            0 <= i < self.entries@.len() ==> self.model@.contains_key(#[trigger] self.entries@[i].0)
                && self.model@[self.entries@[i].0] == self.entries@[i].1@
        &&& forall|k: u32|
            #[trigger] self.model@.contains_key(k) ==> exists|i: int|
                0 <= i < self.entries@.len() && #[trigger] self.entries@[i].0 == k
    }

    /// An empty store.
    pub fn new() -> (r: CampaignStore)
        ensures
            r.wf(),
            r@ == Map::<u32, CampaignView>::empty(),
    {
        CampaignStore { entries: Vec::new(), model: Ghost(Map::empty()) }
    }

    /// The position of `id`'s entry, if there is one.
    fn find(&self, id: u32) -> (r: Option<usize>)
        requires
            self.wf(),
        ensures
            match r {
                Some(i) => i < self.entries@.len() && self.entries@[i as int].0 == id,
                None => !self@.contains_key(id),
            },
    {
        let mut i: usize = 0;
        while i < self.entries.len()
            invariant
                i <= self.entries@.len(),
                forall|j: int| 0 <= j < i ==> self.entries@[j].0 != id,
            decreases self.entries@.len() - i,
        {
            if self.entries[i].0 == id {
                return Some(i);
            }
            i = i + 1;
        }
        None
    }

    /// Whether a record is stored under `id`.
    pub fn contains(&self, id: u32) -> (r: bool)
        requires
            self.wf(),
        ensures
            r == self@.contains_key(id),
    {
        match self.find(id) {
            Some(_) => true,
            None => false,
        }
    }

    /// A copy of the record stored under `id`, if any.
    pub fn get(&self, id: u32) -> (r: Option<Campaign>)
        requires
            self.wf(),
        ensures
            match r {
                Some(c) => self@.contains_key(id) && c@ == self@[id],
                None => !self@.contains_key(id),
            },
    {
        match self.find(id) {
            Some(i) => Some(self.entries[i].1.duplicate()),
            None => None,
        }
    }

    /// The owner of the record stored under `id`, if any.
    pub fn owner_of(&self, id: u32) -> (r: Option<AccountId>)
        requires
            self.wf(),
        ensures
            match r {
                Some(a) => self@.contains_key(id) && a == self@[id].owner,
                None => !self@.contains_key(id),
            },
    {
        match self.find(id) {
            Some(i) => Some(self.entries[i].1.owner),
            None => None,
        }
    }

    /// Stores `campaign` under `id`, replacing any record already there.
    pub fn insert(&mut self, id: u32, campaign: Campaign)
        requires
            old(self).wf(),
        ensures
            final(self).wf(),
            final(self)@ == old(self)@.insert(id, campaign@),
    {
        let ghost m = self.model@.insert(id, campaign@);
        match self.find(id) {
            Some(i) => {
                self.entries.set(i, (id, campaign));
                self.model = Ghost(m);
                proof {
                    lemma_insert_keeps_ids(old(self).entries@, self.entries@, old(self).model@, m, id, i as int);
                }
            },
            None => {
                self.entries.push((id, campaign));
                self.model = Ghost(m);
                proof {
                    let n = self.entries@.len() - 1;
                    lemma_insert_keeps_ids(old(self).entries@, self.entries@, old(self).model@, m, id, n);
                }
            },
        }
    }

    /// Applies `f` to the record stored under `id` and stores what it
    /// returns; a failure of `f` is handed back and changes nothing.
    ///
    /// Fails with `CampaignNotExists`, without calling `f`, if no record is
    /// stored under `id`.
    pub fn mutate<F: FnOnce(&Campaign) -> Result<Campaign, Error>>(&mut self, id: u32, f: F) -> (r:
        Result<(), Error>)
        requires
            old(self).wf(),
            forall|c: &Campaign| #[trigger] f.requires((c,)),
        ensures
            final(self).wf(),
            !old(self)@.contains_key(id) ==> r == Err::<(), Error>(Error::CampaignNotExists)
                && final(self)@ == old(self)@,
            old(self)@.contains_key(id) ==> exists|c: Campaign, out: Result<Campaign, Error>|
                c@ == old(self)@[id] && #[trigger] f.ensures((&c,), out) && match out {
                    Ok(n) => r is Ok && final(self)@ == old(self)@.insert(id, n@),
                    Err(e) => r == Err::<(), Error>(e) && final(self)@ == old(self)@,
                },
    {
        match self.find(id) {
            None => Err(Error::CampaignNotExists),
            Some(i) => {
                let out = f(&self.entries[i].1);
                let ghost stored = self.entries@[i as int].1;
                let ghost result = out;
                match out {
                    Ok(n) => {
                        self.insert(id, n);
                        assert(f.ensures((&stored,), result));
                        Ok(())
                    },
                    Err(e) => {
                        assert(f.ensures((&stored,), result));
                        Err(e)
                    },
                }
            },
        }
    }

    /// Removes the record stored under `id`, if any.
    pub fn remove(&mut self, id: u32)
        requires
            old(self).wf(),
        ensures
            final(self).wf(),
            final(self)@ == old(self)@.remove(id),
    {
        match self.find(id) {
            Some(i) => {
                let ghost m = self.model@.remove(id);
                self.entries.remove(i);
                self.model = Ghost(m);
                assert forall|k: u32| #[trigger] m.contains_key(k) implies exists|j: int|
                    0 <= j < self.entries@.len() && #[trigger] self.entries@[j].0 == k by {
                    assert(old(self).model@.contains_key(k));
                    let j = choose|j: int|
                        0 <= j < old(self).entries@.len() && #[trigger] old(self).entries@[j].0 == k;
                    assert(j != i);
                    if j < i {
                        assert(self.entries@[j].0 == k);
                    } else {
                        assert(self.entries@[j - 1].0 == k);
                    }
                }
                assert forall|j: int| 0 <= j < self.entries@.len() implies m.contains_key(
                    #[trigger] self.entries@[j].0,
                ) && m[self.entries@[j].0] == self.entries@[j].1@ by {
                    if j < i {
                        assert(self.entries@[j] == old(self).entries@[j]);
                        assert(old(self).entries@[j].0 != id);
                    } else {
                        assert(self.entries@[j] == old(self).entries@[j + 1]);
                        assert(old(self).entries@[j + 1].0 != id);
                    }
                }
            },
            None => {
                assert(self@ =~= old(self)@.remove(id));
            },
        }
    }
}

} // verus!
