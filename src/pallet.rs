use vstd::prelude::*;

use crate::campaign_store::CampaignStore;
use crate::model::{
    codes_within, create_campaign_step, delete_campaign_step, delete_referral_step,
    metadata_within, register_referral_step, update_campaign_step, within_limits, Storage,
};
use crate::referral_store::{ReferralKey, ReferralStore};
use crate::types::{AccountId, Campaign, CampaignView, Config, Error, Event};

verus! {

/// The operation layer: the two stores, the limits they are held to, and
/// the log of events that successful operations emit.
///
/// Every operation either succeeds, changing the stores and appending one
/// event, or fails with an error and changes nothing.
pub struct Pallet {
    config: Config,
    campaigns: CampaignStore,
    referrals: ReferralStore,
    events: Vec<Event>,
}

impl Pallet {
    /// The value of both stores.
    pub closed spec fn storage(&self) -> Storage {
        Storage { campaigns: self.campaigns@, referrals: self.referrals@ }
    }

    /// The limits this instance was set up with.
    pub closed spec fn limits(&self) -> Config {
        self.config
    }

    /// The events emitted so far, oldest first.
    pub closed spec fn event_log(&self) -> Seq<Event> {
        self.events@
    }

    /// Both stores are well formed and hold only values within the limits.
    pub closed spec fn wf(&self) -> bool {
        &&& self.config.valid()
        &&& self.campaigns.wf()
        &&& self.referrals.wf()
        &&& metadata_within(self.campaigns@, self.config.string_limit)
        &&& codes_within(self.referrals@, self.config.max_code_length)
    }

    /// Everything stored is within the limits.
    pub proof fn lemma_within_limits(&self)
        requires
            self.wf(),
        ensures
            within_limits(self.storage(), self.limits()),
    {
    }

    /// An instance with empty stores and no events.
    pub fn new(config: Config) -> (r: Pallet)
        requires
            config.valid(),
        ensures
            r.wf(),
            r.limits() == config,
            r.storage().campaigns == Map::<u32, CampaignView>::empty(),
            r.storage().referrals == Map::<ReferralKey, AccountId>::empty(),
            r.event_log() == Seq::<Event>::empty(),
    {
        let r = Pallet {
            config,
            campaigns: CampaignStore::new(),
            referrals: ReferralStore::new(),
            events: Vec::new(),
        };
        assert(r.events@ =~= Seq::<Event>::empty());
        r
    }

    /// The limits this instance was set up with.
    pub fn config(&self) -> (r: Config)
        ensures
            r == self.limits(),
    {
        self.config
    }

    /// The campaign store.
    pub fn campaigns(&self) -> (r: &CampaignStore)
        requires
            self.wf(),
        ensures
            r.wf(),
            r@ == self.storage().campaigns,
    {
        &self.campaigns
    }

    /// The referral store.
    pub fn referrals(&self) -> (r: &ReferralStore)
        requires
            self.wf(),
        ensures
            r.wf(),
            r@ == self.storage().referrals,
    {
        &self.referrals
    }

    /// The events emitted so far, oldest first.
    pub fn events(&self) -> (r: &Vec<Event>)
        ensures
            r@ == self.event_log(),
    {
        &self.events
    }
    /// `caller` deletes the referral `code` that it registered for campaign `id`.
    ///
    /// Fails with `CampaignNotExists` if there is no campaign `id`, with
    /// `ReferralNotExist` if `code` is not registered for it, and with
    /// `NotReferralOwner` if another account registered it.
    pub fn delete_referral(&mut self, caller: AccountId, id: u32, code: Vec<u8>) -> (r: Result<
        (),
        Error,
    >)
        requires
            old(self).wf(),
            code@.len() <= old(self).limits().max_code_length,
        ensures
            final(self).wf(),
            final(self).limits() == old(self).limits(),
            (r, final(self).storage()) == delete_referral_step(
                old(self).storage(),
                caller,
                id,
                code@,
            ),
            r is Ok ==> final(self).event_log() == old(self).event_log().push(
                Event::ReferralDeleted(caller, id, code),
            ),
            r is Err ==> final(self).event_log() == old(self).event_log(),
    {
        if !self.campaigns.contains(id) {
            return Err(Error::CampaignNotExists);
        }
        match self.referrals.get(id, &code) {
            Some(account) => {
                if account != caller {
                    return Err(Error::NotReferralOwner);
                }
            },
            None => {
                return Err(Error::ReferralNotExist);
            },
        }
        self.referrals.remove(id, &code);
        self.events.push(Event::ReferralDeleted(caller, id, code));
        Ok(())
    }

    /// `caller`, the owner of campaign `id`, replaces its metadata.
    ///
    /// Fails with `CampaignNotExists` if there is no campaign `id`, and with
    /// `NotCampaignOwner` if another account owns it.
    pub fn update_campaign(&mut self, caller: AccountId, id: u32, metadata: Vec<u8>) -> (r: Result<
        (),
        Error,
    >)
        requires
            old(self).wf(),
            metadata@.len() <= old(self).limits().string_limit,
        ensures
            final(self).wf(),
            final(self).limits() == old(self).limits(),
            (r, final(self).storage()) == update_campaign_step(
                old(self).storage(),
                caller,
                id,
                metadata@,
            ),
            r is Ok ==> final(self).event_log() == old(self).event_log().push(
                Event::CampaignUpdated(caller, id),
            ),
            r is Err ==> final(self).event_log() == old(self).event_log(),
    {
        let ghost bytes = metadata@;
        let replace = move |c: &Campaign| -> (out: Result<Campaign, Error>)
            ensures
                match out {
                    Ok(n) => c.owner == caller && n@ == (CampaignView { owner: caller, metadata: bytes }),
                    Err(e) => c.owner != caller && e == Error::NotCampaignOwner,
                },
        {
            if c.owner == caller {
                Ok(Campaign { owner: caller, metadata })
            } else {
                Err(Error::NotCampaignOwner)
            }
        };
        match self.campaigns.mutate(id, replace) {
            Ok(()) => {},
            Err(e) => {
                return Err(e);
            },
        }
        self.events.push(Event::CampaignUpdated(caller, id));
        Ok(())
    }

    /// `caller`, the owner of campaign `id`, deletes it. The referrals
    /// registered for it are kept.
    ///
    /// Fails with `CampaignNotExists` if there is no campaign `id`, and with
    /// `NotCampaignOwner` if another account owns it.
    pub fn delete_campaign(&mut self, caller: AccountId, id: u32) -> (r: Result<(), Error>)
        requires
            old(self).wf(),
        ensures
            final(self).wf(),
            final(self).limits() == old(self).limits(),
            (r, final(self).storage()) == delete_campaign_step(old(self).storage(), caller, id),
            r is Ok ==> final(self).event_log() == old(self).event_log().push(
                Event::CampaignDeleted(caller, id),
            ),
            r is Err ==> final(self).event_log() == old(self).event_log(),
    {
        match self.campaigns.owner_of(id) {
            Some(owner) => {
                if owner != caller {
                    return Err(Error::NotCampaignOwner);
                }
            },
            None => {
                return Err(Error::CampaignNotExists);
            },
        }
        self.campaigns.remove(id);
        self.events.push(Event::CampaignDeleted(caller, id));
        Ok(())
    }

    /// `caller` creates campaign `id`, owned by itself, with `metadata`.
    ///
    /// Fails with `CampaignAlreadyExists` if campaign `id` exists.
    pub fn create_campaign(&mut self, caller: AccountId, id: u32, metadata: Vec<u8>) -> (r: Result<
        (),
        Error,
    >)
        requires
            old(self).wf(),
            metadata@.len() <= old(self).limits().string_limit,
        ensures
            final(self).wf(),
            final(self).limits() == old(self).limits(),
            (r, final(self).storage()) == create_campaign_step(
                old(self).storage(),
                caller,
                id,
                metadata@,
            ),
            r is Ok ==> final(self).event_log() == old(self).event_log().push(
                Event::CampaignCreated(caller, id),
            ),
            r is Err ==> final(self).event_log() == old(self).event_log(),
    {
        if self.campaigns.contains(id) {
            return Err(Error::CampaignAlreadyExists);
        }
        self.campaigns.insert(id, Campaign { owner: caller, metadata });
        self.events.push(Event::CampaignCreated(caller, id));
        Ok(())
    }

    /// `caller` registers `code` for campaign `id`; any account may do so.
    ///
    /// Fails with `CampaignNotExists` if there is no campaign `id`, and with
    /// `ReferralAlreadyExists` if `code` is already registered for it.
    pub fn register_referral(&mut self, caller: AccountId, id: u32, code: Vec<u8>) -> (r: Result<
        (),
        Error,
    >)
        requires
            old(self).wf(),
            code@.len() <= old(self).limits().max_code_length,
        ensures
            final(self).wf(),
            final(self).limits() == old(self).limits(),
            (r, final(self).storage()) == register_referral_step(
                old(self).storage(),
                caller,
                id,
                code@,
            ),
            r is Ok ==> final(self).event_log() == old(self).event_log().push(
                Event::ReferralRegistered(caller, id, code),
            ),
            r is Err ==> final(self).event_log() == old(self).event_log(),
    {
        if !self.campaigns.contains(id) {
            return Err(Error::CampaignNotExists);
        }
        if self.referrals.contains(id, &code) {
            return Err(Error::ReferralAlreadyExists);
        }
        self.referrals.insert(id, code.clone(), caller);
        self.events.push(Event::ReferralRegistered(caller, id, code));
        Ok(())
    }
}

} // verus!
