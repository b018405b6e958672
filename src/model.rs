use vstd::prelude::*;

use crate::referral_store::ReferralKey;
use crate::types::{AccountId, CampaignView, Config, Error};

verus! {

/// The value of both stores together.
pub struct Storage {
    pub campaigns: Map<u32, CampaignView>,
    pub referrals: Map<ReferralKey, AccountId>,
}

/// Every metadata in `campaigns` is at most `limit` long.
pub open spec fn metadata_within(campaigns: Map<u32, CampaignView>, limit: u32) -> bool {
    forall|id: u32| #[trigger] campaigns.contains_key(id) ==> campaigns[id].metadata.len() <= limit
}

/// Every code in `referrals` is at most `limit` long.
pub open spec fn codes_within(referrals: Map<ReferralKey, AccountId>, limit: u32) -> bool {
    forall|k: ReferralKey| #[trigger] referrals.contains_key(k) ==> k.1.len() <= limit
}

/// Every stored metadata and every stored code is within `config`'s limits.
pub open spec fn within_limits(s: Storage, config: Config) -> bool {
    &&& metadata_within(s.campaigns, config.string_limit)
    &&& codes_within(s.referrals, config.max_code_length)
}

/// Outcome of `caller` creating campaign `id` with `metadata`.
pub open spec fn create_campaign_step(s: Storage, caller: AccountId, id: u32, metadata: Seq<u8>) -> (
    Result<(), Error>,
    Storage,
) {
    if s.campaigns.contains_key(id) {
        (Err(Error::CampaignAlreadyExists), s)
    } else {
        (
            Ok(()),
            Storage {
                campaigns: s.campaigns.insert(id, CampaignView { owner: caller, metadata }),
                referrals: s.referrals,
            },
        )
    }
}

/// Outcome of `caller` replacing the metadata of campaign `id`.
pub open spec fn update_campaign_step(s: Storage, caller: AccountId, id: u32, metadata: Seq<u8>) -> (
    Result<(), Error>,
    Storage,
) {
    if !s.campaigns.contains_key(id) {
        (Err(Error::CampaignNotExists), s)
    } else if s.campaigns[id].owner != caller {
        (Err(Error::NotCampaignOwner), s)
    } else {
        (
            Ok(()),
            Storage {
                campaigns: s.campaigns.insert(id, CampaignView { owner: caller, metadata }),
                referrals: s.referrals,
            },
        )
    }
}

/// Outcome of `caller` deleting campaign `id`; its referrals stay.
pub open spec fn delete_campaign_step(s: Storage, caller: AccountId, id: u32) -> (
    Result<(), Error>,
    Storage,
) {
    if !s.campaigns.contains_key(id) {
        (Err(Error::CampaignNotExists), s)
    } else if s.campaigns[id].owner != caller {
        (Err(Error::NotCampaignOwner), s)
    } else {
        (Ok(()), Storage { campaigns: s.campaigns.remove(id), referrals: s.referrals })
    }
}

/// Outcome of `caller` registering `code` for campaign `id`.
pub open spec fn register_referral_step(s: Storage, caller: AccountId, id: u32, code: Seq<u8>) -> (
    Result<(), Error>,
    Storage,
) {
    if !s.campaigns.contains_key(id) {
        (Err(Error::CampaignNotExists), s)
    } else if s.referrals.contains_key((id, code)) {
        (Err(Error::ReferralAlreadyExists), s)
    } else {
        (
            Ok(()),
            Storage { campaigns: s.campaigns, referrals: s.referrals.insert((id, code), caller) },
        )
    }
}

/// Outcome of `caller` deleting the referral `code` of campaign `id`.
pub open spec fn delete_referral_step(s: Storage, caller: AccountId, id: u32, code: Seq<u8>) -> (
    Result<(), Error>,
    Storage,
) {
    if !s.campaigns.contains_key(id) {
        (Err(Error::CampaignNotExists), s)
    } else if !s.referrals.contains_key((id, code)) {
        (Err(Error::ReferralNotExist), s)
    } else if s.referrals[(id, code)] != caller {
        (Err(Error::NotReferralOwner), s)
    } else {
        (Ok(()), Storage { campaigns: s.campaigns, referrals: s.referrals.remove((id, code)) })
    }
}

} // verus!
