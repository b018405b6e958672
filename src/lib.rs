//! Campaigns and referral codes: owned records kept in two key-value
//! stores, changed only through guarded, all-or-nothing operations.
//!
//! Any account may register a referral code for an existing campaign.
//! Deleting a campaign leaves the referrals registered for it in place;
//! they keep blocking the same codes should the id be created again.
mod campaign_store;
mod laws;
mod model;
mod pallet;
mod referral_store;
mod types;

pub use campaign_store::CampaignStore;
pub use laws::{
    lemma_campaign_lifecycle, lemma_create_twice, lemma_delete_referral_owner_only,
    lemma_delete_then_absent, lemma_register_twice, lemma_update_by_other_fails,
};
pub use model::{
    codes_within, create_campaign_step, delete_campaign_step, delete_referral_step,
    metadata_within, register_referral_step, update_campaign_step, within_limits, Storage,
};
pub use pallet::Pallet;
pub use referral_store::{ReferralKey, ReferralStore};
pub use types::{AccountId, Campaign, CampaignView, Config, Error, Event};
