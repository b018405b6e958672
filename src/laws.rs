use vstd::prelude::*;

use crate::model::{
    create_campaign_step, delete_campaign_step, delete_referral_step, register_referral_step,
    update_campaign_step, Storage,
};
use crate::types::{AccountId, CampaignView, Error};

verus! {

/// Creating a campaign under an id that was just created fails with
/// `CampaignAlreadyExists` and changes nothing; after a successful first
/// creation the stored record is the first caller's, with the first metadata.
pub proof fn lemma_create_twice(
    s: Storage,
    caller: AccountId,
    caller2: AccountId,
    id: u32,
    metadata: Seq<u8>,
    metadata2: Seq<u8>,
)
    ensures
        ({
            let (r1, s1) = create_campaign_step(s, caller, id, metadata);
            let (r2, s2) = create_campaign_step(s1, caller2, id, metadata2);
            &&& r2 == Err::<(), Error>(Error::CampaignAlreadyExists)
            &&& s2 == s1
            &&& r1 is Ok ==> s2.campaigns[id] == CampaignView { owner: caller, metadata }
        }),
{
}

/// Updating a campaign by an account other than its owner fails with
/// `NotCampaignOwner` and leaves the stores, the metadata included, unchanged.
pub proof fn lemma_update_by_other_fails(
    s: Storage,
    other: AccountId,
    id: u32,
    metadata: Seq<u8>,
)
    requires
        s.campaigns.contains_key(id),
        s.campaigns[id].owner != other,
    ensures
        update_campaign_step(s, other, id, metadata) == (Err::<(), Error>(Error::NotCampaignOwner), s),
{
}

/// After a campaign is deleted it is absent, and a further update or
/// delete of it fails with `CampaignNotExists`.
pub proof fn lemma_delete_then_absent(
    s: Storage,
    caller: AccountId,
    caller2: AccountId,
    id: u32,
    metadata: Seq<u8>,
)
    ensures
        ({
            let (r1, s1) = delete_campaign_step(s, caller, id);
            r1 is Ok ==> {
                &&& !s1.campaigns.contains_key(id)
                &&& update_campaign_step(s1, caller2, id, metadata).0 == Err::<(), Error>(
                    Error::CampaignNotExists,
                )
                &&& delete_campaign_step(s1, caller2, id).0 == Err::<(), Error>(
                    Error::CampaignNotExists,
                )
            }
        }),
{
}

/// Registering the same code for the same campaign twice: the first
/// succeeds when the campaign exists and the code is new, the second then
/// fails with `ReferralAlreadyExists` and the first caller stays the owner.
pub proof fn lemma_register_twice(
    s: Storage,
    caller: AccountId,
    caller2: AccountId,
    id: u32,
    code: Seq<u8>,
)
    ensures
        ({
            let (r1, s1) = register_referral_step(s, caller, id, code);
            let (r2, s2) = register_referral_step(s1, caller2, id, code);
            &&& r1 is Ok <==> (s.campaigns.contains_key(id) && !s.referrals.contains_key((id, code)))
            &&& r1 is Ok ==> {
                &&& r2 == Err::<(), Error>(Error::ReferralAlreadyExists)
                &&& s2 == s1
                &&& s2.referrals[(id, code)] == caller
            }
        }),
{
}

/// Of a registered referral whose campaign exists, deletion by another
/// account fails with `NotReferralOwner` and changes nothing, while deletion
/// by the registering account succeeds and leaves the code absent.
pub proof fn lemma_delete_referral_owner_only(
    s: Storage,
    other: AccountId,
    id: u32,
    code: Seq<u8>,
)
    requires
        s.campaigns.contains_key(id),
        s.referrals.contains_key((id, code)),
        s.referrals[(id, code)] != other,
    ensures
        delete_referral_step(s, other, id, code) == (Err::<(), Error>(Error::NotReferralOwner), s),
        ({
            let (r, s1) = delete_referral_step(s, s.referrals[(id, code)], id, code);
            &&& r == Ok::<(), Error>(())
            &&& !s1.referrals.contains_key((id, code))
        }),
{
}

/// Only creation and deletion change which campaigns exist, and no
/// operation changes a campaign's owner: an update keeps the ids and the
/// owners, and referral operations leave the campaigns as they are.
pub proof fn lemma_campaign_lifecycle(
    s: Storage,
    caller: AccountId,
    id: u32,
    bytes: Seq<u8>,
)
    ensures
        ({
            let s1 = update_campaign_step(s, caller, id, bytes).1;
            &&& s1.campaigns.dom() == s.campaigns.dom()
            &&& forall|k: u32| #[trigger]
                s1.campaigns.contains_key(k) ==> s1.campaigns[k].owner == s.campaigns[k].owner
        }),
        register_referral_step(s, caller, id, bytes).1.campaigns == s.campaigns,
        delete_referral_step(s, caller, id, bytes).1.campaigns == s.campaigns,
{
    let s1 = update_campaign_step(s, caller, id, bytes).1;
    assert(s1.campaigns.dom() =~= s.campaigns.dom());
}

} // verus!
