use vstd::prelude::*;

verus! {

/// An authenticated caller identity.
pub type AccountId = u64;

/// Deployment-time limits on the length of byte strings.
#[derive(Clone, Copy, Debug, PartialEq, Eq, Structural)]
pub struct Config {
    /// The maximum length of a campaign's metadata.
    pub string_limit: u32,
    /// The maximum length of a referral code.
    pub max_code_length: u32,
}

impl Config {
    /// Both limits must be positive.
    pub open spec fn valid(&self) -> bool {
        self.string_limit > 0 && self.max_code_length > 0
    }

    /// Whether `metadata` fits under the metadata limit.
    pub fn fits_metadata(&self, metadata: &Vec<u8>) -> (r: bool)
        ensures
            r == (metadata@.len() <= self.string_limit),
    {
        metadata.len() <= self.string_limit as usize
    }

    /// Whether `code` fits under the referral code limit.
    pub fn fits_code(&self, code: &Vec<u8>) -> (r: bool)
        ensures
            r == (code@.len() <= self.max_code_length),
    {
        code.len() <= self.max_code_length as usize
    }
}

/// A campaign record: its owner and the metadata the owner controls.
#[derive(Clone, Debug, PartialEq, Eq)]
pub struct Campaign {
    pub owner: AccountId,
    pub metadata: Vec<u8>,
}

/// The mathematical value of a campaign record.
pub struct CampaignView {
    pub owner: AccountId,
    pub metadata: Seq<u8>,
}

impl View for Campaign {
    type V = CampaignView;

    open spec fn view(&self) -> CampaignView {
        CampaignView { owner: self.owner, metadata: self.metadata@ }
    }
}

impl Campaign {
    /// A copy of this record.
    pub fn duplicate(&self) -> (r: Campaign)
        ensures
            r@ == self@,
    {
        Campaign { owner: self.owner, metadata: self.metadata.clone() }
    }
}

/// Notifications emitted by successful operations.
#[derive(Clone, Debug, PartialEq, Eq)]
pub enum Event {
    CampaignCreated(AccountId, u32),
    CampaignUpdated(AccountId, u32),
    CampaignDeleted(AccountId, u32),
    ReferralRegistered(AccountId, u32, Vec<u8>),
    ReferralDeleted(AccountId, u32, Vec<u8>),
}

/// Why an operation was refused.
#[derive(Clone, Copy, Debug, PartialEq, Eq, Structural)]
pub enum Error {
    CampaignAlreadyExists,
    CampaignNotExists,
    NotCampaignOwner,
    ReferralAlreadyExists,
    NotReferralOwner,
    ReferralNotExist,
}

/// Whether two byte strings are equal.
pub(crate) fn bytes_equal(a: &Vec<u8>, b: &Vec<u8>) -> (r: bool)
    ensures
        r == (a@ == b@),
{
    let r = a == b;
    proof {
        if r {
            assert(a@ =~= b@);
        }
    }
    r
}

} // verus!
