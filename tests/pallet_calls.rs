use referral::{Campaign, Config, Error, Pallet};

fn new_test_ext() -> Pallet {
    Pallet::new(Config { string_limit: 32, max_code_length: 16 })
}

#[test]
fn create_campaign_works() {
    let mut p = new_test_ext();
    let metadata = vec![0, 1];
    assert_eq!(p.create_campaign(1, 1, metadata.clone()), Ok(()));

    assert_eq!(p.campaigns().get(1).unwrap(), Campaign { owner: 1, metadata });
}

#[test]
fn create_campaign_failed_when_id_already_exists() {
    let mut p = new_test_ext();
    let metadata = vec![0, 1];
    assert_eq!(p.create_campaign(1, 1, metadata.clone()), Ok(()));

    let events_before = p.events().len();
    let campaign_before = p.campaigns().get(1);
    assert_eq!(p.create_campaign(1, 1, metadata.clone()), Err(Error::CampaignAlreadyExists));
    assert_eq!(p.events().len(), events_before);
    assert_eq!(p.campaigns().get(1), campaign_before);
}

#[test]
fn update_campaign_works() {
    let mut p = new_test_ext();
    let metadata = vec![0, 1];
    let _ = p.create_campaign(1, 1, metadata);

    let new_metadata = vec![0, 1, 2];
    assert_eq!(p.update_campaign(1, 1, new_metadata.clone()), Ok(()));

    assert_eq!(p.campaigns().get(1).unwrap(), Campaign { owner: 1, metadata: new_metadata });
}

#[test]
fn update_campaign_failed_when_campaign_not_exists() {
    let mut p = new_test_ext();
    let metadata = vec![0, 1];
    let events_before = p.events().len();
    let campaign_before = p.campaigns().get(1);
    assert_eq!(p.update_campaign(1, 1, metadata.clone()), Err(Error::CampaignNotExists));
    assert_eq!(p.events().len(), events_before);
    assert_eq!(p.campaigns().get(1), campaign_before);
}

#[test]
fn update_campaign_failed_when_not_owner() {
    let mut p = new_test_ext();
    let metadata = vec![0, 1];
    let _ = p.create_campaign(1, 1, metadata);

    let new_metadata = vec![0, 1, 2];

    let events_before = p.events().len();
    let campaign_before = p.campaigns().get(1);
    assert_eq!(p.update_campaign(2, 1, new_metadata), Err(Error::NotCampaignOwner));
    assert_eq!(p.events().len(), events_before);
    assert_eq!(p.campaigns().get(1), campaign_before);
}

#[test]
fn delete_campaign_works() {
    let mut p = new_test_ext();
    let metadata = vec![0, 1];
    let _ = p.create_campaign(1, 1, metadata);

    assert_eq!(p.delete_campaign(1, 1), Ok(()));

    assert_eq!(p.campaigns().get(1), None);
}

#[test]
fn delete_campaign_failed_when_campaign_not_exists() {
    let mut p = new_test_ext();
    let events_before = p.events().len();
    let campaign_before = p.campaigns().get(1);
    assert_eq!(p.delete_campaign(1, 1), Err(Error::CampaignNotExists));
    assert_eq!(p.events().len(), events_before);
    assert_eq!(p.campaigns().get(1), campaign_before);
}

#[test]
fn delete_campaign_failed_when_not_owner() {
    let mut p = new_test_ext();
    let metadata = vec![0, 1];
    let _ = p.create_campaign(1, 1, metadata);

    let events_before = p.events().len();
    let campaign_before = p.campaigns().get(1);
    assert_eq!(p.delete_campaign(2, 1), Err(Error::NotCampaignOwner));
    assert_eq!(p.events().len(), events_before);
    assert_eq!(p.campaigns().get(1), campaign_before);
}

#[test]
fn create_referral_works() {
    let mut p = new_test_ext();
    let metadata = vec![0, 1];
    let referral_code = vec![68, 69]; // code: hi
    let campaign_owner = 1;
    let referral_account = 2;

    let _ = p.create_campaign(campaign_owner, 1, metadata);

    assert_eq!(p.register_referral(referral_account, 1, referral_code.clone()), Ok(()));

    assert_eq!(p.referrals().get(1, &referral_code).unwrap(), 2);
}

#[test]
fn create_referral_failed_when_campaign_not_exists() {
    let mut p = new_test_ext();
    let referral_code = vec![68, 69]; // code: hi
    let referral_account = 2;

    let events_before = p.events().len();
    let campaign_before = p.campaigns().get(1);
    let referral_before = p.referrals().get(1, &referral_code);
    assert_eq!(
        p.register_referral(referral_account, 1, referral_code.clone()),
        Err(Error::CampaignNotExists)
    );
    assert_eq!(p.events().len(), events_before);
    assert_eq!(p.campaigns().get(1), campaign_before);
    assert_eq!(p.referrals().get(1, &referral_code), referral_before);
}

#[test]
fn create_referral_failed_when_referral_code_already_exists() {
    let mut p = new_test_ext();
    let metadata = vec![0, 1];
    let referral_code = vec![68, 69]; // code: hi
    let campaign_owner = 1;
    let referral_account = 2;
    let campaign_id = 1;

    let _ = p.create_campaign(campaign_owner, campaign_id, metadata);

    let _ = p.register_referral(referral_account, campaign_id, referral_code.clone());

    let events_before = p.events().len();
    let campaign_before = p.campaigns().get(campaign_id);
    let referral_before = p.referrals().get(campaign_id, &referral_code);
    assert_eq!(
        p.register_referral(referral_account, campaign_id, referral_code.clone()),
        Err(Error::ReferralAlreadyExists)
    );
    assert_eq!(p.events().len(), events_before);
    assert_eq!(p.campaigns().get(campaign_id), campaign_before);
    assert_eq!(p.referrals().get(campaign_id, &referral_code), referral_before);
}

#[test]
fn delete_referral_works() {
    let mut p = new_test_ext();
    let metadata = vec![0, 1];
    let referral_code = vec![68, 69]; // code: hi
    let campaign_owner = 1;
    let referral_account = 2;
    let campaign_id = 1;

    let _ = p.create_campaign(campaign_owner, campaign_id, metadata);

    let _ = p.register_referral(referral_account, campaign_id, referral_code.clone());

    assert_eq!(p.delete_referral(referral_account, campaign_id, referral_code.clone()), Ok(()));

    assert_eq!(p.referrals().get(1, &referral_code), None);
}

#[test]
fn delete_referral_failed_when_campaign_not_exists() {
    let mut p = new_test_ext();
    let referral_code = vec![68, 69]; // code: hi
    let referral_account = 2;

    let events_before = p.events().len();
    let campaign_before = p.campaigns().get(1);
    let referral_before = p.referrals().get(1, &referral_code);
    assert_eq!(
        p.delete_referral(referral_account, 1, referral_code.clone()),
        Err(Error::CampaignNotExists)
    );
    assert_eq!(p.events().len(), events_before);
    assert_eq!(p.campaigns().get(1), campaign_before);
    assert_eq!(p.referrals().get(1, &referral_code), referral_before);
}

#[test]
fn delete_referral_failed_when_referral_not_exists() {
    let mut p = new_test_ext();
    let metadata = vec![0, 1];
    let referral_code = vec![68, 69]; // code: hi
    let campaign_owner = 1;
    let referral_account = 2;
    let campaign_id = 1;

    let _ = p.create_campaign(campaign_owner, campaign_id, metadata);

    let events_before = p.events().len();
    let campaign_before = p.campaigns().get(campaign_id);
    let referral_before = p.referrals().get(campaign_id, &referral_code);
    assert_eq!(
        p.delete_referral(referral_account, campaign_id, referral_code.clone()),
        Err(Error::ReferralNotExist)
    );
    assert_eq!(p.events().len(), events_before);
    assert_eq!(p.campaigns().get(campaign_id), campaign_before);
    assert_eq!(p.referrals().get(campaign_id, &referral_code), referral_before);
}

#[test]
fn delete_referral_failed_when_not_referral_owner() {
    let mut p = new_test_ext();
    let metadata = vec![0, 1];
    let referral_code = vec![68, 69]; // code: hi
    let campaign_owner = 1;
    let referral_account = 2;
    let invalid_referral_account = 3;
    let campaign_id = 1;

    let _ = p.create_campaign(campaign_owner, campaign_id, metadata);

    let _ = p.register_referral(referral_account, campaign_id, referral_code.clone());

    let events_before = p.events().len();
    let campaign_before = p.campaigns().get(campaign_id);
    let referral_before = p.referrals().get(campaign_id, &referral_code);
    assert_eq!(
        p.delete_referral(invalid_referral_account, campaign_id, referral_code.clone()),
        Err(Error::NotReferralOwner)
    );
    assert_eq!(p.events().len(), events_before);
    assert_eq!(p.campaigns().get(campaign_id), campaign_before);
    assert_eq!(p.referrals().get(campaign_id, &referral_code), referral_before);
}
