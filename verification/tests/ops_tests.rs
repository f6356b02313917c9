use crowdfund::account::Account;
use crowdfund::campaign::{CampaignRecord, WithdrawRequest};
use crowdfund::codec::{decode_campaign, encode_campaign, encode_withdraw};
use crowdfund::error::ProgramError;
use crowdfund::ops::{create_campaign, donate, withdraw};
use crowdfund::pubkey::Pubkey;

fn pk(fill: u8) -> Pubkey {
    Pubkey { bytes: vec![fill; 32] }
}

const PROGRAM: u8 = 9;
const ADMIN: u8 = 7;

fn campaign_payload(admin: u8, amount_donated: u64) -> Vec<u8> {
    encode_campaign(&CampaignRecord {
        admin: pk(admin),
        name: b"Help".to_vec(),
        description: b"desc".to_vec(),
        image_link: b"img".to_vec(),
        amount_donated,
    })
}

fn writing_account(lamports: u64, data: Vec<u8>) -> Account {
    Account { key: pk(1), owner: pk(PROGRAM), is_signer: false, lamports, data }
}

fn creator_account(signer: bool) -> Account {
    Account { key: pk(ADMIN), owner: pk(4), is_signer: signer, lamports: 50, data: Vec::new() }
}

#[test]
fn create_stores_record_with_zero_donations() {
    let mut writing = writing_account(1000, Vec::new());
    let creator = creator_account(true);
    let payload = campaign_payload(ADMIN, 424242);
    let r = create_campaign(&pk(PROGRAM), &mut writing, &creator, &payload, 1000);
    assert_eq!(r, Ok(()));
    let stored = decode_campaign(&writing.data).expect("stored record must decode");
    assert_eq!(stored.amount_donated, 0);
    assert_eq!(stored.admin, pk(ADMIN));
    assert_eq!(stored.name, b"Help".to_vec());
    assert_eq!(writing.lamports, 1000);
}

#[test]
fn create_without_signer_fails() {
    let mut writing = writing_account(1000, Vec::new());
    let creator = creator_account(false);
    let payload = campaign_payload(ADMIN, 0);
    let r = create_campaign(&pk(PROGRAM), &mut writing, &creator, &payload, 10);
    assert_eq!(r, Err(ProgramError::Authorization));
    assert!(writing.data.is_empty());
}

#[test]
fn create_with_unowned_account_fails() {
    let mut writing = writing_account(1000, Vec::new());
    writing.owner = pk(5);
    let creator = creator_account(true);
    let payload = campaign_payload(ADMIN, 0);
    let r = create_campaign(&pk(PROGRAM), &mut writing, &creator, &payload, 10);
    assert_eq!(r, Err(ProgramError::Ownership));
}

#[test]
fn create_with_malformed_payload_fails() {
    let mut writing = writing_account(1000, Vec::new());
    let creator = creator_account(true);
    let r = create_campaign(&pk(PROGRAM), &mut writing, &creator, &[1, 2, 3], 10);
    assert_eq!(r, Err(ProgramError::Decode));
}

#[test]
fn create_with_admin_mismatch_fails() {
    let mut writing = writing_account(1000, Vec::new());
    let creator = creator_account(true);
    let payload = campaign_payload(6, 0);
    let r = create_campaign(&pk(PROGRAM), &mut writing, &creator, &payload, 10);
    assert_eq!(r, Err(ProgramError::MalformedInstruction));
}

#[test]
fn create_below_floor_fails() {
    let mut writing = writing_account(999, Vec::new());
    let creator = creator_account(true);
    let payload = campaign_payload(ADMIN, 0);
    let r = create_campaign(&pk(PROGRAM), &mut writing, &creator, &payload, 1000);
    assert_eq!(r, Err(ProgramError::InsufficientFunds));
    assert!(writing.data.is_empty());
}

#[test]
fn withdraw_moves_requested_amount() {
    let mut writing = writing_account(1000, campaign_payload(ADMIN, 0));
    let mut admin = creator_account(true);
    let payload = encode_withdraw(&WithdrawRequest { amount: 200 });
    let r = withdraw(&pk(PROGRAM), &mut writing, &mut admin, &payload, 700);
    assert_eq!(r, Ok(()));
    assert_eq!(writing.lamports, 800);
    assert_eq!(admin.lamports, 250);
    // the stored record is untouched
    assert_eq!(writing.data, campaign_payload(ADMIN, 0));
}

#[test]
fn withdraw_breaching_floor_fails_and_changes_nothing() {
    let mut writing = writing_account(1000, campaign_payload(ADMIN, 0));
    let mut admin = creator_account(true);
    let payload = encode_withdraw(&WithdrawRequest { amount: 301 });
    let r = withdraw(&pk(PROGRAM), &mut writing, &mut admin, &payload, 700);
    assert_eq!(r, Err(ProgramError::InsufficientFunds));
    assert_eq!(writing.lamports, 1000);
    assert_eq!(admin.lamports, 50);
}

#[test]
fn withdraw_exactly_to_floor_succeeds() {
    let mut writing = writing_account(1000, campaign_payload(ADMIN, 0));
    let mut admin = creator_account(true);
    let payload = encode_withdraw(&WithdrawRequest { amount: 300 });
    let r = withdraw(&pk(PROGRAM), &mut writing, &mut admin, &payload, 700);
    assert_eq!(r, Ok(()));
    assert_eq!(writing.lamports, 700);
    assert_eq!(admin.lamports, 350);
}

#[test]
fn withdraw_by_non_admin_signer_fails_and_changes_nothing() {
    let mut writing = writing_account(1000, campaign_payload(ADMIN, 0));
    let mut outsider =
        Account { key: pk(6), owner: pk(4), is_signer: true, lamports: 50, data: Vec::new() };
    let payload = encode_withdraw(&WithdrawRequest { amount: 10 });
    let r = withdraw(&pk(PROGRAM), &mut writing, &mut outsider, &payload, 0);
    assert_eq!(r, Err(ProgramError::Authorization));
    assert_eq!(writing.lamports, 1000);
    assert_eq!(outsider.lamports, 50);
}

#[test]
fn withdraw_without_signature_fails() {
    let mut writing = writing_account(1000, campaign_payload(ADMIN, 0));
    let mut admin = creator_account(false);
    let payload = encode_withdraw(&WithdrawRequest { amount: 10 });
    let r = withdraw(&pk(PROGRAM), &mut writing, &mut admin, &payload, 0);
    assert_eq!(r, Err(ProgramError::Authorization));
}

#[test]
fn withdraw_with_undecodable_campaign_fails() {
    let mut writing = writing_account(1000, vec![1, 2, 3]);
    let mut admin = creator_account(true);
    let payload = encode_withdraw(&WithdrawRequest { amount: 10 });
    let r = withdraw(&pk(PROGRAM), &mut writing, &mut admin, &payload, 0);
    assert_eq!(r, Err(ProgramError::Decode));
}

#[test]
fn withdraw_with_malformed_request_fails() {
    let mut writing = writing_account(1000, campaign_payload(ADMIN, 0));
    let mut admin = creator_account(true);
    let r = withdraw(&pk(PROGRAM), &mut writing, &mut admin, &[1, 2, 3], 0);
    assert_eq!(r, Err(ProgramError::Decode));
}

#[test]
fn donate_moves_whole_staging_balance() {
    let mut writing = writing_account(1000, campaign_payload(ADMIN, 40));
    let mut staging =
        Account { key: pk(2), owner: pk(PROGRAM), is_signer: false, lamports: 500, data: Vec::new() };
    let donator =
        Account { key: pk(3), owner: pk(4), is_signer: true, lamports: 0, data: Vec::new() };
    let r = donate(&pk(PROGRAM), &mut writing, &mut staging, &donator);
    assert_eq!(r, Ok(()));
    assert_eq!(writing.lamports, 1500);
    assert_eq!(staging.lamports, 0);
    let stored = decode_campaign(&writing.data).expect("stored record must decode");
    assert_eq!(stored.amount_donated, 540);
}

#[test]
fn donate_with_unowned_staging_fails_and_changes_nothing() {
    let data_before = campaign_payload(ADMIN, 40);
    let mut writing = writing_account(1000, data_before.clone());
    let mut staging =
        Account { key: pk(2), owner: pk(5), is_signer: false, lamports: 500, data: Vec::new() };
    let donator =
        Account { key: pk(3), owner: pk(4), is_signer: true, lamports: 0, data: Vec::new() };
    let r = donate(&pk(PROGRAM), &mut writing, &mut staging, &donator);
    assert_eq!(r, Err(ProgramError::Ownership));
    assert_eq!(writing.lamports, 1000);
    assert_eq!(staging.lamports, 500);
    assert_eq!(writing.data, data_before);
}

#[test]
fn donate_without_signer_fails() {
    let mut writing = writing_account(1000, campaign_payload(ADMIN, 40));
    let mut staging =
        Account { key: pk(2), owner: pk(PROGRAM), is_signer: false, lamports: 500, data: Vec::new() };
    let donator =
        Account { key: pk(3), owner: pk(4), is_signer: false, lamports: 0, data: Vec::new() };
    let r = donate(&pk(PROGRAM), &mut writing, &mut staging, &donator);
    assert_eq!(r, Err(ProgramError::Authorization));
}

#[test]
fn error_messages_are_distinct() {
    let errors = [
        ProgramError::MalformedInstruction,
        ProgramError::Decode,
        ProgramError::Ownership,
        ProgramError::Authorization,
        ProgramError::InsufficientFunds,
    ];
    for (i, a) in errors.iter().enumerate() {
        assert!(!a.message().is_empty());
        for b in errors.iter().skip(i + 1) {
            assert_ne!(a.message(), b.message());
        }
    }
}
