use vstd::prelude::*;

use crate::account::{Account, AccountView};
use crate::campaign::{CampaignView, WithdrawRequest};
use crate::codec::{
    decode_campaign, decode_campaign_bytes, decode_withdraw, decode_withdraw_bytes,
    encode_campaign, encode_campaign_bytes, lemma_campaign_round_trip, lemma_decoded_campaign_wf,
};
use crate::error::ProgramError;
use crate::pubkey::Pubkey;

verus! {

// Each operation is a guarded state transition: a spec function gives the
// whole transition as a value — either the updated account views or the
// error of the first failing precondition — and the executable function is
// proved to return exactly that transition, leaving every account untouched
// on failure.

/// The campaign-creation transition: validates the creator's signature, the
/// program's ownership of the storage account, the payload, the admin
/// identity, and the balance floor, then stores the record with its donated
/// amount reset to zero. Only the storage account changes.
pub open spec fn create_spec(
    pid: Seq<u8>,
    w: AccountView,
    c: AccountView,
    payload: Seq<u8>,
    floor: u64,
) -> Result<AccountView, ProgramError> {
    if !c.is_signer {
        Err(ProgramError::Authorization)
    } else if w.owner != pid {
        Err(ProgramError::Ownership)
    } else {
        match decode_campaign_bytes(payload) {
            None => Err(ProgramError::Decode),
            Some(rec) => if rec.admin != c.key {
                Err(ProgramError::MalformedInstruction)
            } else if w.lamports < floor {
                Err(ProgramError::InsufficientFunds)
            } else {
                Ok(
                    AccountView {
                        data: encode_campaign_bytes(CampaignView { amount_donated: 0, ..rec }),
                        ..w
                    },
                )
            },
        }
    }
}

/// The withdrawal transition: validates ownership, the admin's signature and
/// identity, the request payload, and the balance floor, then moves the
/// requested amount from the campaign account to the admin account.
pub open spec fn withdraw_spec(
    pid: Seq<u8>,
    w: AccountView,
    a: AccountView,
    payload: Seq<u8>,
    floor: u64,
) -> Result<(AccountView, AccountView), ProgramError> {
    if w.owner != pid {
        Err(ProgramError::Ownership)
    } else if !a.is_signer {
        Err(ProgramError::Authorization)
    } else {
        match decode_campaign_bytes(w.data) {
            None => Err(ProgramError::Decode),
            Some(rec) => if rec.admin != a.key {
                Err(ProgramError::Authorization)
            } else {
                match decode_withdraw_bytes(payload) {
                    None => Err(ProgramError::Decode),
                    Some(req) => if w.lamports - floor < req.amount {
                        Err(ProgramError::InsufficientFunds)
                    } else {
                        Ok(
                            (
                                AccountView { lamports: (w.lamports - req.amount) as u64, ..w },
                                AccountView { lamports: (a.lamports + req.amount) as u64, ..a },
                            ),
                        )
                    },
                }
            },
        }
    }
}

/// The donation transition: validates ownership of the campaign and staging
/// accounts and the donator's signature, then moves the staging account's
/// whole balance into the campaign account and adds it to the stored
/// record's donated total.
pub open spec fn donate_spec(
    pid: Seq<u8>,
    w: AccountView,
    staging: AccountView,
    donator: AccountView,
) -> Result<(AccountView, AccountView), ProgramError> {
    if w.owner != pid {
        Err(ProgramError::Ownership)
    } else if staging.owner != pid {
        Err(ProgramError::Ownership)
    } else if !donator.is_signer {
        Err(ProgramError::Authorization)
    } else {
        match decode_campaign_bytes(w.data) {
            None => Err(ProgramError::Decode),
            Some(rec) => Ok(
                (
                    AccountView {
                        lamports: (w.lamports + staging.lamports) as u64,
                        data: encode_campaign_bytes(
                            CampaignView {
                                amount_donated: (rec.amount_donated + staging.lamports) as u64,
                                ..rec
                            },
                        ),
                        ..w
                    },
                    AccountView { lamports: 0, ..staging },
                ),
            ),
        }
    }
}

/// The machine limit on a withdrawal: where the transition succeeds, the
/// admin's balance plus the requested amount must still fit in 64 bits.
pub open spec fn withdraw_fits(
    pid: Seq<u8>,
    w: AccountView,
    a: AccountView,
    payload: Seq<u8>,
    floor: u64,
) -> bool {
    match decode_withdraw_bytes(payload) {
        Some(req) => withdraw_spec(pid, w, a, payload, floor) is Ok ==> a.lamports + req.amount
            <= u64::MAX,
        None => true,
    }
}

/// The machine limit on a donation: where the transition succeeds, both the
/// campaign balance and the stored donated total plus the staging balance
/// must still fit in 64 bits.
pub open spec fn donate_fits(
    pid: Seq<u8>,
    w: AccountView,
    staging: AccountView,
    donator: AccountView,
) -> bool {
    match decode_campaign_bytes(w.data) {
        Some(rec) => donate_spec(pid, w, staging, donator) is Ok ==> {
            &&& rec.amount_donated + staging.lamports <= u64::MAX
            &&& w.lamports + staging.lamports <= u64::MAX
        },
        None => true,
    }
}

/// Creates (or deliberately re-initializes) a campaign in `writing_account`'s
/// data buffer, exactly as [`create_spec`] describes; on failure the account
/// is returned untouched.
pub fn create_campaign(
    program_id: &Pubkey,
    writing_account: &mut Account,
    creator_account: &Account,
    instruction_data: &[u8],
    rent_floor: u64,
) -> (r: Result<(), ProgramError>)
    ensures
        (match r {
            Ok(()) => create_spec(
                program_id@,
                old(writing_account)@,
                creator_account@,
                instruction_data@,
                rent_floor,
            ) == Ok::<AccountView, ProgramError>(final(writing_account)@),
            Err(e) => create_spec(
                program_id@,
                old(writing_account)@,
                creator_account@,
                instruction_data@,
                rent_floor,
            ) == Err::<AccountView, ProgramError>(e) && *final(writing_account) == *old(writing_account),
        }),
{
    if !creator_account.is_signer {
        return Err(ProgramError::Authorization);
    }
    if !(writing_account.owner == *program_id) {
        return Err(ProgramError::Ownership);
    }
    let mut record = match decode_campaign(instruction_data) {
        None => {
            return Err(ProgramError::Decode);
        },
        Some(rec) => rec,
    };
    if !(record.admin == creator_account.key) {
        return Err(ProgramError::MalformedInstruction);
    }
    if writing_account.lamports < rent_floor {
        return Err(ProgramError::InsufficientFunds);
    }
    let ghost decoded = record@;
    record.amount_donated = 0;
    proof {
        assert(record@ =~= (CampaignView { amount_donated: 0, ..decoded }));
    }
    let encoded = encode_campaign(&record);
    writing_account.data = encoded;
    proof {
        assert(writing_account@ =~= (AccountView {
            data: encode_campaign_bytes(CampaignView { amount_donated: 0, ..decoded }),
            ..old(writing_account)@
        }));
    }
    Ok(())
}

/// Moves the requested amount from the campaign account to its admin's
/// account, exactly as [`withdraw_spec`] describes; on failure both accounts
/// are returned untouched.
pub fn withdraw(
    program_id: &Pubkey,
    writing_account: &mut Account,
    admin_account: &mut Account,
    instruction_data: &[u8],
    rent_floor: u64,
) -> (r: Result<(), ProgramError>)
    requires
        withdraw_fits(
            program_id@,
            old(writing_account)@,
            old(admin_account)@,
            instruction_data@,
            rent_floor,
        ),
    ensures
        (match r {
            Ok(()) => withdraw_spec(
                program_id@,
                old(writing_account)@,
                old(admin_account)@,
                instruction_data@,
                rent_floor,
            ) == Ok::<(AccountView, AccountView), ProgramError>(
                (final(writing_account)@, final(admin_account)@),
            ),
            Err(e) => withdraw_spec(
                program_id@,
                old(writing_account)@,
                old(admin_account)@,
                instruction_data@,
                rent_floor,
            ) == Err::<(AccountView, AccountView), ProgramError>(e) && *final(writing_account) == *old(writing_account) && *final(admin_account) == *old(admin_account),
        }),
{
    if !(writing_account.owner == *program_id) {
        return Err(ProgramError::Ownership);
    }
    if !admin_account.is_signer {
        return Err(ProgramError::Authorization);
    }
    let campaign = match decode_campaign(writing_account.data.as_slice()) {
        None => {
            return Err(ProgramError::Decode);
        },
        Some(rec) => rec,
    };
    if !(campaign.admin == admin_account.key) {
        return Err(ProgramError::Authorization);
    }
    let request = match decode_withdraw(instruction_data) {
        None => {
            return Err(ProgramError::Decode);
        },
        Some(req) => req,
    };
    if writing_account.lamports < rent_floor || writing_account.lamports - rent_floor
        < request.amount {
        return Err(ProgramError::InsufficientFunds);
    }
    writing_account.lamports = writing_account.lamports - request.amount;
    admin_account.lamports = admin_account.lamports + request.amount;
    proof {
        assert(writing_account@ =~= (AccountView {
            lamports: (old(writing_account)@.lamports - request.amount) as u64,
            ..old(writing_account)@
        }));
        assert(admin_account@ =~= (AccountView {
            lamports: (old(admin_account)@.lamports + request.amount) as u64,
            ..old(admin_account)@
        }));
    }
    Ok(())
}

/// Moves the staging account's whole balance into the campaign account and
/// its stored donated total, exactly as [`donate_spec`] describes; on failure
/// both mutable accounts are returned untouched.
pub fn donate(
    program_id: &Pubkey,
    writing_account: &mut Account,
    donator_program_account: &mut Account,
    donator: &Account,
) -> (r: Result<(), ProgramError>)
    requires
        donate_fits(
            program_id@,
            old(writing_account)@,
            old(donator_program_account)@,
            donator@,
        ),
    ensures
        (match r {
            Ok(()) => donate_spec(
                program_id@,
                old(writing_account)@,
                old(donator_program_account)@,
                donator@,
            ) == Ok::<(AccountView, AccountView), ProgramError>(
                (final(writing_account)@, final(donator_program_account)@),
            ),
            Err(e) => donate_spec(
                program_id@,
                old(writing_account)@,
                old(donator_program_account)@,
                donator@,
            ) == Err::<(AccountView, AccountView), ProgramError>(e) && *final(writing_account) == *old(writing_account) && *final(donator_program_account) == *old(donator_program_account),
        }),
{
    if !(writing_account.owner == *program_id) {
        return Err(ProgramError::Ownership);
    }
    if !(donator_program_account.owner == *program_id) {
        return Err(ProgramError::Ownership);
    }
    if !donator.is_signer {
        return Err(ProgramError::Authorization);
    }
    let mut campaign = match decode_campaign(writing_account.data.as_slice()) {
        None => {
            return Err(ProgramError::Decode);
        },
        Some(rec) => rec,
    };
    let ghost decoded = campaign@;
    campaign.amount_donated = campaign.amount_donated + donator_program_account.lamports;
    writing_account.lamports = writing_account.lamports + donator_program_account.lamports;
    donator_program_account.lamports = 0;
    proof {
        assert(campaign@ =~= (CampaignView {
            amount_donated: (decoded.amount_donated + old(donator_program_account)@.lamports) as u64,
            ..decoded
        }));
    }
    let encoded = encode_campaign(&campaign);
    writing_account.data = encoded;
    proof {
        assert(writing_account@ =~= (AccountView {
            lamports: (old(writing_account)@.lamports
                + old(donator_program_account)@.lamports) as u64,
            data: encode_campaign_bytes(
                CampaignView {
                    amount_donated: (decoded.amount_donated
                        + old(donator_program_account)@.lamports) as u64,
                    ..decoded
                },
            ),
            ..old(writing_account)@
        }));
        assert(donator_program_account@ =~= (AccountView {
            lamports: 0,
            ..old(donator_program_account)@
        }));
    }
    Ok(())
}

/// Law: a campaign that creation stores always records zero donations —
/// whatever donated amount the candidate record carried — and records the
/// creator as its admin.
pub proof fn lemma_create_zeroes_donations(
    pid: Seq<u8>,
    w: AccountView,
    c: AccountView,
    payload: Seq<u8>,
    floor: u64,
)
    ensures
        create_spec(pid, w, c, payload, floor) matches Ok(w2)
            ==> decode_campaign_bytes(payload) matches Some(rec) && decode_campaign_bytes(w2.data)
            == Some(CampaignView { amount_donated: 0, ..rec }) && rec.admin == c.key,
{
    if create_spec(pid, w, c, payload, floor) is Ok {
        match decode_campaign_bytes(payload) {
            Some(rec) => {
                lemma_decoded_campaign_wf(payload);
                lemma_campaign_round_trip(CampaignView { amount_donated: 0, ..rec });
            },
            None => {},
        }
    }
}

/// Law: creation without the creator's signature fails with an authorization
/// error, whatever the rest of the input looks like.
pub proof fn lemma_create_requires_signer(
    pid: Seq<u8>,
    w: AccountView,
    c: AccountView,
    payload: Seq<u8>,
    floor: u64,
)
    ensures
        !c.is_signer ==> create_spec(pid, w, c, payload, floor) == Err::<
            AccountView,
            ProgramError,
        >(ProgramError::Authorization),
{
}

/// Law: creation whose decoded admin differs from the creator's identifier is
/// rejected as malformed, even when every other precondition holds.
pub proof fn lemma_create_rejects_admin_mismatch(
    pid: Seq<u8>,
    w: AccountView,
    c: AccountView,
    payload: Seq<u8>,
    floor: u64,
)
    ensures
        c.is_signer && w.owner == pid && (decode_campaign_bytes(payload) matches Some(rec)
            && rec.admin != c.key) ==> create_spec(pid, w, c, payload, floor) == Err::<
            AccountView,
            ProgramError,
        >(ProgramError::MalformedInstruction),
{
}

/// Law: with a valid campaign whose admin signs, a withdrawal of `amount`
/// succeeds exactly when the balance minus the floor covers it, and then the
/// campaign account loses and the admin account gains exactly that amount.
pub proof fn lemma_withdraw_exact(
    pid: Seq<u8>,
    w: AccountView,
    a: AccountView,
    payload: Seq<u8>,
    floor: u64,
    rec: CampaignView,
    req: WithdrawRequest,
)
    requires
        w.owner == pid,
        a.is_signer,
        decode_campaign_bytes(w.data) == Some(rec),
        rec.admin == a.key,
        decode_withdraw_bytes(payload) == Some(req),
    ensures
        withdraw_spec(pid, w, a, payload, floor) is Ok <==> w.lamports - floor >= req.amount,
        w.lamports - floor >= req.amount ==> withdraw_spec(pid, w, a, payload, floor) == Ok::<
            (AccountView, AccountView),
            ProgramError,
        >(
            (
                AccountView { lamports: (w.lamports - req.amount) as u64, ..w },
                AccountView { lamports: (a.lamports + req.amount) as u64, ..a },
            ),
        ),
{
}

/// Law: a withdrawal attempted by a signer who is not the campaign's admin is
/// rejected with an authorization error, so the transition changes nothing.
pub proof fn lemma_withdraw_non_admin_rejected(
    pid: Seq<u8>,
    w: AccountView,
    a: AccountView,
    payload: Seq<u8>,
    floor: u64,
    rec: CampaignView,
)
    requires
        w.owner == pid,
        a.is_signer,
        decode_campaign_bytes(w.data) == Some(rec),
        rec.admin != a.key,
    ensures
        withdraw_spec(pid, w, a, payload, floor) == Err::<
            (AccountView, AccountView),
            ProgramError,
        >(ProgramError::Authorization),
{
}

/// Law: a donation from a staging account with balance `d` adds `d` to both
/// the campaign account's balance and the stored donated total, and leaves
/// the staging account empty.
pub proof fn lemma_donate_effects(
    pid: Seq<u8>,
    w: AccountView,
    staging: AccountView,
    donator: AccountView,
    rec: CampaignView,
)
    requires
        w.owner == pid,
        staging.owner == pid,
        donator.is_signer,
        decode_campaign_bytes(w.data) == Some(rec),
        rec.amount_donated + staging.lamports <= u64::MAX,
        w.lamports + staging.lamports <= u64::MAX,
    ensures
        donate_spec(pid, w, staging, donator) matches Ok(pair) && pair.0.lamports == w.lamports
            + staging.lamports && pair.1.lamports == 0 && decode_campaign_bytes(pair.0.data)
            == Some(
            CampaignView {
                amount_donated: (rec.amount_donated + staging.lamports) as u64,
                ..rec
            },
        ),
{
    lemma_decoded_campaign_wf(w.data);
    lemma_campaign_round_trip(
        CampaignView { amount_donated: (rec.amount_donated + staging.lamports) as u64, ..rec },
    );
}

/// Law: a donation never changes the stored admin, name, description, or
/// image link, and never decreases the stored donated total; only the totals
/// move.
pub proof fn lemma_donate_preserves_identity(
    pid: Seq<u8>,
    w: AccountView,
    staging: AccountView,
    donator: AccountView,
    rec: CampaignView,
)
    requires
        decode_campaign_bytes(w.data) == Some(rec),
        rec.amount_donated + staging.lamports <= u64::MAX,
    ensures
        donate_spec(pid, w, staging, donator) matches Ok(pair)
            ==> decode_campaign_bytes(pair.0.data) matches Some(stored) && stored.admin
            == rec.admin && stored.name == rec.name && stored.description == rec.description
            && stored.image_link == rec.image_link && stored.amount_donated
            >= rec.amount_donated,
{
    lemma_decoded_campaign_wf(w.data);
    lemma_campaign_round_trip(
        CampaignView { amount_donated: (rec.amount_donated + staging.lamports) as u64, ..rec },
    );
}

/// Law: a donation through a staging account that the program does not own is
/// rejected with an ownership error, so the transition changes nothing.
pub proof fn lemma_donate_unowned_staging_rejected(
    pid: Seq<u8>,
    w: AccountView,
    staging: AccountView,
    donator: AccountView,
)
    requires
        staging.owner != pid,
    ensures
        donate_spec(pid, w, staging, donator) == Err::<
            (AccountView, AccountView),
            ProgramError,
        >(ProgramError::Ownership),
{
}

} // verus!
