use vstd::prelude::*;

use vstd::slice::{slice_index_get, slice_subrange};

use crate::account::{account_views, Account, AccountView};
use crate::error::ProgramError;
use crate::ops::{
    create_campaign, create_spec, donate, donate_fits, donate_spec, withdraw, withdraw_fits,
    withdraw_spec,
};
use crate::pubkey::Pubkey;

verus! {

/// The envelope tag that selects campaign creation.
pub const TAG_CREATE: u8 = 0;

/// The envelope tag that selects a withdrawal.
pub const TAG_WITHDRAW: u8 = 1;

/// The envelope tag that selects a donation.
pub const TAG_DONATE: u8 = 2;

/// How many accounts the operation behind `tag` reads, in their fixed
/// positional order.
pub open spec fn accounts_required(tag: u8) -> int {
    if tag == TAG_DONATE {
        3
    } else if tag == TAG_CREATE || tag == TAG_WITHDRAW {
        2
    } else {
        0
    }
}

/// The whole dispatch transition: an empty envelope or an unknown tag is
/// malformed; otherwise the tag's operation runs on the accounts at its fixed
/// positions with the remaining bytes as payload, and the result is the
/// account list with the operation's updates in place.
pub open spec fn process_spec(
    pid: Seq<u8>,
    accs: Seq<AccountView>,
    data: Seq<u8>,
    floor: u64,
) -> Result<Seq<AccountView>, ProgramError>
    recommends
        data.len() > 0 ==> accs.len() >= accounts_required(data[0]),
{
    if data.len() == 0 {
        Err(ProgramError::MalformedInstruction)
    } else {
        let payload = data.subrange(1, data.len() as int);
        if data[0] == TAG_CREATE {
            match create_spec(pid, accs[0], accs[1], payload, floor) {
                Ok(w) => Ok(accs.update(0, w)),
                Err(e) => Err(e),
            }
        } else if data[0] == TAG_WITHDRAW {
            match withdraw_spec(pid, accs[0], accs[1], payload, floor) {
                Ok(pair) => Ok(accs.update(0, pair.0).update(1, pair.1)),
                Err(e) => Err(e),
            }
        } else if data[0] == TAG_DONATE {
            match donate_spec(pid, accs[0], accs[1], accs[2]) {
                Ok(pair) => Ok(accs.update(0, pair.0).update(1, pair.1)),
                Err(e) => Err(e),
            }
        } else {
            Err(ProgramError::MalformedInstruction)
        }
    }
}

/// What a caller owes the dispatcher: accounts supplied in the protocol's
/// positional order and count for the selected operation, and balances whose
/// success-path sums fit the 64-bit balance fields.
pub open spec fn process_pre(
    pid: Seq<u8>,
    accs: Seq<AccountView>,
    data: Seq<u8>,
    floor: u64,
) -> bool {
    data.len() > 0 ==> {
        let payload = data.subrange(1, data.len() as int);
        &&& accs.len() >= accounts_required(data[0])
        &&& data[0] == TAG_WITHDRAW ==> withdraw_fits(pid, accs[0], accs[1], payload, floor)
        &&& data[0] == TAG_DONATE ==> donate_fits(pid, accs[0], accs[1], accs[2])
    }
}

/// Routes one instruction envelope to its operation, exactly as
/// [`process_spec`] describes: on success the accounts at the operation's
/// positions carry the transition's updates, and on failure every account is
/// returned exactly as supplied.
pub fn process_instruction(
    program_id: &Pubkey,
    accounts: &mut Vec<Account>,
    instruction_data: &[u8],
    rent_floor: u64,
) -> (r: Result<(), ProgramError>)
    requires
        process_pre(program_id@, account_views(old(accounts)@), instruction_data@, rent_floor),
    ensures
        (match r {
            Ok(()) => process_spec(
                program_id@,
                account_views(old(accounts)@),
                instruction_data@,
                rent_floor,
            ) == Ok::<Seq<AccountView>, ProgramError>(account_views(final(accounts)@)),
            Err(e) => process_spec(
                program_id@,
                account_views(old(accounts)@),
                instruction_data@,
                rent_floor,
            ) == Err::<Seq<AccountView>, ProgramError>(e) && final(accounts)@ == old(accounts)@,
        }),
{
    if instruction_data.len() == 0 {
        return Err(ProgramError::MalformedInstruction);
    }
    let tag = *slice_index_get(instruction_data, 0);
    let payload = slice_subrange(instruction_data, 1, instruction_data.len());
    if tag == TAG_CREATE {
        let mut writing = accounts.remove(0);
        let result = create_campaign(program_id, &mut writing, &accounts[0], payload, rent_floor);
        accounts.insert(0, writing);
        proof {
            if result is Ok {
                assert(account_views(accounts@) =~= account_views(old(accounts)@).update(
                    0,
                    writing@,
                ));
            } else {
                assert(accounts@ =~= old(accounts)@);
            }
        }
        result
    } else if tag == TAG_WITHDRAW {
        let mut writing = accounts.remove(0);
        let mut admin = accounts.remove(0);
        let result = withdraw(program_id, &mut writing, &mut admin, payload, rent_floor);
        accounts.insert(0, admin);
        accounts.insert(0, writing);
        proof {
            if result is Ok {
                assert(account_views(accounts@) =~= account_views(old(accounts)@).update(
                    0,
                    writing@,
                ).update(1, admin@));
            } else {
                assert(accounts@ =~= old(accounts)@);
            }
        }
        result
    } else if tag == TAG_DONATE {
        let mut writing = accounts.remove(0);
        let mut staging = accounts.remove(0);
        let result = donate(program_id, &mut writing, &mut staging, &accounts[0]);
        accounts.insert(0, staging);
        accounts.insert(0, writing);
        proof {
            if result is Ok {
                assert(account_views(accounts@) =~= account_views(old(accounts)@).update(
                    0,
                    writing@,
                ).update(1, staging@));
            } else {
                assert(accounts@ =~= old(accounts)@);
            }
        }
        result
    } else {
        Err(ProgramError::MalformedInstruction)
    }
}

} // verus!
