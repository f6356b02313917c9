use vstd::prelude::*;

use crate::pubkey::Pubkey;

verus! {

/// One externally managed account record, as handed to the core for a single
/// invocation.
///
/// The core never creates or destroys accounts; where an operation's
/// preconditions hold it rewrites the balance and, for the campaign account,
/// the data buffer, and otherwise leaves the account exactly as supplied.
#[derive(Clone, Debug)]
pub struct Account {
    /// The account's own public identifier.
    pub key: Pubkey,
    /// The identifier of the program allowed to rewrite this account's data.
    pub owner: Pubkey,
    /// Whether the caller proved control of this account's private authority
    /// for this invocation.
    pub is_signer: bool,
    /// The account's balance in indivisible currency units.
    pub lamports: u64,
    /// The account's opaque data buffer.
    pub data: Vec<u8>,
}

/// The mathematical value of an [`Account`]: every field as a plain sequence
/// or scalar.
#[verifier::ext_equal]
pub ghost struct AccountView {
    pub key: Seq<u8>,
    pub owner: Seq<u8>,
    pub is_signer: bool,
    pub lamports: u64,
    pub data: Seq<u8>,
}

impl View for Account {
    type V = AccountView;

    open spec fn view(&self) -> AccountView {
        AccountView {
            key: self.key@,
            owner: self.owner@,
            is_signer: self.is_signer,
            lamports: self.lamports,
            data: self.data@,
        }
    }
}

/// The mathematical values of an ordered account list.
pub open spec fn account_views(accounts: Seq<Account>) -> Seq<AccountView> {
    accounts.map_values(|a: Account| a@)
}

} // verus!
