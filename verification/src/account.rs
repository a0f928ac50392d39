//! The records that the entry points read and change.

use vstd::prelude::*;

verus! {

/// Number of bytes in an address.
pub const ADDRESS_BYTES: usize = 32;

/// What a call shows of one account handed to it.
#[derive(Clone, Copy, Debug, PartialEq, Eq)]
pub struct AccountRef {
    /// The account's address.
    pub key: [u8; 32],
    /// The program that owns the account.
    pub owner: [u8; 32],
    /// Whether the account signed the call.
    pub is_signer: bool,
    /// Whether the call may change the account.
    pub is_writable: bool,
    /// Whether the account holds a program.
    pub executable: bool,
}

/// The requester's record of one identity: the salt of its address and the
/// latest answer delivered to it.
#[derive(Clone, Debug, PartialEq, Eq)]
pub struct UserAccount {
    /// The salt with which the record's address was derived.
    pub bump: u8,
    /// The most recent answer; empty until the first one arrives.
    pub last_response: String,
}

/// A `UserAccount` as a mathematical value.
pub struct UserAccountView {
    pub bump: u8,
    pub last_response: Seq<char>,
}

impl View for UserAccount {
    type V = UserAccountView;

    open spec fn view(&self) -> UserAccountView {
        UserAccountView { bump: self.bump, last_response: self.last_response@ }
    }
}

impl Default for UserAccount {
    /// The record as a fresh allocation holds it: salt zero, no answer.
    fn default() -> (account: UserAccount)
        ensures
            account@ == (UserAccountView { bump: 0, last_response: Seq::empty() }),
    {
        UserAccount { bump: 0, last_response: String::new() }
    }
}

/// The place of a user record on the ledger: the account, and the record in
/// it once one was created.
#[derive(Clone, Debug, PartialEq, Eq)]
pub struct UserAccountEntry {
    /// The account that holds, or will hold, the record.
    pub info: AccountRef,
    /// The record; `None` while the account holds no data.
    pub data: Option<UserAccount>,
}

/// The notice that an answer was delivered.
#[derive(Clone, Debug, PartialEq, Eq)]
pub struct AgentEvent {
    /// The answer.
    pub response: String,
}

impl View for AgentEvent {
    type V = Seq<char>;

    open spec fn view(&self) -> Seq<char> {
        self.response@
    }
}

/// Whether `address` is the system program's: thirty-two zero bytes.
pub open spec fn is_system_address(address: Seq<u8>) -> bool {
    address.len() == ADDRESS_BYTES && forall|i: int| 0 <= i < address.len() ==> address[i] == 0
}

/// Compares two addresses byte by byte.
pub fn same_address(a: &[u8; 32], b: &[u8; 32]) -> (same: bool)
    ensures
        same == (a@ == b@),
{
    let mut i: usize = 0;
    while i < ADDRESS_BYTES
        invariant
            i <= ADDRESS_BYTES,
            forall|j: int| 0 <= j < i ==> a@[j] == b@[j],
        decreases ADDRESS_BYTES - i,
    {
        if a[i] != b[i] {
            return false;
        }
        i += 1;
    }
    assert(a@ =~= b@);
    true
}

/// Tells whether `address` is the system program's.
pub fn is_system_program(address: &[u8; 32]) -> (system: bool)
    ensures
        system == is_system_address(address@),
{
    let mut i: usize = 0;
    while i < ADDRESS_BYTES
        invariant
            i <= ADDRESS_BYTES,
            forall|j: int| 0 <= j < i ==> address@[j] == 0,
        decreases ADDRESS_BYTES - i,
    {
        if address[i] != 0 {
            return false;
        }
        i += 1;
    }
    true
}

} // verus!
