//! Creating a user record.
//!
//! A record is created once, at the address derived for the payer, and keeps
//! the salt of that derivation. An address that already holds a record, or
//! that a program owns, is never initialized again.

use crate::account::{
    is_system_address, is_system_program, same_address, AccountRef, UserAccount, UserAccountEntry,
    UserAccountView,
};
use crate::address::{find_user_address, user_address, user_bump};
use crate::error::ProtocolError;
use vstd::prelude::*;

verus! {

/// The accounts and addresses with which a user record is created.
#[derive(Clone, Debug, PartialEq, Eq)]
pub struct Initialize {
    /// The address under which the requesting program itself is deployed.
    pub program_id: [u8; 32],
    /// The identity that gets the record, and pays for it.
    pub payer: AccountRef,
    /// Where the record is to be created.
    pub user_account: UserAccountEntry,
    /// The system program.
    pub system_program: AccountRef,
}

/// Whether `entry` is taken: it holds a record, or a program owns it.
pub open spec fn is_taken(entry: UserAccountEntry) -> bool {
    entry.data is Some || !is_system_address(entry.info.owner@)
}

/// Why `initialize` refuses a call under `ctx`; `None` where it does not.
/// The checks are made in this order, and the first that fails decides.
pub open spec fn initialize_refusal(ctx: Initialize) -> Option<ProtocolError> {
    if !ctx.payer.is_signer {
        Some(ProtocolError::MissingSigner)
    } else if !ctx.payer.is_writable || !ctx.user_account.info.is_writable {
        Some(ProtocolError::NotWritable)
    } else if !is_system_address(ctx.system_program.key@) || !ctx.system_program.executable {
        Some(ProtocolError::WrongProgram)
    } else {
        match user_address(ctx.payer.key@, ctx.program_id@) {
            None => Some(ProtocolError::NoDerivedAddress),
            Some((address, bump)) => if address != ctx.user_account.info.key@ {
                Some(ProtocolError::AddressMismatch)
            } else if is_taken(ctx.user_account) {
                Some(ProtocolError::AlreadyInitialized)
            } else {
                None
            },
        }
    }
}

/// What one call of `initialize` does: `before` and `after` are the context
/// before and after it, `res` is what it returned.
///
/// A refused call returns the reason and leaves the context as it was. An
/// admitted call hands the account to this program and puts a record into it
/// that holds the salt of the payer's derived address and no answer yet.
pub open spec fn initialize_post(
    before: Initialize,
    after: Initialize,
    res: Result<(), ProtocolError>,
) -> bool {
    match initialize_refusal(before) {
        Some(e) => res == Err::<(), ProtocolError>(e) && after == before,
        None => {
            &&& res is Ok
            &&& after.program_id == before.program_id
            &&& after.payer == before.payer
            &&& after.system_program == before.system_program
            &&& after.user_account.info == (AccountRef {
                owner: before.program_id,
                ..before.user_account.info
            })
            &&& after.user_account.data matches Some(account) && account@ == (UserAccountView {
                bump: user_bump(before.payer.key@, before.program_id@),
                last_response: Seq::empty(),
            })
        },
    }
}

/// Creates the user record of the payer.
///
/// The call is admitted where the payer signed, payer and account can be
/// written, the system account is the system program, the account sits at the
/// address derived for the payer under this program, and the account is not
/// taken.
pub fn initialize(ctx: &mut Initialize) -> (res: Result<(), ProtocolError>)
    ensures
        initialize_post(*old(ctx), *final(ctx), res),
{
    if !ctx.payer.is_signer {
        return Err(ProtocolError::MissingSigner);
    }
    if !ctx.payer.is_writable || !ctx.user_account.info.is_writable {
        return Err(ProtocolError::NotWritable);
    }
    if !is_system_program(&ctx.system_program.key) || !ctx.system_program.executable {
        return Err(ProtocolError::WrongProgram);
    }
    let (address, bump): ([u8; 32], u8) = match find_user_address(
        &ctx.payer.key,
        &ctx.program_id,
    ) {
        Some(found) => found,
        None => {
            return Err(ProtocolError::NoDerivedAddress);
        },
    };
    if !same_address(&address, &ctx.user_account.info.key) {
        return Err(ProtocolError::AddressMismatch);
    }
    if ctx.user_account.data.is_some() || !is_system_program(&ctx.user_account.info.owner) {
        return Err(ProtocolError::AlreadyInitialized);
    }
    let mut account = UserAccount::default();
    account.bump = bump;
    ctx.user_account.info.owner = ctx.program_id;
    ctx.user_account.data = Some(account);
    Ok(())
}

/// A record is created once: after a successful call, the next call on the
/// same context is refused as already initialized and changes nothing, so the
/// record keeps the salt that the first call gave it.
pub proof fn lemma_initialize_once(
    start: Initialize,
    created: Initialize,
    first_res: Result<(), ProtocolError>,
    end: Initialize,
    second_res: Result<(), ProtocolError>,
)
    requires
        initialize_post(start, created, first_res),
        first_res is Ok,
        initialize_post(created, end, second_res),
    ensures
        second_res == Err::<(), ProtocolError>(ProtocolError::AlreadyInitialized),
        end == created,
        end.user_account.data matches Some(account) && account.bump == user_bump(
            start.payer.key@,
            start.program_id@,
        ),
{
}

/// `initialize` never touches a record that exists: called on an account that
/// holds one, it fails and leaves the context, the stored answer with it, as
/// it was.
pub proof fn lemma_initialize_keeps_record(
    before: Initialize,
    after: Initialize,
    res: Result<(), ProtocolError>,
)
    requires
        initialize_post(before, after, res),
        before.user_account.data is Some,
    ensures
        res is Err,
        after == before,
{
}

} // verus!
