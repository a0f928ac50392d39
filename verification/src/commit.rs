//! Committing state from a temporary execution context.

use crate::account::AccountRef;
use crate::error::ProtocolError;
use vstd::prelude::*;

verus! {

/// The account with which a state commit is acknowledged.
#[derive(Clone, Copy, Debug, PartialEq, Eq)]
pub struct UpdateCommit {
    /// Who pays for the call.
    pub payer: AccountRef,
}

/// What `update_commit` returns under `ctx`.
pub open spec fn update_commit_result(ctx: UpdateCommit) -> Result<(), ProtocolError> {
    if !ctx.payer.is_signer {
        Err(ProtocolError::MissingSigner)
    } else if !ctx.payer.is_writable {
        Err(ProtocolError::NotWritable)
    } else {
        Ok(())
    }
}

/// Acknowledges a state commit. The entry point has nothing to do but to
/// check its payer: it succeeds where the payer signed and can be written.
pub fn update_commit(ctx: &UpdateCommit) -> (res: Result<(), ProtocolError>)
    ensures
        res == update_commit_result(*ctx),
{
    if !ctx.payer.is_signer {
        Err(ProtocolError::MissingSigner)
    } else if !ctx.payer.is_writable {
        Err(ProtocolError::NotWritable)
    } else {
        Ok(())
    }
}

} // verus!
