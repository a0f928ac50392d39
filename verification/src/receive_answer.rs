//! Taking the answer.
//!
//! The oracle delivers an answer by calling the requester back. The callback
//! is the only way in which an answer gets into a user record: it checks who
//! calls and which record is handed over, then replaces the stored answer with
//! the one delivered and reports it in an event. A refused callback changes
//! nothing and reports nothing.

use crate::account::{same_address, AccountRef, AgentEvent, UserAccount, UserAccountEntry, UserAccountView};
use crate::error::ProtocolError;
use vstd::prelude::*;

verus! {

/// The accounts and addresses with which an answer is delivered.
#[derive(Clone, Debug, PartialEq, Eq)]
pub struct ReceiveAnswerContext {
    /// The address under which the requesting program itself is deployed.
    pub program_id: [u8; 32],
    /// The only identity whose answers this deployment takes. With `None` any
    /// identity that signed is taken, and telling the oracle from another
    /// caller is left to the oracle program.
    pub trusted_identity: Option<[u8; 32]>,
    /// Who pays for the call.
    pub payer: AccountRef,
    /// The record that takes the answer.
    pub user_account: UserAccountEntry,
    /// The identity in whose name the answer is delivered.
    pub identity: AccountRef,
}

/// Why `receive_answer` refuses a call under `ctx`; `None` where it does not.
/// The checks are made in this order, and the first that fails decides.
pub open spec fn receive_answer_refusal(ctx: ReceiveAnswerContext) -> Option<ProtocolError> {
    if !ctx.payer.is_signer {
        Some(ProtocolError::MissingSigner)
    } else if !ctx.payer.is_writable {
        Some(ProtocolError::NotWritable)
    } else if ctx.user_account.data is None {
        Some(ProtocolError::NotInitialized)
    } else if ctx.user_account.info.owner@ != ctx.program_id@ {
        Some(ProtocolError::WrongOwner)
    } else if !ctx.user_account.info.is_writable {
        Some(ProtocolError::NotWritable)
    } else if !ctx.identity.is_signer {
        Some(ProtocolError::MissingSigner)
    } else if ctx.trusted_identity matches Some(trusted) && trusted@ != ctx.identity.key@ {
        Some(ProtocolError::UntrustedIdentity)
    } else {
        None
    }
}

/// What one call of `receive_answer` does: `before` and `after` are the
/// context before and after it, `response` the answer handed to it and `res`
/// what it returned.
///
/// A refused call returns the reason and leaves the context as it was. An
/// admitted call returns one event that carries the answer, and replaces the
/// record's stored answer by it; the record's salt and everything else in the
/// context stay.
pub open spec fn receive_answer_post(
    before: ReceiveAnswerContext,
    response: Seq<char>,
    after: ReceiveAnswerContext,
    res: Result<AgentEvent, ProtocolError>,
) -> bool {
    match receive_answer_refusal(before) {
        Some(e) => res == Err::<AgentEvent, ProtocolError>(e) && after == before,
        None => {
            &&& res matches Ok(event) && event@ == response
            &&& after.program_id == before.program_id
            &&& after.trusted_identity == before.trusted_identity
            &&& after.payer == before.payer
            &&& after.identity == before.identity
            &&& after.user_account.info == before.user_account.info
            &&& after.user_account.data matches Some(account) && account@ == (UserAccountView {
                bump: before.user_account.data->0.bump,
                last_response: response,
            })
        },
    }
}

/// Takes the answer `response` into the user record of `ctx`.
///
/// The call is admitted where the payer signed and can be written, the record
/// exists, belongs to this program and can be written, the identity signed,
/// and, where the deployment trusts one identity only, the identity is that
/// one.
pub fn receive_answer(ctx: &mut ReceiveAnswerContext, response: String) -> (res: Result<
    AgentEvent,
    ProtocolError,
>)
    ensures
        receive_answer_post(*old(ctx), response@, *final(ctx), res),
{
    if !ctx.payer.is_signer {
        return Err(ProtocolError::MissingSigner);
    }
    if !ctx.payer.is_writable {
        return Err(ProtocolError::NotWritable);
    }
    let bump: u8 = match &ctx.user_account.data {
        Some(account) => account.bump,
        None => {
            return Err(ProtocolError::NotInitialized);
        },
    };
    if !same_address(&ctx.user_account.info.owner, &ctx.program_id) {
        return Err(ProtocolError::WrongOwner);
    }
    if !ctx.user_account.info.is_writable {
        return Err(ProtocolError::NotWritable);
    }
    if !ctx.identity.is_signer {
        return Err(ProtocolError::MissingSigner);
    }
    match &ctx.trusted_identity {
        Some(trusted) => {
            if !same_address(trusted, &ctx.identity.key) {
                return Err(ProtocolError::UntrustedIdentity);
            }
        },
        None => {},
    }
    ctx.user_account.data = Some(UserAccount { bump, last_response: response.clone() });
    Ok(AgentEvent { response })
}

/// A callback that lacks a signature, the identity's or the payer's, is
/// refused: it returns an error, so no event, and leaves the context, the
/// stored answer with it, as it was.
pub proof fn lemma_unsigned_callback_refused(
    before: ReceiveAnswerContext,
    response: Seq<char>,
    after: ReceiveAnswerContext,
    res: Result<AgentEvent, ProtocolError>,
)
    requires
        receive_answer_post(before, response, after, res),
        !before.identity.is_signer || !before.payer.is_signer,
    ensures
        res is Err,
        after == before,
{
}

/// A callback that fails, for whatever reason, leaves the context as it was.
pub proof fn lemma_failed_callback_changes_nothing(
    before: ReceiveAnswerContext,
    response: Seq<char>,
    after: ReceiveAnswerContext,
    res: Result<AgentEvent, ProtocolError>,
)
    requires
        receive_answer_post(before, response, after, res),
        res is Err,
    ensures
        after == before,
{
}

/// Whether a callback is admitted does not depend on the answer stored: after
/// an admitted callback the next one is admitted too.
pub proof fn lemma_admitted_stays_admitted(
    before: ReceiveAnswerContext,
    response: Seq<char>,
    after: ReceiveAnswerContext,
    res: Result<AgentEvent, ProtocolError>,
)
    requires
        receive_answer_post(before, response, after, res),
        receive_answer_refusal(before) is None,
    ensures
        receive_answer_refusal(after) is None,
{
}

/// Two callbacks in a row on one record, the first of them admitted: both
/// succeed, each returns one event with its own answer, and the record ends
/// with the second answer and the salt it had.
pub proof fn lemma_second_answer_wins(
    start: ReceiveAnswerContext,
    first: Seq<char>,
    between: ReceiveAnswerContext,
    first_res: Result<AgentEvent, ProtocolError>,
    second: Seq<char>,
    end: ReceiveAnswerContext,
    second_res: Result<AgentEvent, ProtocolError>,
)
    requires
        receive_answer_refusal(start) is None,
        receive_answer_post(start, first, between, first_res),
        receive_answer_post(between, second, end, second_res),
    ensures
        first_res matches Ok(event) && event@ == first,
        second_res matches Ok(event) && event@ == second,
        end.user_account.data matches Some(account) && account@ == (UserAccountView {
            bump: start.user_account.data->0.bump,
            last_response: second,
        }),
{
    lemma_admitted_stays_admitted(start, first, between, first_res);
}

} // verus!
