//! Asking the oracle.
//!
//! The requester checks the accounts it was given, derives the selector of
//! its own callback and puts together the one call that goes out to the
//! oracle program. Nothing of the requester's own state changes: the pending
//! interaction belongs to the oracle, which fills it when it takes the call.

use crate::account::{is_system_address, is_system_program, same_address, AccountRef};
use crate::error::ProtocolError;
use crate::selector::{get_sighash, sighash, GLOBAL_NAMESPACE};
use vstd::prelude::*;
use vstd::string::StringSliceAdditionalSpecFns;

verus! {

/// The name of the entry point on which the requester takes the answer.
pub const CALLBACK_NAME: &'static str = "receive_answer";

/// The most bytes of data that one call from program to program can carry.
pub const MAX_INSTRUCTION_DATA_BYTES: usize = 10240;

/// The bytes that a request carries besides the question: the selector of the
/// oracle's entry point (8), the question's length (4), the caller's program
/// address (32), the callback selector (8) and the mark that no routing data
/// follows (1).
pub const REQUEST_OVERHEAD_BYTES: usize = 53;

/// The accounts and addresses with which a question is asked.
#[derive(Clone, Copy, Debug, PartialEq, Eq)]
pub struct AskOracle {
    /// The address under which the requesting program itself is deployed.
    pub program_id: [u8; 32],
    /// The address under which the oracle program is deployed.
    pub oracle_id: [u8; 32],
    /// Who asks, and pays for the pending interaction.
    pub payer: AccountRef,
    /// The slot of the pending interaction. The oracle creates and manages
    /// it; the requester hands it on untouched.
    pub interaction: AccountRef,
    /// The shared context under which the question is asked.
    pub llm_context: AccountRef,
    /// The program that is called.
    pub oracle_program: AccountRef,
    /// The system program.
    pub system_program: AccountRef,
}

/// One account that the oracle is asked to hand on to the callback.
#[derive(Clone, Copy, Debug, PartialEq, Eq)]
pub struct CallbackAccountMeta {
    pub pubkey: [u8; 32],
    pub is_signer: bool,
    pub is_writable: bool,
}

/// The call that goes out to the oracle program: the accounts it names and
/// the payload it carries.
#[derive(Clone, Debug, PartialEq, Eq)]
pub struct OracleRequest {
    /// The program that is called.
    pub oracle_program: [u8; 32],
    /// Signer, writable.
    pub payer: [u8; 32],
    /// Writable.
    pub interaction: [u8; 32],
    /// Read-only.
    pub context_account: [u8; 32],
    /// The system program.
    pub system_program: [u8; 32],
    /// The question.
    pub text: String,
    /// The program that the oracle calls back.
    pub callback_program_id: [u8; 32],
    /// The selector of the entry point that the oracle calls back.
    pub callback_discriminator: [u8; 8],
    /// Further accounts for the callback, if any.
    pub account_metas: Option<Vec<CallbackAccountMeta>>,
}

/// Whether a question of `question_bytes` bytes fits into one request.
pub open spec fn question_fits(question_bytes: nat) -> bool {
    question_bytes + REQUEST_OVERHEAD_BYTES <= MAX_INSTRUCTION_DATA_BYTES
}

/// The selector that every request names for the callback.
pub open spec fn callback_selector() -> Seq<u8> {
    sighash(GLOBAL_NAMESPACE.spec_bytes(), CALLBACK_NAME.spec_bytes())
}

/// Why `ask_oracle` refuses `question` under `ctx`; `None` where it does not.
/// The checks are made in this order, and the first that fails decides.
pub open spec fn ask_oracle_refusal(ctx: AskOracle, question: &str) -> Option<ProtocolError> {
    if !ctx.payer.is_signer {
        Some(ProtocolError::MissingSigner)
    } else if !ctx.payer.is_writable || !ctx.interaction.is_writable {
        Some(ProtocolError::NotWritable)
    } else if ctx.oracle_program.key@ != ctx.oracle_id@ || !ctx.oracle_program.executable
        || !is_system_address(ctx.system_program.key@) || !ctx.system_program.executable {
        Some(ProtocolError::WrongProgram)
    } else if !question_fits(question.spec_bytes().len()) {
        Some(ProtocolError::QuestionTooLong)
    } else {
        None
    }
}

/// Whether `request` is the call that `ask_oracle` sends for `question` under
/// `ctx`.
pub open spec fn is_request_for(request: OracleRequest, ctx: AskOracle, question: &str) -> bool {
    &&& request.oracle_program == ctx.oracle_program.key
    &&& request.payer == ctx.payer.key
    &&& request.interaction == ctx.interaction.key
    &&& request.context_account == ctx.llm_context.key
    &&& request.system_program == ctx.system_program.key
    &&& request.text@ == question@
    &&& request.callback_program_id == ctx.program_id
    &&& request.callback_discriminator@ == callback_selector()
    &&& request.account_metas is None
}

/// Puts together the call that asks the oracle `question`.
///
/// The call is refused, and nothing is to be sent, where the payer did not
/// sign, where payer or interaction slot cannot be written, where the program
/// to be called is not the oracle or the system account is not the system
/// program, and where the question is too long for one request. Otherwise the
/// result is the one request to send. It names this program's own address and
/// the selector of its callback, so that the oracle can find its way back.
pub fn ask_oracle(ctx: &AskOracle, question: &str) -> (res: Result<OracleRequest, ProtocolError>)
    ensures
        match res {
            Ok(request) => ask_oracle_refusal(*ctx, question) is None && is_request_for(
                request,
                *ctx,
                question,
            ),
            Err(e) => ask_oracle_refusal(*ctx, question) == Some(e),
        },
        !question_fits(question.spec_bytes().len()) ==> res is Err,
{
    if !ctx.payer.is_signer {
        return Err(ProtocolError::MissingSigner);
    }
    if !ctx.payer.is_writable || !ctx.interaction.is_writable {
        return Err(ProtocolError::NotWritable);
    }
    if !same_address(&ctx.oracle_program.key, &ctx.oracle_id) || !ctx.oracle_program.executable
        || !is_system_program(&ctx.system_program.key) || !ctx.system_program.executable {
        return Err(ProtocolError::WrongProgram);
    }
    if question.as_bytes().len() > MAX_INSTRUCTION_DATA_BYTES - REQUEST_OVERHEAD_BYTES {
        return Err(ProtocolError::QuestionTooLong);
    }
    let callback_discriminator = get_sighash(GLOBAL_NAMESPACE, CALLBACK_NAME);
    Ok(
        OracleRequest {
            oracle_program: ctx.oracle_program.key,
            payer: ctx.payer.key,
            interaction: ctx.interaction.key,
            context_account: ctx.llm_context.key,
            system_program: ctx.system_program.key,
            text: question.to_owned(),
            callback_program_id: ctx.program_id,
            callback_discriminator,
            account_metas: None,
        },
    )
}

/// A question above the size ceiling is refused, whatever the accounts are.
pub proof fn lemma_oversized_question_refused(ctx: AskOracle, question: &str)
    requires
        question.spec_bytes().len() + REQUEST_OVERHEAD_BYTES > MAX_INSTRUCTION_DATA_BYTES,
    ensures
        ask_oracle_refusal(ctx, question) is Some,
{
}

} // verus!
