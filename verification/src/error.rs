//! Why a call is refused.

use vstd::prelude::*;

verus! {

/// The reason for which an entry point refused a call. A refused call changes
/// nothing.
#[derive(Clone, Copy, Debug, PartialEq, Eq, Structural)]
pub enum ProtocolError {
    /// An account that has to sign the call did not sign it.
    MissingSigner,
    /// An account that the call has to change was not handed over writable.
    NotWritable,
    /// A program account is not the program that the call needs, or cannot be
    /// executed.
    WrongProgram,
    /// No address can be derived for the identity under this program.
    NoDerivedAddress,
    /// The user record does not sit at the address derived for the payer.
    AddressMismatch,
    /// The address already holds a record, or belongs to a program.
    AlreadyInitialized,
    /// The address holds no user record.
    NotInitialized,
    /// The user record belongs to another program.
    WrongOwner,
    /// The signer that delivers the answer is not the identity that this
    /// deployment trusts.
    UntrustedIdentity,
    /// The question does not fit into one request.
    QuestionTooLong,
}

} // verus!
