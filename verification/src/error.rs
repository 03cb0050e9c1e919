//! The error taxonomy shared by every operation of the proxy.

use vstd::prelude::*;

verus! {

/// Every way an operation of the proxy can refuse to act. Each operation's
/// contract states exactly which inputs produce which variant; an error
/// always leaves the state unchanged.
#[derive(Clone, Copy, Debug, PartialEq, Eq, Structural)]
pub enum ContractError {
    ErrUnauthorized,
    ErrInvalidInput,
    ErrInvalidAmount,
    ErrAlreadyPaid,
    ErrNotFound,
    ErrAlreadyBound,
    ErrRemoteAlreadyUsed,
    ErrRulingAlreadySet,
    ErrRulingMissing,
    ErrAlreadyExecuted,
    ErrConfigMissing,
    ErrRemoteMissing,
}

} // verus!
