use vstd::prelude::*;

verus! {

/// Every way an operation can be rejected. All are recoverable validation
/// failures returned to the caller; no operation partially mutates state
/// before failing.
#[derive(Clone, Copy, Debug, PartialEq, Eq, Structural)]
pub enum ContractError {
    /// The caller of a privileged operation is not the admin.
    Unauthorized {},
    /// The caller already has a guess recorded in the current round.
    PlayerAlreadyInGame {},
    /// A guess arrived while the round was already finished.
    FinishedGame {},
    /// The guess lies outside 0..=100.
    NumberOutOfRange {},
    /// The round was asked to end with no recorded guesses, so no winner
    /// can be resolved.
    NoParticipants {},
}

} // verus!
