use vstd::prelude::*;

verus! {

/// The failures a lottery operation can report. Every operation validates its
/// inputs against the current record and returns one of these without
/// mutating anything when a check fails.
#[derive(Clone, Copy, Debug, PartialEq, Eq, Structural)]
pub enum ErrorCode {
    /// Initialization parameters violate `start_time < end_time` or
    /// `ticket_price > 0`.
    InvalidConfiguration,
    /// A ticket sale was attempted outside the `[start_time, end_time)` window.
    LotteryNotOpen,
    /// A caller other than the authority attempted an authority-only action.
    Unauthorized,
    /// The randomness timing or identity check failed: the committed value
    /// could already be known, or a different handle was presented at reveal.
    RandomnessAlreadyRevealed,
    /// Reveal was attempted before the sale window closed.
    LotteryNotCompleted,
    /// A commit or reveal was attempted after the winner was already chosen:
    /// a finalized record is read-only.
    WinnerChosen,
    /// The oracle has not yet resolved the committed random value.
    RandomnessNotResolved,
}

} // verus!
