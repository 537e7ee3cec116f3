use vstd::prelude::*;

use crate::errors::ErrorCode;
use crate::guard::{key_eq, AccountKey};
use crate::oracle::{oracle_randomness, parse_randomness};
use crate::record::TokenLottery;

verus! {

/// The winning ticket index derived from a revealed random byte: the byte
/// reduced modulo the number of tickets sold. The reduction is uniform only
/// when the byte's range is a multiple of `total`; the residual bias is a
/// property of this selection rule, kept as it is rather than corrected.
pub open spec fn winner_from(byte: u8, total: u64) -> u64
    recommends
        total > 0,
{
    ((byte as int) % (total as int)) as u64
}

impl TokenLottery {
    /// Whether a reveal attempt passes every record-side check: the caller is
    /// the authority, the presented randomness account is exactly the one
    /// committed earlier, the sale window has closed, and no winner has been
    /// chosen yet.
    pub open spec fn reveal_gate(self, caller: Seq<u8>, rand_key: Seq<u8>, now: u64) -> bool {
        &&& caller == self.authority@
        &&& self.randomness_account matches Some(k) && k@ == rand_key
        &&& now >= self.end_time
        &&& !self.winner_chosen
    }

    /// The record in its terminal state: the winner stored and the lottery
    /// permanently finalized.
    pub open spec fn after_reveal(self, winner: u64) -> TokenLottery {
        TokenLottery { winner, winner_chosen: true, ..self }
    }

    /// Chooses the winner from an already-resolved random value, or records
    /// why it cannot. The checks run in order, each with its own failure:
    /// identity (`Unauthorized`), handle match (`RandomnessAlreadyRevealed`),
    /// window closed (`LotteryNotCompleted`), not yet finalized
    /// (`WinnerChosen`), value resolved (`RandomnessNotResolved`). On success
    /// the winner is the value's first byte modulo the tickets sold, the
    /// record is finalized, and every later reveal fails `WinnerChosen`
    /// without touching the stored winner.
    pub fn reveal_winner_resolved(
        &mut self,
        caller: &AccountKey,
        randomness_key: &AccountKey,
        resolved: Option<Vec<u8>>,
        current_time: u64,
    ) -> (r: Result<u64, ErrorCode>)
        requires
            old(self).wf(),
            resolved matches Some(v) ==> v@.len() > 0,
            old(self).reveal_gate(caller@, randomness_key@, current_time) && resolved is Some
                ==> old(self).total_tickets > 0,
        ensures
            final(self).wf(),
            caller@ != old(self).authority@ ==> r == Err::<u64, ErrorCode>(
                ErrorCode::Unauthorized,
            ) && *final(self) == *old(self),
            caller@ == old(self).authority@ && !(old(self).randomness_account matches Some(k)
                && k@ == randomness_key@) ==> r == Err::<u64, ErrorCode>(
                ErrorCode::RandomnessAlreadyRevealed,
            ) && *final(self) == *old(self),
            caller@ == old(self).authority@ && (old(self).randomness_account matches Some(k)
                && k@ == randomness_key@) && current_time < old(self).end_time ==> r == Err::<
                u64,
                ErrorCode,
            >(ErrorCode::LotteryNotCompleted) && *final(self) == *old(self),
            caller@ == old(self).authority@ && (old(self).randomness_account matches Some(k)
                && k@ == randomness_key@) && current_time >= old(self).end_time && old(self).winner_chosen ==> r == Err::<u64, ErrorCode>(ErrorCode::WinnerChosen) && *final(self)
                == *old(self),
            old(self).reveal_gate(caller@, randomness_key@, current_time) && resolved is None ==> r
                == Err::<u64, ErrorCode>(ErrorCode::RandomnessNotResolved) && *final(self) == *old(self),
            old(self).reveal_gate(caller@, randomness_key@, current_time) ==> (resolved matches
                Some(v) ==> r == Ok::<u64, ErrorCode>(
                winner_from(v@[0], old(self).total_tickets),
            ) && *final(self) == old(self).after_reveal(
                winner_from(v@[0], old(self).total_tickets),
            )),
    {
        if !key_eq(caller, &self.authority) {
            return Err(ErrorCode::Unauthorized);
        }
        let handle_ok = match &self.randomness_account {
            Some(k) => key_eq(k, randomness_key),
            None => false,
        };
        if !handle_ok {
            return Err(ErrorCode::RandomnessAlreadyRevealed);
        }
        if current_time < self.end_time {
            return Err(ErrorCode::LotteryNotCompleted);
        }
        if self.winner_chosen {
            return Err(ErrorCode::WinnerChosen);
        }
        match resolved {
            None => Err(ErrorCode::RandomnessNotResolved),
            Some(value) => {
                let winner: u64 = (value[0] as u64) % self.total_tickets;
                self.winner = winner;
                self.winner_chosen = true;
                Ok(winner)
            },
        }
    }

    /// Reveals the winner straight from the oracle account's raw bytes: once
    /// the record-side checks pass, the account is parsed and its value
    /// resolved at `current_time`; an unresolved value fails
    /// `RandomnessNotResolved` and leaves the record unchanged, so the
    /// attempt can be retried later. Callers that cannot guarantee the bytes
    /// parse, or that tickets were sold, use [`Self::try_reveal_winner`].
    pub fn reveal_winner(
        &mut self,
        caller: &AccountKey,
        randomness_key: &AccountKey,
        data: &Vec<u8>,
        current_time: u64,
    ) -> (r: Result<u64, ErrorCode>)
        requires
            old(self).wf(),
            old(self).reveal_gate(caller@, randomness_key@, current_time) ==> oracle_randomness(
                data@,
            ) is Some,
            old(self).reveal_gate(caller@, randomness_key@, current_time) ==> (oracle_randomness(
                data@,
            ) matches Some(t) && t.1 == current_time ==> old(self).total_tickets > 0),
        ensures
            final(self).wf(),
            caller@ != old(self).authority@ ==> r == Err::<u64, ErrorCode>(
                ErrorCode::Unauthorized,
            ) && *final(self) == *old(self),
            caller@ == old(self).authority@ && !(old(self).randomness_account matches Some(k)
                && k@ == randomness_key@) ==> r == Err::<u64, ErrorCode>(
                ErrorCode::RandomnessAlreadyRevealed,
            ) && *final(self) == *old(self),
            caller@ == old(self).authority@ && (old(self).randomness_account matches Some(k)
                && k@ == randomness_key@) && current_time < old(self).end_time ==> r == Err::<
                u64,
                ErrorCode,
            >(ErrorCode::LotteryNotCompleted) && *final(self) == *old(self),
            caller@ == old(self).authority@ && (old(self).randomness_account matches Some(k)
                && k@ == randomness_key@) && current_time >= old(self).end_time && old(self).winner_chosen ==> r == Err::<u64, ErrorCode>(ErrorCode::WinnerChosen) && *final(self)
                == *old(self),
            old(self).reveal_gate(caller@, randomness_key@, current_time) ==> (oracle_randomness(
                data@,
            ) matches Some(t) ==> {
                &&& t.1 != current_time ==> r == Err::<u64, ErrorCode>(
                    ErrorCode::RandomnessNotResolved,
                ) && *final(self) == *old(self)
                &&& t.1 == current_time ==> r == Ok::<u64, ErrorCode>(
                    winner_from(t.2[0], old(self).total_tickets),
                ) && *final(self) == old(self).after_reveal(
                    winner_from(t.2[0], old(self).total_tickets),
                )
            }),
    {
        if !key_eq(caller, &self.authority) {
            return Err(ErrorCode::Unauthorized);
        }
        let handle_ok = match &self.randomness_account {
            Some(k) => key_eq(k, randomness_key),
            None => false,
        };
        if !handle_ok {
            return Err(ErrorCode::RandomnessAlreadyRevealed);
        }
        if current_time < self.end_time {
            return Err(ErrorCode::LotteryNotCompleted);
        }
        if self.winner_chosen {
            return Err(ErrorCode::WinnerChosen);
        }
        let o = parse_randomness(data).unwrap();
        let resolved = o.resolve(current_time);
        self.reveal_winner_resolved(caller, randomness_key, resolved, current_time)
    }

    /// Like [`Self::reveal_winner`], but tests the oracle account bytes
    /// first: returns `None`, with the record unchanged, when every
    /// record-side check passes yet the bytes are not a well-formed
    /// randomness account, or the value resolves with no ticket sold (so no
    /// winning index exists); otherwise the outcome of the reveal.
    pub fn try_reveal_winner(
        &mut self,
        caller: &AccountKey,
        randomness_key: &AccountKey,
        data: &Vec<u8>,
        current_time: u64,
    ) -> (r: Option<Result<u64, ErrorCode>>)
        requires
            old(self).wf(),
        ensures
            final(self).wf(),
            caller@ != old(self).authority@ ==> r == Some(Err::<u64, ErrorCode>(
                ErrorCode::Unauthorized,
            )) && *final(self) == *old(self),
            caller@ == old(self).authority@ && !(old(self).randomness_account matches Some(k)
                && k@ == randomness_key@) ==> r == Some(Err::<u64, ErrorCode>(
                ErrorCode::RandomnessAlreadyRevealed,
            )) && *final(self) == *old(self),
            caller@ == old(self).authority@ && (old(self).randomness_account matches Some(k)
                && k@ == randomness_key@) && current_time < old(self).end_time ==> r == Some(
                Err::<u64, ErrorCode>(ErrorCode::LotteryNotCompleted),
            ) && *final(self) == *old(self),
            caller@ == old(self).authority@ && (old(self).randomness_account matches Some(k)
                && k@ == randomness_key@) && current_time >= old(self).end_time && old(self).winner_chosen ==> r == Some(Err::<u64, ErrorCode>(ErrorCode::WinnerChosen))
                && *final(self) == *old(self),
            old(self).reveal_gate(caller@, randomness_key@, current_time) && oracle_randomness(
                data@,
            ) is None ==> r is None && *final(self) == *old(self),
            old(self).reveal_gate(caller@, randomness_key@, current_time) ==> (oracle_randomness(
                data@,
            ) matches Some(t) ==> {
                &&& t.1 != current_time ==> r == Some(Err::<u64, ErrorCode>(
                    ErrorCode::RandomnessNotResolved,
                )) && *final(self) == *old(self)
                &&& t.1 == current_time && old(self).total_tickets == 0 ==> r is None && *final(self) == *old(self)
                &&& t.1 == current_time && old(self).total_tickets > 0 ==> r == Some(Ok::<
                    u64,
                    ErrorCode,
                >(winner_from(t.2[0], old(self).total_tickets))) && *final(self) == old(self).after_reveal(winner_from(t.2[0], old(self).total_tickets))
            }),
    {
        if !key_eq(caller, &self.authority) {
            return Some(Err(ErrorCode::Unauthorized));
        }
        let handle_ok = match &self.randomness_account {
            Some(k) => key_eq(k, randomness_key),
            None => false,
        };
        if !handle_ok {
            return Some(Err(ErrorCode::RandomnessAlreadyRevealed));
        }
        if current_time < self.end_time {
            return Some(Err(ErrorCode::LotteryNotCompleted));
        }
        if self.winner_chosen {
            return Some(Err(ErrorCode::WinnerChosen));
        }
        match parse_randomness(data) {
            None => None,
            Some(o) => {
                if current_time == o.reveal_slot && self.total_tickets == 0 {
                    return None;
                }
                Some(self.reveal_winner(caller, randomness_key, data, current_time))
            },
        }
    }
}

} // verus!
