use vstd::prelude::*;

use crate::errors::ErrorCode;
use crate::guard::{key_eq, AccountKey};
use crate::oracle::{oracle_randomness, parse_randomness};
use crate::record::TokenLottery;

verus! {

impl TokenLottery {
    /// Whether a commit by `caller` of randomness fixed at `commit_time` is
    /// accepted at time `now`: only the authority may commit, only while no
    /// winner has been chosen (a finalized record is read-only), and only a
    /// value fixed at exactly the immediately preceding time marker — fixed
    /// before this call could observe it, yet too recent for anyone to have
    /// revealed it already.
    pub open spec fn commit_ok(self, caller: Seq<u8>, commit_time: u64, now: u64) -> bool {
        &&& caller == self.authority@
        &&& !self.winner_chosen
        &&& commit_time + 1 == now
    }

    /// The record after a successful commit: the randomness handle is bound
    /// (rebinding before the reveal is permitted), nothing else changes.
    pub open spec fn after_commit(self, randomness_key: AccountKey) -> TokenLottery {
        TokenLottery { randomness_account: Some(randomness_key), ..self }
    }

    /// Binds the external randomness account `randomness_key`, whose value
    /// was fixed at `commit_time`, to the record. Fails `Unauthorized` unless
    /// `caller` is the authority; `WinnerChosen` once the lottery is
    /// finalized, which no later call may mutate; and
    /// `RandomnessAlreadyRevealed` unless `commit_time` is exactly one time
    /// unit before `current_time`: an older commitment could already have
    /// been revealed, and a commitment not yet fixed could be chosen after
    /// observing the outcome.
    pub fn commit_randomness_at(
        &mut self,
        caller: &AccountKey,
        randomness_key: AccountKey,
        commit_time: u64,
        current_time: u64,
    ) -> (r: Result<(), ErrorCode>)
        requires
            old(self).wf(),
        ensures
            final(self).wf(),
            r is Ok <==> old(self).commit_ok(caller@, commit_time, current_time),
            r is Ok ==> r == Ok::<(), ErrorCode>(()) && *final(self) == old(self).after_commit(
                randomness_key,
            ),
            caller@ != old(self).authority@ ==> r == Err::<(), ErrorCode>(ErrorCode::Unauthorized) && *final(self)
                == *old(self),
            caller@ == old(self).authority@ && old(self).winner_chosen ==> r == Err::<
                (),
                ErrorCode,
            >(ErrorCode::WinnerChosen) && *final(self) == *old(self),
            caller@ == old(self).authority@ && !old(self).winner_chosen && commit_time + 1
                != current_time ==> r == Err::<(), ErrorCode>(
                ErrorCode::RandomnessAlreadyRevealed,
            ) && *final(self) == *old(self),
    {
        if !key_eq(caller, &self.authority) {
            return Err(ErrorCode::Unauthorized);
        }
        if self.winner_chosen {
            return Err(ErrorCode::WinnerChosen);
        }
        if !(commit_time < u64::MAX && commit_time + 1 == current_time) {
            return Err(ErrorCode::RandomnessAlreadyRevealed);
        }
        self.randomness_account = Some(randomness_key);
        Ok(())
    }

    /// Commits randomness straight from the oracle account's raw bytes: once
    /// the caller and the record's state pass, the account is decoded and its
    /// seed slot is held to the timing rule of [`Self::commit_randomness_at`].
    /// Callers that cannot guarantee the bytes decode use
    /// [`Self::try_commit_randomness`].
    pub fn commit_randomness(
        &mut self,
        caller: &AccountKey,
        randomness_key: AccountKey,
        data: &Vec<u8>,
        current_time: u64,
    ) -> (r: Result<(), ErrorCode>)
        requires
            old(self).wf(),
            caller@ == old(self).authority@ && !old(self).winner_chosen ==> oracle_randomness(
                data@,
            ) is Some,
        ensures
            final(self).wf(),
            caller@ != old(self).authority@ ==> r == Err::<(), ErrorCode>(ErrorCode::Unauthorized)
                && *final(self) == *old(self),
            caller@ == old(self).authority@ && old(self).winner_chosen ==> r == Err::<
                (),
                ErrorCode,
            >(ErrorCode::WinnerChosen) && *final(self) == *old(self),
            caller@ == old(self).authority@ && !old(self).winner_chosen ==> (oracle_randomness(
                data@,
            ) matches Some(t) ==> {
                &&& r is Ok <==> t.0 + 1 == current_time
                &&& t.0 + 1 == current_time ==> r == Ok::<(), ErrorCode>(()) && *final(self)
                    == old(self).after_commit(randomness_key)
                &&& t.0 + 1 != current_time ==> r == Err::<(), ErrorCode>(
                    ErrorCode::RandomnessAlreadyRevealed,
                ) && *final(self) == *old(self)
            }),
    {
        if !key_eq(caller, &self.authority) {
            return Err(ErrorCode::Unauthorized);
        }
        if self.winner_chosen {
            return Err(ErrorCode::WinnerChosen);
        }
        let o = parse_randomness(data).unwrap();
        self.commit_randomness_at(caller, randomness_key, o.seed_slot, current_time)
    }

    /// Like [`Self::commit_randomness`], but tests the oracle account bytes
    /// first: returns `None`, with the record unchanged, when the bytes that
    /// would be decoded are not a well-formed randomness account, and
    /// otherwise the outcome of the commit.
    pub fn try_commit_randomness(
        &mut self,
        caller: &AccountKey,
        randomness_key: AccountKey,
        data: &Vec<u8>,
        current_time: u64,
    ) -> (r: Option<Result<(), ErrorCode>>)
        requires
            old(self).wf(),
        ensures
            final(self).wf(),
            caller@ != old(self).authority@ ==> r == Some(Err::<(), ErrorCode>(
                ErrorCode::Unauthorized,
            )) && *final(self) == *old(self),
            caller@ == old(self).authority@ && old(self).winner_chosen ==> r == Some(Err::<
                (),
                ErrorCode,
            >(ErrorCode::WinnerChosen)) && *final(self) == *old(self),
            caller@ == old(self).authority@ && !old(self).winner_chosen && oracle_randomness(data@)
                is None ==> r is None && *final(self) == *old(self),
            caller@ == old(self).authority@ && !old(self).winner_chosen ==> (oracle_randomness(
                data@,
            ) matches Some(t) ==> {
                &&& t.0 + 1 == current_time ==> r == Some(Ok::<(), ErrorCode>(())) && *final(self)
                    == old(self).after_commit(randomness_key)
                &&& t.0 + 1 != current_time ==> r == Some(Err::<(), ErrorCode>(
                    ErrorCode::RandomnessAlreadyRevealed,
                )) && *final(self) == *old(self)
            }),
    {
        if !key_eq(caller, &self.authority) {
            return Some(Err(ErrorCode::Unauthorized));
        }
        if self.winner_chosen {
            return Some(Err(ErrorCode::WinnerChosen));
        }
        match parse_randomness(data) {
            None => None,
            Some(_) => Some(self.commit_randomness(caller, randomness_key, data, current_time)),
        }
    }
}

} // verus!
