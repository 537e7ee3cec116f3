use vstd::prelude::*;

use crate::errors::ErrorCode;
use crate::guard::AccountKey;

verus! {

/// The single shared mutable record of one lottery instance: its fixed
/// configuration and its mutable state. It is created once, mutated by
/// ticket sales, then by a randomness commit, then at most once by the
/// winner reveal, and is read-only afterwards.
#[derive(Debug)]
pub struct TokenLottery {
    /// Identity permitted to commit randomness and reveal the winner.
    pub authority: AccountKey,
    /// First time marker (inclusive) at which tickets may be sold.
    pub start_time: u64,
    /// Time marker (exclusive) at which ticket sales close.
    pub end_time: u64,
    /// Fixed positive amount charged per ticket.
    pub ticket_price: u64,
    /// Tickets sold so far; also the next ticket's sequence index.
    pub total_tickets: u64,
    /// Running sum of collected ticket payments.
    pub lottery_pot_amount: u64,
    /// Key of the committed external randomness account; `None` until the
    /// commit phase binds one.
    pub randomness_account: Option<AccountKey>,
    /// Whether the winner has been chosen; `true` is terminal and permanent.
    pub winner_chosen: bool,
    /// Winning ticket index; meaningful only once `winner_chosen` is set.
    pub winner: u64,
}

impl TokenLottery {
    /// Well-formedness of a record: the configuration constraints fixed at
    /// creation, and the terminal-state invariant that a chosen winner is a
    /// valid ticket index of a committed lottery.
    pub open spec fn wf(self) -> bool {
        &&& self.start_time < self.end_time
        &&& self.ticket_price > 0
        &&& self.winner_chosen ==> {
            &&& self.total_tickets > 0
            &&& self.winner < self.total_tickets
            &&& self.randomness_account is Some
        }
    }

    /// Creates the record for a new lottery instance: fixes the sale window
    /// and ticket price, zeroes all counters, and leaves the randomness
    /// handle unset. Rejects a window that is not strictly increasing or a
    /// ticket price of zero.
    pub fn initialize_config(
        start_time: u64,
        end_time: u64,
        ticket_price: u64,
        authority: AccountKey,
    ) -> (r: Result<TokenLottery, ErrorCode>)
        ensures
            r is Ok <==> start_time < end_time && ticket_price > 0,
            r matches Ok(rec) ==> {
                &&& rec.wf()
                &&& rec.authority == authority
                &&& rec.start_time == start_time
                &&& rec.end_time == end_time
                &&& rec.ticket_price == ticket_price
                &&& rec.total_tickets == 0
                &&& rec.lottery_pot_amount == 0
                &&& rec.randomness_account is None
                &&& !rec.winner_chosen
                &&& rec.winner == 0
            },
            r matches Err(e) ==> e == ErrorCode::InvalidConfiguration,
    {
        if start_time >= end_time || ticket_price == 0 {
            return Err(ErrorCode::InvalidConfiguration);
        }
        Ok(TokenLottery {
            authority,
            start_time,
            end_time,
            ticket_price,
            total_tickets: 0,
            lottery_pot_amount: 0,
            randomness_account: None,
            winner_chosen: false,
            winner: 0,
        })
    }
}

} // verus!
