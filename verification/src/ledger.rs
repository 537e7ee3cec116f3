use vstd::prelude::*;

use crate::errors::ErrorCode;
use crate::guard::window_open;
use crate::record::TokenLottery;

verus! {

impl TokenLottery {
    /// Whether a sale at time `now` is accepted: the sale window is the
    /// half-open interval `[start_time, end_time)`.
    pub open spec fn sale_ok(self, now: u64) -> bool {
        window_open(self.start_time, self.end_time, now)
    }

    /// The record after one successful sale: one more ticket, the payment
    /// (always the fixed ticket price) added to the pot, everything else
    /// unchanged.
    pub open spec fn after_sale(self) -> TokenLottery {
        TokenLottery {
            total_tickets: (self.total_tickets + 1) as u64,
            lottery_pot_amount: (self.lottery_pot_amount + self.ticket_price) as u64,
            ..self
        }
    }

    /// Sells one ticket at time `current_time` for `payment`, which the
    /// payment collaborator has already fixed to the ticket price. On
    /// success the buyer receives the next sequence index, the ticket count
    /// increments by exactly one and the payment joins the pot; outside the
    /// sale window nothing changes and the sale fails with `LotteryNotOpen`.
    pub fn buy_ticket(&mut self, current_time: u64, payment: u64) -> (r: Result<u64, ErrorCode>)
        requires
            old(self).wf(),
            payment == old(self).ticket_price,
            old(self).total_tickets < u64::MAX,
            old(self).lottery_pot_amount + payment <= u64::MAX,
        ensures
            final(self).wf(),
            r is Ok <==> old(self).sale_ok(current_time),
            r matches Ok(idx) ==> idx == old(self).total_tickets
                && *final(self) == old(self).after_sale(),
            r matches Err(e) ==> e == ErrorCode::LotteryNotOpen && *final(self) == *old(self),
    {
        if current_time < self.start_time || current_time >= self.end_time {
            return Err(ErrorCode::LotteryNotOpen);
        }
        let idx: u64 = self.total_tickets;
        self.total_tickets = self.total_tickets + 1;
        self.lottery_pot_amount = self.lottery_pot_amount + payment;
        Ok(idx)
    }
}

/// The record after a chain of successful sales, one per entry of `times`.
/// A sale changes the record independently of the exact time within the
/// window, so the chain folds `after_sale` over the sequence.
pub open spec fn sell_seq(r: TokenLottery, times: Seq<u64>) -> TokenLottery
    decreases times.len(),
{
    if times.len() == 0 {
        r
    } else {
        sell_seq(r.after_sale(), times.drop_first())
    }
}

/// Law: over any sequence of sales whose times all lie in the open window,
/// and which fits the machine counters, every sale succeeds, the ticket
/// count after N sales is exactly N more than before, the i-th sale is
/// issued index `total_tickets + i` (so a fresh record issues exactly the
/// indices 0..N-1, each once), the pot grows by N times the ticket price,
/// and the configuration, randomness handle and winner state never change.
/// The ticket indices a chain of sales hands out: `buy_ticket` issues the
/// ticket count as it stood before the sale, so the i-th sale of the chain
/// is issued the count after the first i sales of a record with none sold.
pub open spec fn issued_indices(r: TokenLottery, times: Seq<u64>) -> Seq<u64> {
    Seq::new(times.len(), |i: int| sell_seq(r, times.take(i)).total_tickets)
}

/// Law: a fresh record that accepts N sales within the open window ends with
/// `total_tickets == N` and has issued exactly the ticket indices
/// 0 through N-1, in order and therefore without duplicates.
pub proof fn lemma_fresh_lottery_indices(r: TokenLottery, times: Seq<u64>)
    requires
        r.total_tickets == 0,
        forall|i: int| 0 <= i < times.len() ==> r.sale_ok(#[trigger] times[i]),
        times.len() <= u64::MAX,
        r.lottery_pot_amount + times.len() * r.ticket_price <= u64::MAX,
    ensures
        sell_seq(r, times).total_tickets == times.len(),
        issued_indices(r, times) =~= Seq::new(times.len(), |i: int| i as u64),
{
    lemma_sales_accounting(r, times);
}

pub proof fn lemma_sales_accounting(r: TokenLottery, times: Seq<u64>)
    requires
        r.total_tickets + times.len() <= u64::MAX,
        r.lottery_pot_amount + times.len() * r.ticket_price <= u64::MAX,
    ensures
        sell_seq(r, times).total_tickets == r.total_tickets + times.len(),
        sell_seq(r, times).lottery_pot_amount
            == r.lottery_pot_amount + times.len() * r.ticket_price,
        forall|i: int|
            0 <= i <= times.len() ==> sell_seq(r, #[trigger] times.take(i)).total_tickets
                == r.total_tickets + i,
        sell_seq(r, times).authority == r.authority,
        sell_seq(r, times).start_time == r.start_time,
        sell_seq(r, times).end_time == r.end_time,
        sell_seq(r, times).ticket_price == r.ticket_price,
        sell_seq(r, times).randomness_account == r.randomness_account,
        sell_seq(r, times).winner_chosen == r.winner_chosen,
        sell_seq(r, times).winner == r.winner,
    decreases times.len(),
{
    if times.len() == 0 {
        assert(times.take(0) =~= times);
    } else {
        let s = r.after_sale();
        let rest = times.drop_first();
        assert(r.lottery_pot_amount + r.ticket_price <= u64::MAX
            && r.lottery_pot_amount + r.ticket_price + (times.len() - 1) * r.ticket_price
                == r.lottery_pot_amount + times.len() * r.ticket_price) by (nonlinear_arith)
            requires
                times.len() >= 1,
                r.ticket_price >= 0,
                r.lottery_pot_amount >= 0,
                r.lottery_pot_amount + times.len() * r.ticket_price <= u64::MAX,
        ;
        lemma_sales_accounting(s, rest);
        assert forall|i: int| 0 <= i <= times.len() implies sell_seq(
            r,
            #[trigger] times.take(i),
        ).total_tickets == r.total_tickets + i by {
            if i == 0 {
                assert(times.take(0).len() == 0);
            } else {
                assert(times.take(i).drop_first() =~= rest.take(i - 1));
                assert(sell_seq(r, times.take(i)) == sell_seq(s, rest.take(i - 1)));
            }
        }
    }
}

} // verus!
