//! A ticketed lottery with a commit–reveal randomness protocol.
//!
//! One shared mutable [`record::TokenLottery`] holds the configuration and
//! state of a lottery instance. During a fixed time window tickets are sold
//! one at a time, each sale incrementing the ticket count and the pot. After
//! the window closes, the authority binds an external randomness account to
//! the record — accepted only when that account's value was committed exactly
//! one time unit before the call, so nobody could already know it. Once the
//! oracle resolves the value, the winner is derived from its first byte and
//! the record reaches its terminal state, after which it is read-only.

pub mod commit;
pub mod errors;
pub mod guard;
pub mod ledger;
pub mod oracle;
pub mod record;
pub mod winner;
