use token_lottery::errors::ErrorCode;
use token_lottery::guard::AccountKey;
use token_lottery::record::TokenLottery;

fn key(b: u8) -> AccountKey {
    AccountKey::new(vec![b; 32])
}

fn open_lottery() -> TokenLottery {
    TokenLottery::initialize_config(100, 200, 10, key(1)).unwrap()
}

#[test]
fn initialize_rejects_bad_window() {
    let r = TokenLottery::initialize_config(200, 100, 10, key(1));
    assert_eq!(r.unwrap_err(), ErrorCode::InvalidConfiguration);
    let r = TokenLottery::initialize_config(100, 100, 10, key(1));
    assert_eq!(r.unwrap_err(), ErrorCode::InvalidConfiguration);
}

#[test]
fn initialize_rejects_zero_price() {
    let r = TokenLottery::initialize_config(100, 200, 0, key(1));
    assert_eq!(r.unwrap_err(), ErrorCode::InvalidConfiguration);
}

#[test]
fn initialize_zeroes_state() {
    let rec = open_lottery();
    assert_eq!(rec.start_time, 100);
    assert_eq!(rec.end_time, 200);
    assert_eq!(rec.ticket_price, 10);
    assert_eq!(rec.total_tickets, 0);
    assert_eq!(rec.lottery_pot_amount, 0);
    assert!(rec.randomness_account.is_none());
    assert!(!rec.winner_chosen);
    assert_eq!(rec.winner, 0);
}

#[test]
fn sale_window_boundaries() {
    let mut rec = open_lottery();
    assert_eq!(rec.buy_ticket(99, 10).unwrap_err(), ErrorCode::LotteryNotOpen);
    assert_eq!(rec.buy_ticket(100, 10).unwrap(), 0);
    assert_eq!(rec.buy_ticket(199, 10).unwrap(), 1);
    assert_eq!(rec.buy_ticket(200, 10).unwrap_err(), ErrorCode::LotteryNotOpen);
    assert_eq!(rec.buy_ticket(1000, 10).unwrap_err(), ErrorCode::LotteryNotOpen);
    assert_eq!(rec.total_tickets, 2);
    assert_eq!(rec.lottery_pot_amount, 20);
}

#[test]
fn sales_issue_sequential_indices() {
    let mut rec = open_lottery();
    for i in 0..7u64 {
        assert_eq!(rec.buy_ticket(150, 10).unwrap(), i);
    }
    assert_eq!(rec.total_tickets, 7);
    assert_eq!(rec.lottery_pot_amount, 70);
}

#[test]
fn failed_sale_changes_nothing() {
    let mut rec = open_lottery();
    rec.buy_ticket(100, 10).unwrap();
    let r = rec.buy_ticket(200, 10);
    assert_eq!(r.unwrap_err(), ErrorCode::LotteryNotOpen);
    assert_eq!(rec.total_tickets, 1);
    assert_eq!(rec.lottery_pot_amount, 10);
    assert!(rec.randomness_account.is_none());
    assert!(!rec.winner_chosen);
}

#[test]
fn commit_requires_authority() {
    let mut rec = open_lottery();
    let r = rec.commit_randomness_at(&key(2), key(7), 200, 201);
    assert_eq!(r.unwrap_err(), ErrorCode::Unauthorized);
    assert!(rec.randomness_account.is_none());
}

#[test]
fn commit_accepts_only_previous_time_unit() {
    let mut rec = open_lottery();
    // fixed two units ago: someone may already know the value
    let r = rec.commit_randomness_at(&key(1), key(7), 199, 201);
    assert_eq!(r.unwrap_err(), ErrorCode::RandomnessAlreadyRevealed);
    // fixed at the current unit or later: not fixed before this call
    let r = rec.commit_randomness_at(&key(1), key(7), 201, 201);
    assert_eq!(r.unwrap_err(), ErrorCode::RandomnessAlreadyRevealed);
    let r = rec.commit_randomness_at(&key(1), key(7), 202, 201);
    assert_eq!(r.unwrap_err(), ErrorCode::RandomnessAlreadyRevealed);
    assert!(rec.randomness_account.is_none());
    // fixed exactly one unit ago: accepted
    rec.commit_randomness_at(&key(1), key(7), 200, 201).unwrap();
    assert_eq!(rec.randomness_account.as_ref().unwrap().bytes, vec![7u8; 32]);
}

#[test]
fn commit_timing_at_clock_extremes() {
    let mut rec = open_lottery();
    // no time marker precedes 0, so nothing can have been fixed one unit ago
    let r = rec.commit_randomness_at(&key(1), key(7), 0, 0);
    assert_eq!(r.unwrap_err(), ErrorCode::RandomnessAlreadyRevealed);
    // a commit time at the clock's maximum has no following time unit
    let r = rec.commit_randomness_at(&key(1), key(7), u64::MAX, u64::MAX);
    assert_eq!(r.unwrap_err(), ErrorCode::RandomnessAlreadyRevealed);
    assert!(rec.randomness_account.is_none());
}

#[test]
fn commit_after_finalization_fails() {
    let mut rec = open_lottery();
    rec.buy_ticket(150, 10).unwrap();
    rec.commit_randomness_at(&key(1), key(7), 200, 201).unwrap();
    rec.reveal_winner_resolved(&key(1), &key(7), Some(vec![9u8; 32]), 201).unwrap();
    // the record is read-only once finalized: even the authority with a
    // correctly timed fresh commitment may not rebind the handle
    let r = rec.commit_randomness_at(&key(1), key(8), 204, 205);
    assert_eq!(r.unwrap_err(), ErrorCode::WinnerChosen);
    assert_eq!(rec.randomness_account.as_ref().unwrap().bytes, vec![7u8; 32]);
    assert_eq!(rec.winner, 9 % 1);
}

#[test]
fn commit_may_be_rebound_before_reveal() {
    let mut rec = open_lottery();
    rec.commit_randomness_at(&key(1), key(7), 200, 201).unwrap();
    rec.commit_randomness_at(&key(1), key(8), 204, 205).unwrap();
    assert_eq!(rec.randomness_account.as_ref().unwrap().bytes, vec![8u8; 32]);
}

#[test]
fn reveal_checks_run_in_order() {
    let mut rec = open_lottery();
    rec.buy_ticket(150, 10).unwrap();
    rec.commit_randomness_at(&key(1), key(7), 200, 201).unwrap();
    // wrong caller outranks every later failure
    let r = rec.reveal_winner_resolved(&key(2), &key(9), None, 50);
    assert_eq!(r.unwrap_err(), ErrorCode::Unauthorized);
    // right caller, wrong handle
    let r = rec.reveal_winner_resolved(&key(1), &key(9), None, 50);
    assert_eq!(r.unwrap_err(), ErrorCode::RandomnessAlreadyRevealed);
    // right handle, window still open
    let r = rec.reveal_winner_resolved(&key(1), &key(7), None, 199);
    assert_eq!(r.unwrap_err(), ErrorCode::LotteryNotCompleted);
    assert!(!rec.winner_chosen);
}

#[test]
fn reveal_without_commit_fails() {
    let mut rec = open_lottery();
    rec.buy_ticket(150, 10).unwrap();
    let r = rec.reveal_winner_resolved(&key(1), &key(7), Some(vec![3u8; 32]), 201);
    assert_eq!(r.unwrap_err(), ErrorCode::RandomnessAlreadyRevealed);
    assert!(!rec.winner_chosen);
}

#[test]
fn unresolved_randomness_leaves_record_unchanged() {
    let mut rec = open_lottery();
    rec.buy_ticket(150, 10).unwrap();
    rec.commit_randomness_at(&key(1), key(7), 200, 201).unwrap();
    let r = rec.reveal_winner_resolved(&key(1), &key(7), None, 201);
    assert_eq!(r.unwrap_err(), ErrorCode::RandomnessNotResolved);
    assert!(!rec.winner_chosen);
    assert_eq!(rec.winner, 0);
    assert_eq!(rec.total_tickets, 1);
    // retryable: the same reveal later with a value succeeds
    let r = rec.reveal_winner_resolved(&key(1), &key(7), Some(vec![5u8; 32]), 202);
    assert_eq!(r.unwrap(), 0);
    assert!(rec.winner_chosen);
}

#[test]
fn reveal_is_idempotent_failing() {
    let mut rec = open_lottery();
    for _ in 0..5 {
        rec.buy_ticket(150, 10).unwrap();
    }
    rec.commit_randomness_at(&key(1), key(7), 200, 201).unwrap();
    let w = rec.reveal_winner_resolved(&key(1), &key(7), Some(vec![157u8; 32]), 201).unwrap();
    assert_eq!(w, 2);
    // every later attempt, whatever its arguments, fails WinnerChosen
    let r = rec.reveal_winner_resolved(&key(1), &key(7), Some(vec![3u8; 32]), 999);
    assert_eq!(r.unwrap_err(), ErrorCode::WinnerChosen);
    let r = rec.reveal_winner_resolved(&key(1), &key(7), None, 201);
    assert_eq!(r.unwrap_err(), ErrorCode::WinnerChosen);
    assert_eq!(rec.winner, 2);
    assert!(rec.winner_chosen);
}

#[test]
fn winner_is_first_byte_modulo_tickets() {
    let mut rec = open_lottery();
    for _ in 0..3 {
        rec.buy_ticket(150, 10).unwrap();
    }
    rec.commit_randomness_at(&key(1), key(7), 200, 201).unwrap();
    // only the first byte of the random value matters: 200 mod 3 == 2
    let mut value = vec![0u8; 32];
    value[0] = 200;
    value[1] = 77;
    let w = rec.reveal_winner_resolved(&key(1), &key(7), Some(value), 201).unwrap();
    assert_eq!(w, 2);
    assert_eq!(rec.winner, 2);
}

#[test]
fn end_to_end_lifecycle() {
    let mut rec = TokenLottery::initialize_config(100, 200, 10, key(1)).unwrap();
    let sale_times = [100u64, 120, 150, 180, 199];
    for (i, t) in sale_times.iter().enumerate() {
        assert_eq!(rec.buy_ticket(*t, 10).unwrap(), i as u64);
    }
    assert_eq!(rec.total_tickets, 5);
    assert_eq!(rec.lottery_pot_amount, 50);
    assert_eq!(rec.buy_ticket(200, 10).unwrap_err(), ErrorCode::LotteryNotOpen);
    rec.commit_randomness_at(&key(1), key(7), 200, 201).unwrap();
    let mut value = vec![0u8; 32];
    value[0] = 157;
    let w = rec.reveal_winner_resolved(&key(1), &key(7), Some(value), 201).unwrap();
    assert_eq!(w, 157 % 5);
    assert_eq!(rec.winner, 2);
    assert!(rec.winner_chosen);
    assert_eq!(rec.total_tickets, 5);
    assert_eq!(rec.lottery_pot_amount, 50);
}

#[test]
fn key_equality_is_by_content() {
    let mut rec = open_lottery();
    // a caller key equal in content to the authority is the authority
    let same = AccountKey::new(vec![1u8; 32]);
    rec.commit_randomness_at(&same, key(7), 200, 201).unwrap();
    // differing in one byte is a different identity
    let mut bytes = vec![1u8; 32];
    bytes[31] = 2;
    let other = AccountKey::new(bytes);
    let r = rec.commit_randomness_at(&other, key(7), 204, 205);
    assert_eq!(r.unwrap_err(), ErrorCode::Unauthorized);
}
