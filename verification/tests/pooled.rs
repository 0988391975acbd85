use escrow_core::pooled::{PaymentError, Phase, PooledEscrow, Step};

fn entries(pool: &PooledEscrow) -> Vec<(String, u64)> {
    pool.contributions().clone()
}

fn listed(entries: Vec<(&str, u64)>) -> Vec<(String, u64)> {
    entries.into_iter().map(|(who, amount)| (who.to_string(), amount)).collect()
}

#[test]
fn new_pool_is_empty_and_accepting() {
    let pool = PooledEscrow::new(1000);
    assert_eq!(pool.cap(), 1000);
    assert_eq!(pool.current_amount(), 0);
    assert_eq!(pool.temp_tokens(), 0);
    assert!(pool.contributions().is_empty());
    assert_eq!(pool.phase(), Phase::Accepting);
}

#[test]
fn payments_below_the_cap_are_recorded() {
    let mut pool = PooledEscrow::new(1000);
    assert_eq!(pool.receive_payment("a", 100), Step::Accepted);
    assert_eq!(pool.receive_payment("b", 200), Step::Accepted);
    assert_eq!(pool.receive_payment("a", 50), Step::Accepted);
    assert_eq!(pool.current_amount(), 350);
    assert_eq!(pool.temp_tokens(), 350);
    assert_eq!(entries(&pool), listed(vec![("a", 150), ("b", 200)]));
    assert_eq!(pool.contribution_of("a"), 150);
    assert_eq!(pool.contribution_of("b"), 200);
    assert_eq!(pool.contribution_of("c"), 0);
    assert_eq!(pool.phase(), Phase::Accepting);
}

#[test]
fn payments_that_sum_to_the_cap_settle_the_pool() {
    let mut pool = PooledEscrow::new(1000);
    assert_eq!(pool.receive_payment("a", 400), Step::Accepted);
    assert_eq!(pool.receive_payment("b", 350), Step::Accepted);
    assert_eq!(pool.receive_payment("a", 250), Step::MoveFunds(1000));
    assert_eq!(pool.phase(), Phase::AtCap);
    assert_eq!(pool.current_amount(), 1000);
    assert_eq!(pool.finalize_transfer(true), Step::MoveTokens(1000));
    assert_eq!(pool.phase(), Phase::AtCap);
    assert_eq!(pool.current_amount(), 1000);
    assert_eq!(entries(&pool), listed(vec![("a", 650), ("b", 350)]));
    assert_eq!(pool.finalize_transfer(true), Step::Accepted);
    assert_eq!(pool.phase(), Phase::Settled);
    assert_eq!(pool.current_amount(), 0);
    assert_eq!(pool.temp_tokens(), 0);
    assert!(pool.contributions().is_empty());
    assert_eq!(pool.cap(), 1000);
}

#[test]
fn one_payment_of_the_whole_cap_settles_the_pool() {
    let mut pool = PooledEscrow::new(1000);
    assert_eq!(pool.receive_payment("a", 1000), Step::MoveFunds(1000));
    assert_eq!(pool.finalize_transfer(true), Step::MoveTokens(1000));
    assert_eq!(pool.finalize_transfer(true), Step::Accepted);
    assert_eq!(pool.current_amount(), 0);
    assert_eq!(pool.phase(), Phase::Settled);
}

#[test]
fn payment_over_the_cap_changes_nothing() {
    let mut pool = PooledEscrow::new(1000);
    assert_eq!(pool.receive_payment("a", 999), Step::Accepted);
    assert_eq!(
        pool.receive_payment("b", 2),
        Step::Rejected(PaymentError::CapExceeded)
    );
    assert_eq!(
        pool.receive_payment("a", u64::MAX),
        Step::Rejected(PaymentError::CapExceeded)
    );
    assert_eq!(pool.current_amount(), 999);
    assert_eq!(pool.temp_tokens(), 999);
    assert_eq!(entries(&pool), listed(vec![("a", 999)]));
    assert_eq!(pool.phase(), Phase::Accepting);
    assert_eq!(pool.receive_payment("b", 1), Step::MoveFunds(1000));
}

#[test]
fn first_payment_over_the_cap_is_refused() {
    let mut pool = PooledEscrow::new(1000);
    assert_eq!(
        pool.receive_payment("a", 1001),
        Step::Rejected(PaymentError::CapExceeded)
    );
    assert_eq!(pool.current_amount(), 0);
    assert_eq!(pool.temp_tokens(), 0);
    assert!(pool.contributions().is_empty());
    assert_eq!(pool.phase(), Phase::Accepting);
}

#[test]
fn failed_funds_transfer_leaves_the_pool_stuck() {
    let mut pool = PooledEscrow::new(1000);
    pool.receive_payment("a", 300);
    assert_eq!(pool.receive_payment("b", 700), Step::MoveFunds(1000));
    assert_eq!(
        pool.finalize_transfer(false),
        Step::Rejected(PaymentError::FinalizationFailed)
    );
    assert_eq!(pool.phase(), Phase::Stuck);
    assert_eq!(pool.current_amount(), 1000);
    assert_eq!(pool.temp_tokens(), 1000);
    assert_eq!(entries(&pool), listed(vec![("a", 300), ("b", 700)]));
}

#[test]
fn failed_token_transfer_leaves_the_pool_stuck() {
    let mut pool = PooledEscrow::new(1000);
    assert_eq!(pool.receive_payment("a", 1000), Step::MoveFunds(1000));
    assert_eq!(pool.finalize_transfer(true), Step::MoveTokens(1000));
    assert_eq!(
        pool.finalize_transfer(false),
        Step::Rejected(PaymentError::FinalizationFailed)
    );
    assert_eq!(pool.phase(), Phase::Stuck);
    assert_eq!(pool.current_amount(), 1000);
    assert_eq!(pool.temp_tokens(), 1000);
    assert_eq!(entries(&pool), listed(vec![("a", 1000)]));
}

#[test]
fn stuck_pool_takes_no_more_funds() {
    let mut pool = PooledEscrow::new(1000);
    pool.receive_payment("a", 1000);
    pool.finalize_transfer(false);
    assert_eq!(
        pool.receive_payment("b", 1),
        Step::Rejected(PaymentError::CapExceeded)
    );
    assert_eq!(pool.phase(), Phase::Stuck);
    assert_eq!(entries(&pool), listed(vec![("a", 1000)]));
}

#[test]
fn stuck_pool_tries_again_from_the_funds() {
    let mut pool = PooledEscrow::new(1000);
    pool.receive_payment("a", 1000);
    pool.finalize_transfer(true);
    pool.finalize_transfer(false);
    assert_eq!(pool.phase(), Phase::Stuck);
    assert_eq!(pool.receive_payment("a", 0), Step::MoveFunds(1000));
    assert_eq!(pool.phase(), Phase::AtCap);
    assert_eq!(pool.finalize_transfer(true), Step::MoveTokens(1000));
    assert_eq!(pool.finalize_transfer(true), Step::Accepted);
    assert_eq!(pool.phase(), Phase::Settled);
    assert_eq!(pool.current_amount(), 0);
    assert_eq!(pool.temp_tokens(), 0);
}

#[test]
fn rollback_keeps_the_token_credits() {
    let mut pool = PooledEscrow::new(1000);
    pool.receive_payment("a", 300);
    pool.receive_payment("b", 200);
    pool.rollback();
    assert_eq!(pool.current_amount(), 0);
    assert!(pool.contributions().is_empty());
    assert_eq!(pool.temp_tokens(), 500);
    assert_eq!(pool.cap(), 1000);
    assert_eq!(pool.phase(), Phase::Accepting);
}

#[test]
fn rollback_frees_a_stuck_pool() {
    let mut pool = PooledEscrow::new(1000);
    pool.receive_payment("a", 1000);
    pool.finalize_transfer(false);
    pool.rollback();
    assert_eq!(pool.phase(), Phase::Accepting);
    assert_eq!(pool.current_amount(), 0);
    assert_eq!(pool.temp_tokens(), 1000);
    assert_eq!(pool.receive_payment("b", 400), Step::Accepted);
    assert_eq!(pool.current_amount(), 400);
    assert_eq!(pool.temp_tokens(), 1400);
    assert_eq!(entries(&pool), listed(vec![("b", 400)]));
}

#[test]
fn rollback_of_an_empty_pool_changes_nothing() {
    let mut pool = PooledEscrow::new(5);
    pool.rollback();
    assert_eq!(pool.current_amount(), 0);
    assert_eq!(pool.temp_tokens(), 0);
    assert!(pool.contributions().is_empty());
    assert_eq!(pool.phase(), Phase::Accepting);
}

#[test]
fn settlement_after_a_rollback_hands_over_all_token_credits() {
    let mut pool = PooledEscrow::new(1000);
    pool.receive_payment("a", 300);
    pool.rollback();
    assert_eq!(pool.receive_payment("b", 1000), Step::MoveFunds(1000));
    assert_eq!(pool.finalize_transfer(true), Step::MoveTokens(1300));
    assert_eq!(pool.finalize_transfer(true), Step::Accepted);
    assert_eq!(pool.temp_tokens(), 0);
}

#[test]
fn settled_pool_accepts_again() {
    let mut pool = PooledEscrow::new(10);
    pool.receive_payment("a", 10);
    pool.finalize_transfer(true);
    pool.finalize_transfer(true);
    assert_eq!(pool.receive_payment("b", 4), Step::Accepted);
    assert_eq!(pool.phase(), Phase::Accepting);
    assert_eq!(pool.current_amount(), 4);
    assert_eq!(pool.temp_tokens(), 4);
    assert_eq!(entries(&pool), listed(vec![("b", 4)]));
}

#[test]
fn zero_payment_is_recorded() {
    let mut pool = PooledEscrow::new(10);
    assert_eq!(pool.receive_payment("a", 0), Step::Accepted);
    assert_eq!(pool.current_amount(), 0);
    assert_eq!(entries(&pool), listed(vec![("a", 0)]));
}

#[test]
fn pool_with_cap_zero_settles_on_any_payment() {
    let mut pool = PooledEscrow::new(0);
    assert_eq!(
        pool.receive_payment("a", 1),
        Step::Rejected(PaymentError::CapExceeded)
    );
    assert_eq!(pool.receive_payment("a", 0), Step::MoveFunds(0));
    assert_eq!(pool.finalize_transfer(true), Step::MoveTokens(0));
    assert_eq!(pool.finalize_transfer(true), Step::Accepted);
    assert_eq!(pool.phase(), Phase::Settled);
}

#[test]
fn pool_with_the_largest_cap() {
    let mut pool = PooledEscrow::new(u64::MAX);
    assert_eq!(pool.receive_payment("a", u64::MAX - 1), Step::Accepted);
    assert_eq!(
        pool.receive_payment("b", 2),
        Step::Rejected(PaymentError::CapExceeded)
    );
    assert_eq!(pool.receive_payment("b", 1), Step::MoveFunds(u64::MAX));
    assert_eq!(pool.finalize_transfer(true), Step::MoveTokens(u64::MAX));
}
