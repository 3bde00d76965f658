use bounty_benchmarking::balance::{funded_bounty_budget, initial_balance, INITIAL_BALANCE};

#[test]
fn initial_balance_is_one_million() {
    assert_eq!(initial_balance(), 1_000_000);
    assert_eq!(initial_balance(), INITIAL_BALANCE);
}

#[test]
fn funded_bounty_budget_covers_cherry_and_max_amount() {
    assert_eq!(funded_bounty_budget(100, 100), 200);
    assert_eq!(funded_bounty_budget(100, 1000), 1100);
    assert_eq!(funded_bounty_budget(0, 0), 0);
    assert_eq!(funded_bounty_budget(u64::MAX - 5, 5), u64::MAX);
}
