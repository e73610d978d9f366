use stablex::initialize_market;
use stablex::place_order;
use stablex::BalancePolicy;
use stablex::Market;
use stablex::OrderError;
use stablex::User;

#[test]
fn initialize_market_sets_documented_defaults() {
    let market = initialize_market(100);
    assert_eq!(market.current_price, 100);
    assert_eq!(market.penalty_coefficient, 10);
    assert_eq!(market.time_sensitivity, 1000);
}

#[test]
fn calm_order_charges_base_penalty() {
    // delta_price = 0, so price_penalty = 10 * e^0 = 10; elapsed = 2000 is
    // twice the time sensitivity, so the multiplier is 1.5 and
    // time_penalty = 15; total 25.
    let market = Market { current_price: 100, penalty_coefficient: 10, time_sensitivity: 1000 };
    let mut user = User { balance: 1_000_000, last_transaction: 0 };
    let result = place_order(&market, &mut user, 100, 2000, BalancePolicy::AllowDebt);
    assert_eq!(result, Ok((999_975, 2000)));
    assert_eq!(user.balance, 999_975);
    assert_eq!(user.last_transaction, 2000);
}

#[test]
fn deviating_order_charges_exponential_penalty() {
    // delta_price = 5: the fixed-point exponential gives
    // price_penalty = floor(10 * 148_413_198 / 1_000_000) = 1484; elapsed = 10
    // against time sensitivity 1000 gives multiplier 101, so
    // time_penalty = 149_884 and the total charge is 151_368.
    let t0 = 1_000;
    let market = Market { current_price: 100, penalty_coefficient: 10, time_sensitivity: 1000 };
    let mut user = User { balance: 1_000_000, last_transaction: t0 };
    let result = place_order(&market, &mut user, 105, t0 + 10, BalancePolicy::AllowDebt);
    assert_eq!(result, Ok((848_632, t0 + 10)));
    assert_eq!(user.balance, 848_632);
    assert_eq!(user.last_transaction, t0 + 10);
}

#[test]
fn penalty_grows_with_deviation() {
    // Same user, same elapsed time: an order five units off the reference
    // price must cost at least as much as one exactly on it.
    let market = Market { current_price: 100, penalty_coefficient: 10, time_sensitivity: 1000 };

    let mut on_price = User { balance: 1_000_000, last_transaction: 0 };
    place_order(&market, &mut on_price, 100, 2000, BalancePolicy::AllowDebt).unwrap();

    let mut off_price = User { balance: 1_000_000, last_transaction: 0 };
    place_order(&market, &mut off_price, 105, 2000, BalancePolicy::AllowDebt).unwrap();

    assert!(off_price.balance <= on_price.balance);
    assert_eq!(on_price.balance, 999_975);
    assert_eq!(off_price.balance, 1_000_000 - 3_710);
}

#[test]
fn zero_time_sensitivity_is_configuration_error() {
    let market = Market { current_price: 100, penalty_coefficient: 10, time_sensitivity: 0 };
    let mut user = User { balance: 1_000_000, last_transaction: 0 };
    let result = place_order(&market, &mut user, 100, 2000, BalancePolicy::AllowDebt);
    assert_eq!(result, Err(OrderError::ConfigurationError));
    assert_eq!(user, User { balance: 1_000_000, last_transaction: 0 });
}

#[test]
fn zero_elapsed_time_is_degenerate_time_error() {
    // Two orders in the same instant must be rejected, never divided by.
    let market = Market { current_price: 100, penalty_coefficient: 10, time_sensitivity: 1000 };
    let mut user = User { balance: 1_000_000, last_transaction: 2000 };
    let result = place_order(&market, &mut user, 100, 2000, BalancePolicy::AllowDebt);
    assert_eq!(result, Err(OrderError::DegenerateTimeError));
    assert_eq!(user, User { balance: 1_000_000, last_transaction: 2000 });
}

#[test]
fn clock_behind_last_transaction_is_degenerate_time_error() {
    let market = Market { current_price: 100, penalty_coefficient: 10, time_sensitivity: 1000 };
    let mut user = User { balance: 1_000_000, last_transaction: 2000 };
    let result = place_order(&market, &mut user, 100, 1999, BalancePolicy::RejectInsufficient);
    assert_eq!(result, Err(OrderError::DegenerateTimeError));
    assert_eq!(user, User { balance: 1_000_000, last_transaction: 2000 });
}

#[test]
fn huge_deviation_is_overflow_error_and_mutates_nothing() {
    // delta_price = 100 pushes the fixed-point exponential past its cap.
    let market = Market { current_price: 200, penalty_coefficient: 10, time_sensitivity: 1000 };
    let mut user = User { balance: 1_000_000, last_transaction: 0 };
    let result = place_order(&market, &mut user, 100, 2000, BalancePolicy::AllowDebt);
    assert_eq!(result, Err(OrderError::OverflowError));
    assert_eq!(user, User { balance: 1_000_000, last_transaction: 0 });
}

#[test]
fn extreme_parameters_overflow_in_recency_product() {
    // delta_price = 29 keeps the exponential under its cap, but a maximal
    // coefficient times a maximal recency multiplier leaves u128.
    let market = Market {
        current_price: 0,
        penalty_coefficient: u64::MAX,
        time_sensitivity: u64::MAX,
    };
    let mut user = User { balance: i64::MAX, last_transaction: 0 };
    let result = place_order(&market, &mut user, 29, 1, BalancePolicy::AllowDebt);
    assert_eq!(result, Err(OrderError::OverflowError));
    assert_eq!(user, User { balance: i64::MAX, last_transaction: 0 });
}

#[test]
fn zero_coefficient_charges_nothing() {
    // With a zero penalty coefficient both penalty terms vanish, whatever the
    // deviation; the order still settles and the timestamp still advances.
    let market = Market { current_price: 100, penalty_coefficient: 0, time_sensitivity: 1000 };
    let mut user = User { balance: 500, last_transaction: 0 };
    let result = place_order(&market, &mut user, 100_000, 1, BalancePolicy::RejectInsufficient);
    assert_eq!(result, Ok((500, 1)));
    assert_eq!(user, User { balance: 500, last_transaction: 1 });
}

#[test]
fn insufficient_balance_is_rejected_without_mutation() {
    let market = Market { current_price: 100, penalty_coefficient: 10, time_sensitivity: 1000 };
    let mut user = User { balance: 24, last_transaction: 0 };
    let result = place_order(&market, &mut user, 100, 2000, BalancePolicy::RejectInsufficient);
    assert_eq!(result, Err(OrderError::InsufficientBalanceError));
    assert_eq!(user, User { balance: 24, last_transaction: 0 });
}

#[test]
fn debt_is_allowed_when_configured() {
    // The same order that RejectInsufficient refuses settles into debt under
    // AllowDebt: 24 - 25 = -1.
    let market = Market { current_price: 100, penalty_coefficient: 10, time_sensitivity: 1000 };
    let mut user = User { balance: 24, last_transaction: 0 };
    let result = place_order(&market, &mut user, 100, 2000, BalancePolicy::AllowDebt);
    assert_eq!(result, Ok((-1, 2000)));
    assert_eq!(user, User { balance: -1, last_transaction: 2000 });
}

#[test]
fn negative_balance_with_reject_policy_is_insufficient() {
    // A user already in debt cannot settle any penalty under the floor policy,
    // and the failing call leaves the record untouched.
    let market = Market { current_price: 100, penalty_coefficient: 10, time_sensitivity: 1000 };
    let mut user = User { balance: -5, last_transaction: 0 };
    let result = place_order(&market, &mut user, 100, 2000, BalancePolicy::RejectInsufficient);
    assert_eq!(result, Err(OrderError::InsufficientBalanceError));
    assert_eq!(user, User { balance: -5, last_transaction: 0 });
}

#[test]
fn debt_past_representable_range_is_overflow_error() {
    // A balance already at the representable floor cannot absorb any further
    // charge even under AllowDebt.
    let market = Market { current_price: 100, penalty_coefficient: 10, time_sensitivity: 1000 };
    let mut user = User { balance: i64::MIN, last_transaction: 0 };
    let result = place_order(&market, &mut user, 100, 2000, BalancePolicy::AllowDebt);
    assert_eq!(result, Err(OrderError::OverflowError));
    assert_eq!(user, User { balance: i64::MIN, last_transaction: 0 });
}

#[test]
fn first_order_far_in_the_past_decays_to_price_penalty() {
    // elapsed far beyond the time sensitivity: the multiplier truncates to 1,
    // so the total charge is twice the price penalty (10 + 10).
    let market = Market { current_price: 100, penalty_coefficient: 10, time_sensitivity: 1000 };
    let mut user = User { balance: 1_000_000, last_transaction: 0 };
    let result = place_order(&market, &mut user, 100, 1_000_000, BalancePolicy::AllowDebt);
    assert_eq!(result, Ok((999_980, 1_000_000)));
    assert_eq!(user.balance, 999_980);
}

#[test]
fn successive_orders_keep_timestamps_non_decreasing() {
    // The last-transaction time only ever moves forward: each settled order
    // overwrites it with the (later) clock reading, and a same-instant retry
    // is refused.
    let market = initialize_market(100);
    let mut user = User { balance: 1_000_000, last_transaction: 0 };

    let first = place_order(&market, &mut user, 100, 2000, BalancePolicy::RejectInsufficient);
    assert_eq!(first, Ok((999_975, 2000)));
    assert_eq!(user.last_transaction, 2000);

    let retry = place_order(&market, &mut user, 100, 2000, BalancePolicy::RejectInsufficient);
    assert_eq!(retry, Err(OrderError::DegenerateTimeError));
    assert_eq!(user.last_transaction, 2000);

    let second = place_order(&market, &mut user, 101, 2500, BalancePolicy::RejectInsufficient);
    assert!(second.is_ok());
    assert_eq!(user.last_transaction, 2500);
    assert!(user.balance < 999_975);
}
