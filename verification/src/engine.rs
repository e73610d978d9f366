use vstd::prelude::*;

use crate::errors::BalancePolicy;
use crate::errors::OrderError;
use crate::market::Market;
use crate::market::User;

verus! {

use vstd::arithmetic::div_mod::lemma_div_by_multiple;
use vstd::arithmetic::div_mod::lemma_div_is_ordered;
use vstd::arithmetic::div_mod::lemma_div_nonincreasing;
use vstd::arithmetic::div_mod::lemma_div_pos_is_pos;
use vstd::arithmetic::mul::lemma_mul_inequality;
use vstd::arithmetic::mul::lemma_mul_nonnegative;
use vstd::arithmetic::mul::lemma_mul_upper_bound;

/// Fixed-point scale of the penalty arithmetic: values carry six decimal
/// places, and every division truncates toward zero.
pub const FP_SCALE: u128 = 1_000_000;

/// Numerator of the fixed-point approximation of Euler's number.
pub const EULER_NUM: u128 = 2_718_282;

/// Denominator of the fixed-point approximation of Euler's number.
pub const EULER_DEN: u128 = 1_000_000;

/// Largest fixed-point exponential the engine accepts; a deviation whose
/// exponential exceeds this cap is rejected as an overflow. The cap keeps
/// every later product inside `u128`.
pub const EXP_FP_CAP: u128 = 10_000_000_000_000_000_000;

/// Absolute deviation of the submitted order price from the reference price.
pub open spec fn delta_price(order_price: u64, current_price: u64) -> int {
    if order_price >= current_price {
        order_price - current_price
    } else {
        current_price - order_price
    }
}

/// Fixed-point exponential: `exp_fp(n)` approximates `e^n` scaled by
/// `FP_SCALE`, built by repeated multiplication with `EULER_NUM / EULER_DEN`
/// and truncation at each step.
pub open spec fn exp_fp(n: int) -> int
    decreases n,
{
    if n <= 0 {
        FP_SCALE as int
    } else {
        exp_fp(n - 1) * (EULER_NUM as int) / (EULER_DEN as int)
    }
}

/// Price-deviation penalty, in whole balance units:
/// `coefficient * e^delta`, truncated.
pub open spec fn price_penalty(coefficient: u64, delta: int) -> int {
    coefficient * exp_fp(delta) / (FP_SCALE as int)
}

/// Recency multiplier, in fixed-point units:
/// `1 + time_sensitivity / elapsed`, scaled by `FP_SCALE`.
pub open spec fn time_multiplier_fp(time_sensitivity: u64, elapsed: int) -> int {
    FP_SCALE + time_sensitivity * (FP_SCALE as int) / elapsed
}

/// Recency penalty, in whole balance units:
/// `price_penalty * (1 + time_sensitivity / elapsed)`, truncated.
pub open spec fn time_penalty(coefficient: u64, time_sensitivity: u64, elapsed: int, delta: int) -> int {
    price_penalty(coefficient, delta) * time_multiplier_fp(time_sensitivity, elapsed) / (FP_SCALE as int)
}

/// The full charge for one order: price-deviation penalty plus recency
/// penalty.
pub open spec fn total_penalty(coefficient: u64, time_sensitivity: u64, elapsed: int, delta: int) -> int {
    price_penalty(coefficient, delta) + time_penalty(coefficient, time_sensitivity, elapsed, delta)
}

/// When the penalty computation leaves the representable range: the
/// exponential exceeds its cap, or the recency product exceeds `u128`. A zero
/// coefficient never overflows, since both penalties are then zero.
pub open spec fn penalty_overflows(coefficient: u64, time_sensitivity: u64, elapsed: int, delta: int) -> bool {
    coefficient != 0 && (exp_fp(delta) > EXP_FP_CAP
        || price_penalty(coefficient, delta) * time_multiplier_fp(time_sensitivity, elapsed)
            > u128::MAX)
}

/// The exact outcome of evaluating one order: either the settled
/// `(new_balance, new_last_transaction)` pair, or the error that rejects it.
/// Checks run in this order: market configuration, elapsed time, overflow,
/// balance policy.
pub open spec fn order_outcome(
    market: Market,
    user: User,
    order_price: u64,
    now: i64,
    policy: BalancePolicy,
) -> Result<(i64, i64), OrderError> {
    let delta = delta_price(order_price, market.current_price);
    let elapsed = now - user.last_transaction;
    if market.time_sensitivity == 0 {
        Err(OrderError::ConfigurationError)
    } else if elapsed <= 0 {
        Err(OrderError::DegenerateTimeError)
    } else if penalty_overflows(market.penalty_coefficient, market.time_sensitivity, elapsed, delta) {
        Err(OrderError::OverflowError)
    } else {
        let total = total_penalty(market.penalty_coefficient, market.time_sensitivity, elapsed, delta);
        if policy is RejectInsufficient && user.balance - total < 0 {
            Err(OrderError::InsufficientBalanceError)
        } else if user.balance - total < i64::MIN {
            Err(OrderError::OverflowError)
        } else {
            Ok(((user.balance - total) as i64, now))
        }
    }
}

/// Each fixed-point exponential step keeps the value at or above `FP_SCALE`
/// and never shrinks it, since `EULER_NUM >= EULER_DEN`.
proof fn lemma_exp_fp_step(n: int)
    ensures
        exp_fp(n) >= FP_SCALE,
        exp_fp(n - 1) <= exp_fp(n),
    decreases (if n <= 0 { 0int } else { n }),
{
    if n > 0 {
        lemma_exp_fp_step(n - 1);
        let prev = exp_fp(n - 1);
        lemma_mul_inequality(EULER_DEN as int, EULER_NUM as int, prev);
        lemma_div_by_multiple(prev, EULER_DEN as int);
        lemma_div_is_ordered(prev * (EULER_DEN as int), prev * (EULER_NUM as int), EULER_DEN as int);
    }
}

/// The fixed-point exponential is non-decreasing.
proof fn lemma_exp_fp_monotonic(n1: int, n2: int)
    requires
        n1 <= n2,
    ensures
        exp_fp(n1) <= exp_fp(n2),
    decreases n2 - n1,
{
    if n1 < n2 {
        lemma_exp_fp_monotonic(n1, n2 - 1);
        lemma_exp_fp_step(n2);
    }
}

/// Law: with the elapsed time fixed, every penalty component is
/// non-decreasing in the price deviation.
pub proof fn lemma_penalty_monotonic_in_delta(
    coefficient: u64,
    time_sensitivity: u64,
    elapsed: int,
    d1: int,
    d2: int,
)
    requires
        elapsed > 0,
        d1 <= d2,
    ensures
        price_penalty(coefficient, d1) <= price_penalty(coefficient, d2),
        time_penalty(coefficient, time_sensitivity, elapsed, d1)
            <= time_penalty(coefficient, time_sensitivity, elapsed, d2),
        total_penalty(coefficient, time_sensitivity, elapsed, d1)
            <= total_penalty(coefficient, time_sensitivity, elapsed, d2),
{
    lemma_exp_fp_monotonic(d1, d2);
    lemma_mul_inequality(exp_fp(d1), exp_fp(d2), coefficient as int);
    lemma_div_is_ordered(
        coefficient * exp_fp(d1),
        coefficient * exp_fp(d2),
        FP_SCALE as int,
    );
    lemma_time_multiplier_nonneg(time_sensitivity, elapsed);
    lemma_mul_inequality(
        price_penalty(coefficient, d1),
        price_penalty(coefficient, d2),
        time_multiplier_fp(time_sensitivity, elapsed),
    );
    lemma_div_is_ordered(
        price_penalty(coefficient, d1) * time_multiplier_fp(time_sensitivity, elapsed),
        price_penalty(coefficient, d2) * time_multiplier_fp(time_sensitivity, elapsed),
        FP_SCALE as int,
    );
}

/// The recency multiplier is at least `FP_SCALE` (that is, at least 1) while
/// some time has elapsed.
proof fn lemma_time_multiplier_nonneg(time_sensitivity: u64, elapsed: int)
    requires
        elapsed > 0,
    ensures
        time_multiplier_fp(time_sensitivity, elapsed) >= FP_SCALE,
{
    lemma_mul_nonnegative(time_sensitivity as int, FP_SCALE as int);
    lemma_div_pos_is_pos(time_sensitivity * (FP_SCALE as int), elapsed);
}

/// Law: a zero penalty coefficient yields a zero price penalty, a zero time
/// penalty, and a zero total penalty, whatever the deviation and however
/// little time has elapsed.
pub proof fn lemma_zero_coefficient_penalty(time_sensitivity: u64, elapsed: int, delta: int)
    ensures
        price_penalty(0, delta) == 0,
        time_penalty(0, time_sensitivity, elapsed, delta) == 0,
        total_penalty(0, time_sensitivity, elapsed, delta) == 0,
{
    assert(0 * exp_fp(delta) == 0) by (nonlinear_arith);
    assert(price_penalty(0, delta) == 0);
    assert(0 * time_multiplier_fp(time_sensitivity, elapsed) == 0) by (nonlinear_arith);
}

/// Computes the fixed-point exponential of `delta`, or reports that it
/// exceeds `EXP_FP_CAP`.
fn exp_fp_capped(delta: u64) -> (result: Option<u128>)
    ensures
        match result {
            Some(v) => v == exp_fp(delta as int) && v <= EXP_FP_CAP,
            None => exp_fp(delta as int) > EXP_FP_CAP,
        },
{
    let mut acc: u128 = FP_SCALE;
    let mut i: u64 = 0;
    while i < delta
        invariant
            i <= delta,
            acc == exp_fp(i as int),
        decreases delta - i,
    {
        if acc > EXP_FP_CAP {
            proof {
                lemma_exp_fp_monotonic(i as int, delta as int);
            }
            return None;
        }
        proof {
            assert(acc * EULER_NUM <= 27_182_820_000_000_000_000_000_000) by (nonlinear_arith)
                requires
                    acc <= 10_000_000_000_000_000_000,
                    EULER_NUM == 2_718_282,
            ;
        }
        acc = acc * EULER_NUM / EULER_DEN;
        i = i + 1;
    }
    if acc > EXP_FP_CAP {
        None
    } else {
        Some(acc)
    }
}

/// Evaluates one order and settles its penalty atomically.
///
/// On success the returned pair is the settled `(new_balance,
/// new_last_transaction)`, the balance has been charged exactly
/// `total_penalty`, and the last-transaction time has advanced to `now`. On
/// any failure the named error comes back and the user record is untouched.
/// The result is exactly `order_outcome` on the inputs, for every input.
pub fn place_order(
    market: &Market,
    user: &mut User,
    order_price: u64,
    now: i64,
    policy: BalancePolicy,
) -> (result: Result<(i64, i64), OrderError>)
    ensures
        result == order_outcome(*market, *old(user), order_price, now, policy),
        result is Err ==> *final(user) == *old(user),
        result matches Ok(settled) ==> ({
            &&& settled.0 == final(user).balance
            &&& settled.1 == now
            &&& final(user).last_transaction == now
            &&& final(user).balance == old(user).balance - total_penalty(
                market.penalty_coefficient,
                market.time_sensitivity,
                now - old(user).last_transaction,
                delta_price(order_price, market.current_price),
            )
        }),
        market.well_formed() && now == old(user).last_transaction ==> result == Err::<
            (i64, i64),
            OrderError,
        >(OrderError::DegenerateTimeError),
{
    if market.time_sensitivity == 0 {
        return Err(OrderError::ConfigurationError);
    }
    if now <= user.last_transaction {
        return Err(OrderError::DegenerateTimeError);
    }
    let elapsed: u128 = (now as i128 - user.last_transaction as i128) as u128;
    let ghost spec_elapsed: int = now - user.last_transaction;
    let ghost spec_delta: int = delta_price(order_price, market.current_price);
    assert(elapsed == spec_elapsed);

    let coefficient: u64 = market.penalty_coefficient;
    let total: u128;
    if coefficient == 0 {
        proof {
            lemma_zero_coefficient_penalty(market.time_sensitivity, spec_elapsed, spec_delta);
        }
        total = 0;
    } else {
        let delta: u64 = if order_price >= market.current_price {
            order_price - market.current_price
        } else {
            market.current_price - order_price
        };
        assert(delta == spec_delta);
        let exp_value: u128 = match exp_fp_capped(delta) {
            Some(v) => v,
            None => {
                return Err(OrderError::OverflowError);
            },
        };
        proof {
            lemma_mul_upper_bound(
                coefficient as int,
                u64::MAX as int,
                exp_value as int,
                EXP_FP_CAP as int,
            );
            assert((u64::MAX as int) * (EXP_FP_CAP as int)
                == 184_467_440_737_095_516_150_000_000_000_000_000_000) by (nonlinear_arith)
                requires
                    EXP_FP_CAP == 10_000_000_000_000_000_000,
            ;
        }
        let price_mul: u128 = (coefficient as u128) * exp_value;
        let price_pen: u128 = price_mul / FP_SCALE;
        let ts: u128 = market.time_sensitivity as u128;
        proof {
            lemma_mul_upper_bound(ts as int, u64::MAX as int, FP_SCALE as int, FP_SCALE as int);
            assert((u64::MAX as int) * (FP_SCALE as int)
                == 18_446_744_073_709_551_615_000_000) by (nonlinear_arith)
                requires
                    FP_SCALE == 1_000_000,
            ;
            lemma_mul_nonnegative(ts as int, FP_SCALE as int);
            lemma_div_nonincreasing(ts * (FP_SCALE as int), spec_elapsed);
            lemma_div_pos_is_pos(ts * (FP_SCALE as int), spec_elapsed);
        }
        let mult: u128 = FP_SCALE + ts * FP_SCALE / elapsed;
        match price_pen.checked_mul(mult) {
            Some(time_mul) => {
                let time_pen: u128 = time_mul / FP_SCALE;
                proof {
                    lemma_div_is_ordered(
                        price_mul as int,
                        (u64::MAX as int) * (EXP_FP_CAP as int),
                        FP_SCALE as int,
                    );
                    lemma_div_is_ordered(time_mul as int, u128::MAX as int, FP_SCALE as int);
                    assert((u64::MAX as int) * (EXP_FP_CAP as int) / (FP_SCALE as int)
                        + u128::MAX as int / (FP_SCALE as int) <= u128::MAX) by (nonlinear_arith)
                        requires
                            FP_SCALE == 1_000_000,
                            (u64::MAX as int) * (EXP_FP_CAP as int)
                                == 184_467_440_737_095_516_150_000_000_000_000_000_000,
                    ;
                }
                total = price_pen + time_pen;
            },
            None => {
                return Err(OrderError::OverflowError);
            },
        }
    }
    assert(total == total_penalty(coefficient, market.time_sensitivity, spec_elapsed, spec_delta));

    let headroom: u128 = (user.balance as i128 - i64::MIN as i128) as u128;
    if policy == BalancePolicy::RejectInsufficient {
        if user.balance < 0 || (user.balance as u128) < total {
            return Err(OrderError::InsufficientBalanceError);
        }
    } else {
        if total > headroom {
            return Err(OrderError::OverflowError);
        }
    }
    let new_balance: i64 = (user.balance as i128 - total as i128) as i64;
    user.balance = new_balance;
    user.last_transaction = now;
    Ok((new_balance, now))
}

} // verus!
