//! Caps on deposits and withdrawals of one asset.
//!
//! A deposit or a withdrawal may not be larger than its cap. Withdrawals are
//! also summed over a window of `WITHDRAWAL_TOKEN_PERIOD` seconds, and the sum
//! may not pass the daily cap. The first withdrawal after the window has run
//! out starts a new window with an empty sum.

use vstd::prelude::*;
use crate::error::RoundLoaderError;
use crate::state::{Settings, WITHDRAWAL_TOKEN_PERIOD};

verus! {

/// The window of `settings` has run out at time `now`.
pub open spec fn window_elapsed(settings: Settings, now: i64) -> bool {
    now - settings.withdrawal_window_start >= WITHDRAWAL_TOKEN_PERIOD
}

/// What has been withdrawn in the window that is in force at time `now`:
/// nothing where a new window starts, else the running total.
pub open spec fn used_in_window(settings: Settings, now: i64) -> nat {
    if window_elapsed(settings, now) {
        0
    } else {
        settings.withdrawal_daily_amount as nat
    }
}

/// What reserving `amount` at time `now` does: refused with
/// `WithdrawalLimitExceeded` above the cap for one withdrawal, and with
/// `DailyLimitExceeded` where the window's total would pass the daily cap;
/// else the amount is added to the total, and a window that has run out is
/// replaced by one that starts at `now`.
pub open spec fn reserve_spec(settings: Settings, amount: u64, now: i64) -> Result<
    Settings,
    RoundLoaderError,
> {
    if amount > settings.withdrawal_limit {
        Err(RoundLoaderError::WithdrawalLimitExceeded)
    } else if used_in_window(settings, now) + amount > settings.withdrawal_daily_limit {
        Err(RoundLoaderError::DailyLimitExceeded)
    } else {
        Ok(
            Settings {
                withdrawal_daily_amount: (used_in_window(settings, now) + amount) as u64,
                withdrawal_window_start: if window_elapsed(settings, now) {
                    now
                } else {
                    settings.withdrawal_window_start
                },
                ..settings
            },
        )
    }
}

/// What the check of a deposit gives: `DepositLimitExceeded` above the cap
/// for one deposit.
pub open spec fn deposit_check_spec(settings: Settings, amount: u64) -> Result<(), RoundLoaderError> {
    if amount > settings.deposit_limit {
        Err(RoundLoaderError::DepositLimitExceeded)
    } else {
        Ok(())
    }
}

/// Two withdrawals in one window, each within the cap for one withdrawal,
/// are both accepted exactly when the window's total with both stays within
/// the daily cap. In a window in which nothing was withdrawn before, that is
/// when the two amounts together stay within the daily cap.
pub proof fn law_two_withdrawals_in_one_window(
    settings: Settings,
    first: u64,
    second: u64,
    now_first: i64,
    now_second: i64,
)
    requires
        first <= settings.withdrawal_limit,
        second <= settings.withdrawal_limit,
        window_elapsed(settings, now_first) ==> now_second - now_first < WITHDRAWAL_TOKEN_PERIOD,
        !window_elapsed(settings, now_first) ==> !window_elapsed(settings, now_second),
    ensures
        (reserve_spec(settings, first, now_first) is Ok && reserve_spec(
            reserve_spec(settings, first, now_first)->Ok_0,
            second,
            now_second,
        ) is Ok) <==> used_in_window(settings, now_first) + first + second
            <= settings.withdrawal_daily_limit,
        used_in_window(settings, now_first) + first + second <= settings.withdrawal_daily_limit
            ==> reserve_spec(
            reserve_spec(settings, first, now_first)->Ok_0,
            second,
            now_second,
        )->Ok_0.withdrawal_daily_amount == used_in_window(settings, now_first) + first + second,
{
}

/// After the window has run out, a withdrawal of the whole daily cap is
/// accepted whatever was withdrawn before, provided one withdrawal may be
/// that large.
pub proof fn law_new_window_restores_daily_cap(settings: Settings, now: i64)
    requires
        window_elapsed(settings, now),
        settings.withdrawal_daily_limit <= settings.withdrawal_limit,
    ensures
        reserve_spec(settings, settings.withdrawal_daily_limit, now) is Ok,
        reserve_spec(settings, settings.withdrawal_daily_limit, now)->Ok_0.withdrawal_daily_amount
            == settings.withdrawal_daily_limit,
        reserve_spec(settings, settings.withdrawal_daily_limit, now)->Ok_0.withdrawal_window_start
            == now,
{
}

/// An accepted reservation changes the running total and the start of the
/// window and nothing else, and leaves the total within the daily cap.
pub proof fn law_reservation_touches_only_the_window(settings: Settings, amount: u64, now: i64)
    ensures
        reserve_spec(settings, amount, now) matches Ok(next) ==> {
            &&& next.withdrawal_daily_amount <= next.withdrawal_daily_limit
            &&& next.withdrawal_daily_amount >= amount
            &&& next == (Settings {
                withdrawal_daily_amount: next.withdrawal_daily_amount,
                withdrawal_window_start: next.withdrawal_window_start,
                ..settings
            })
        },
{
}

/// Whether the window of `settings` has run out at time `now`.
pub fn window_has_elapsed(settings: &Settings, now: i64) -> (elapsed: bool)
    ensures
        elapsed == window_elapsed(*settings, now),
{
    let since: i128 = now as i128 - settings.withdrawal_window_start as i128;
    since >= WITHDRAWAL_TOKEN_PERIOD as i128
}

/// Checks a deposit of `amount` against the cap for one deposit.
pub fn check_deposit(settings: &Settings, amount: u64) -> (outcome: Result<(), RoundLoaderError>)
    ensures
        outcome == deposit_check_spec(*settings, amount),
{
    if amount > settings.deposit_limit {
        Err(RoundLoaderError::DepositLimitExceeded)
    } else {
        Ok(())
    }
}

/// Checks a withdrawal of `amount` at time `now` against both caps without
/// reserving it: refused exactly where `check_and_reserve` would refuse, with
/// the same error.
pub fn check_withdrawal(settings: &Settings, amount: u64, now: i64) -> (outcome: Result<
    (),
    RoundLoaderError,
>)
    ensures
        match reserve_spec(*settings, amount, now) {
            Ok(_) => outcome is Ok,
            Err(e) => outcome == Err::<(), RoundLoaderError>(e),
        },
{
    if amount > settings.withdrawal_limit {
        return Err(RoundLoaderError::WithdrawalLimitExceeded);
    }
    let used: u64 = if window_has_elapsed(settings, now) {
        0
    } else {
        settings.withdrawal_daily_amount
    };
    if used as u128 + amount as u128 > settings.withdrawal_daily_limit as u128 {
        return Err(RoundLoaderError::DailyLimitExceeded);
    }
    Ok(())
}

/// Reserves a withdrawal of `amount` at time `now`, as `reserve_spec` says.
/// On a refusal the settings are unchanged.
pub fn check_and_reserve(settings: &mut Settings, amount: u64, now: i64) -> (outcome: Result<
    (),
    RoundLoaderError,
>)
    ensures
        match reserve_spec(*old(settings), amount, now) {
            Ok(next) => outcome is Ok && *final(settings) == next,
            Err(e) => outcome == Err::<(), RoundLoaderError>(e) && *final(settings) == *old(
                settings,
            ),
        },
{
    if amount > settings.withdrawal_limit {
        return Err(RoundLoaderError::WithdrawalLimitExceeded);
    }
    let elapsed = window_has_elapsed(settings, now);
    let used: u64 = if elapsed {
        0
    } else {
        settings.withdrawal_daily_amount
    };
    if used as u128 + amount as u128 > settings.withdrawal_daily_limit as u128 {
        return Err(RoundLoaderError::DailyLimitExceeded);
    }
    settings.withdrawal_daily_amount = used + amount;
    if elapsed {
        settings.withdrawal_window_start = now;
    }
    Ok(())
}

} // verus!
