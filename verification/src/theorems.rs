//! What holds of every ledger, proved over the rules of [`crate::model`].
use crate::error::ContractError;
use crate::math::u256_max;
use crate::model::{
    account_valid, accrued, after_requests, claim_due, claim_outcome, claim_result, claim_state,
    claimable, claimed_account, execute_outcome, fully_claimed, grant_apply, grant_check,
    grant_split, granted_account, instant_share, instantiate_result, is_multiple_of,
    next_claim_time, outstanding, outstanding_total, period_share, periods_between, reward_amount,
    vest_outcome, vest_result, vesting_cap, vesting_info,
};
use crate::msg::{
    Coin, Env, ExecuteMsg, InstantiateMsg, MessageInfo, TransferView, UserVesting,
    UserVestingInfoView,
};
use crate::state::{AccountView, ConfigView, LedgerView, PERCENTS};
use vstd::arithmetic::div_mod::{
    lemma_div_by_multiple, lemma_div_is_ordered, lemma_fundamental_div_mod,
    lemma_hoist_over_denominator, lemma_mod_bound, lemma_mod_multiples_basic,
    lemma_mod_multiples_vanish, lemma_small_mod,
};
use vstd::arithmetic::mul::{
    lemma_mul_inequality, lemma_mul_is_commutative, lemma_mul_is_distributive_sub,
};
use vstd::prelude::*;

verus! {

/// The total of what is outstanding is what one account has outstanding
/// added to the total of the others.
pub proof fn lemma_outstanding_total_remove(
    accounts: Map<Seq<char>, AccountView>,
    config: ConfigView,
    user: Seq<char>,
)
    requires
        accounts.dom().finite(),
        accounts.contains_key(user),
    ensures
        outstanding_total(accounts, config) == outstanding(accounts[user], config)
            + outstanding_total(accounts.remove(user), config),
    decreases accounts.dom().len(),
{
    let chosen = accounts.dom().choose();
    if chosen != user {
        lemma_outstanding_total_remove(accounts.remove(chosen), config, user);
        lemma_outstanding_total_remove(accounts.remove(user), config, chosen);
        assert(accounts.remove(chosen).remove(user) =~= accounts.remove(user).remove(chosen));
    }
}

/// Writing an account changes the total of what is outstanding by the
/// difference between what the new account and the old one have outstanding.
pub proof fn lemma_outstanding_total_insert(
    accounts: Map<Seq<char>, AccountView>,
    config: ConfigView,
    user: Seq<char>,
    account: AccountView,
)
    requires
        accounts.dom().finite(),
    ensures
        accounts.contains_key(user) ==> outstanding_total(accounts.insert(user, account), config)
            + outstanding(accounts[user], config) == outstanding_total(accounts, config)
            + outstanding(account, config),
        !accounts.contains_key(user) ==> outstanding_total(accounts.insert(user, account), config)
            == outstanding_total(accounts, config) + outstanding(account, config),
{
    lemma_outstanding_total_remove(accounts.insert(user, account), config, user);
    assert(accounts.insert(user, account).remove(user) =~= accounts.remove(user));
    if accounts.contains_key(user) {
        lemma_outstanding_total_remove(accounts, config, user);
    } else {
        assert(accounts.remove(user) =~= accounts);
    }
}

/// In a ledger that is in order, no more was withdrawn than was granted.
pub proof fn theorem_withdrawn_within_granted(s: LedgerView)
    requires
        s.inv(),
    ensures
        s.state.total_claimed <= s.state.total_vested,
{
}

/// In a ledger that is in order, what any beneficiary has withdrawn of their
/// installments is a whole number of periods' worth, and no more than the
/// installments hold. This covers the beneficiaries without an account.
pub proof fn theorem_claimed_in_whole_periods(s: LedgerView, user: Seq<char>)
    requires
        s.inv(),
    ensures
        is_multiple_of(s.account(user).claims.amount_claimed, s.account(user).claims.amount),
        s.account(user).claims.amount_claimed <= s.account(user).claims.amount
            * s.config.lock_periods,
{
}

/// With a share of at most one hundred percent, the instant share of an
/// amount is no more than the amount.
pub proof fn theorem_instant_share_within_amount(amount: nat, config: ConfigView)
    requires
        config.instant_claim_percents <= PERCENTS,
    ensures
        instant_share(amount, config) <= amount,
{
    let scale = PERCENTS as int;
    let percents = config.instant_claim_percents as int;
    let whole = amount as int;
    assert(whole * percents <= whole * scale) by {
        lemma_mul_inequality(percents, scale, whole);
        lemma_mul_is_commutative(whole, percents);
        lemma_mul_is_commutative(whole, scale);
    }
    assert((whole * scale) / scale == whole) by {
        lemma_div_by_multiple(whole, scale);
    }
    assert((whole * percents) / scale <= (whole * scale) / scale) by {
        lemma_div_is_ordered(whole * percents, whole * scale, scale);
    }
}

/// A grant splits an amount into an instant share and equal installments that
/// together are no more than the amount, and fall short of it by less than
/// the number of periods.
pub proof fn theorem_grant_split_bounds(amount: nat, config: ConfigView)
    requires
        grant_split(amount, config) is Ok,
    ensures
        instant_share(amount, config) + period_share(amount, config) * config.lock_periods
            <= amount,
        amount < instant_share(amount, config) + period_share(amount, config)
            * config.lock_periods + config.lock_periods,
{
    let rest = amount - instant_share(amount, config);
    let periods = config.lock_periods as int;
    assert(rest == (rest / periods) * periods + rest % periods) by {
        lemma_fundamental_div_mod(rest, periods);
        lemma_mul_is_commutative(periods, rest / periods);
    }
    assert(0 <= rest % periods < periods) by {
        lemma_mod_bound(rest, periods);
    }
    assert(period_share(amount, config) == rest / periods);
}

/// A ledger that was just started is in order.
pub proof fn theorem_instantiate_inv(msg: InstantiateMsg)
    requires
        instantiate_result(msg) is Ok,
    ensures
        instantiate_result(msg)->Ok_0.inv(),
{
}

/// A withdrawal leaves a ledger that is in order in order.
pub proof fn theorem_claim_preserves_inv(s: LedgerView, sender: Seq<char>, now: nat, balance: nat)
    requires
        s.inv(),
        claim_result(s, sender, now, balance) is Ok,
    ensures
        claim_state(s, sender, now).inv(),
{
    let config = s.config;
    let account = s.account(sender);
    let claims = account.claims;
    let reward = accrued(claims, config, now)->Ok_0;
    let written = claimed_account(account, reward, now);
    let after = claim_state(s, sender, now);
    let cap = vesting_cap(claims, config);
    // Somebody without an account is owed nothing, so the sender has one.
    assert(s.accounts.contains_key(sender)) by {
        if !s.accounts.contains_key(sender) {
            assert(0 * config.lock_periods == 0) by (nonlinear_arith);
            assert(fully_claimed(claims, config));
        }
    }
    assert(account_valid(account, config));
    assert(vesting_cap(written.claims, config) == cap);
    // What is withdrawn stays a whole number of periods' worth and within
    // what the installments hold.
    assert(account_valid(written, config)) by {
        let amount = claims.amount as int;
        if fully_claimed(claims, config) {
            assert(reward == 0);
        } else if reward == cap - claims.amount_claimed {
            lemma_mod_multiples_basic(config.lock_periods as int, amount);
            lemma_mul_is_commutative(config.lock_periods as int, amount);
        } else {
            let more = periods_between(now, claims.init_vesting, config.lock_minutes)
                - claims.amount_claimed / claims.amount;
            assert(reward == amount * more);
            lemma_mul_is_commutative(amount, more);
            lemma_mod_multiples_vanish(more, claims.amount_claimed as int, amount);
        }
    }
    assert forall|user: Seq<char>| #[trigger] after.accounts.contains_key(user) implies account_valid(
        after.accounts[user],
        after.config,
    ) by {
        if user != sender {
            assert(s.accounts.contains_key(user));
        }
    }
    // What the sender has outstanding shrinks by what is paid.
    assert(outstanding(written, config) + reward + account.instant == outstanding(
        account,
        config,
    ));
    lemma_outstanding_total_insert(s.accounts, config, sender, written);
}

/// Writing the lines of a grant that can be made leaves the accounts finite
/// and in order, and adds no more to the total of what is outstanding than
/// the lines add up to.
pub proof fn lemma_grant_apply(
    accounts: Map<Seq<char>, AccountView>,
    users: Seq<UserVesting>,
    config: ConfigView,
    now: nat,
)
    requires
        accounts.dom().finite(),
        forall|user: Seq<char>| #[trigger]
            accounts.contains_key(user) ==> account_valid(accounts[user], config),
        grant_check(users, config) is Ok,
    ensures
        grant_apply(accounts, users, config, now).dom().finite(),
        forall|user: Seq<char>| #[trigger]
            grant_apply(accounts, users, config, now).contains_key(user) ==> account_valid(
                grant_apply(accounts, users, config, now)[user],
                config,
            ),
        outstanding_total(grant_apply(accounts, users, config, now), config) <= outstanding_total(
            accounts,
            config,
        ) + grant_check(users, config)->Ok_0,
    decreases users.len(),
{
    if users.len() > 0 {
        let amount = users.last().amount@;
        let earlier = grant_apply(accounts, users.drop_last(), config, now);
        let written = granted_account(amount, config, now);
        let after = grant_apply(accounts, users, config, now);
        assert(after == earlier.insert(users.last().user@, written));
        lemma_grant_apply(accounts, users.drop_last(), config, now);
        // The new account is in order and has no more outstanding than was
        // granted.
        theorem_grant_split_bounds(amount, config);
        assert(vesting_cap(written.claims, config) == period_share(amount, config)
            * config.lock_periods);
        assert(is_multiple_of(0, written.claims.amount)) by {
            if written.claims.amount != 0 {
                lemma_small_mod(0, written.claims.amount);
            }
        }
        assert(account_valid(written, config));
        assert(outstanding(written, config) <= amount);
        assert forall|user: Seq<char>| #[trigger] after.contains_key(user) implies account_valid(
            after[user],
            config,
        ) by {
            if user != users.last().user@ {
                assert(earlier.contains_key(user));
            }
        }
        lemma_outstanding_total_insert(earlier, config, users.last().user@, written);
    }
}

/// A grant leaves a ledger that is in order in order.
pub proof fn theorem_vest_preserves_inv(
    s: LedgerView,
    users: Seq<UserVesting>,
    sender: Seq<char>,
    funds: Seq<Coin>,
    now: nat,
)
    requires
        s.inv(),
        vest_result(s, users, sender, funds, now) is Ok,
    ensures
        vest_result(s, users, sender, funds, now)->Ok_0.inv(),
{
    lemma_grant_apply(s.accounts, users, s.config, now);
}

/// What is outstanding depends on the parameters only through the number of
/// periods.
pub proof fn lemma_outstanding_total_periods(
    accounts: Map<Seq<char>, AccountView>,
    config: ConfigView,
    other: ConfigView,
)
    requires
        config.lock_periods == other.lock_periods,
    ensures
        outstanding_total(accounts, config) == outstanding_total(accounts, other),
    decreases accounts.dom().len(),
{
    if accounts.dom().finite() && accounts.dom().len() > 0 {
        lemma_outstanding_total_periods(accounts.remove(accounts.dom().choose()), config, other);
    }
}

/// Every request that is served leaves a ledger that is in order in order.
pub proof fn theorem_execute_preserves_inv(
    s: LedgerView,
    env: Env,
    info: MessageInfo,
    msg: ExecuteMsg,
)
    requires
        s.inv(),
        execute_outcome(s, env, info, msg) is Ok,
    ensures
        execute_outcome(s, env, info, msg)->Ok_0.0.inv(),
{
    match msg {
        ExecuteMsg::VestTokens { users } => {
            theorem_vest_preserves_inv(s, users@, info.sender@, info.funds@, env.time as nat);
        },
        ExecuteMsg::Claim {  } => {
            theorem_claim_preserves_inv(s, info.sender@, env.time as nat, env.balance as nat);
        },
        ExecuteMsg::ChangeAdmin { new_admin } => {},
        ExecuteMsg::ChangeLockMinutes { new_lock_minutes } => {
            let after = execute_outcome(s, env, info, msg)->Ok_0.0;
            lemma_outstanding_total_periods(s.accounts, s.config, after.config);
        },
        ExecuteMsg::ChangeInstantClaimPercents { new_percents } => {
            let after = execute_outcome(s, env, info, msg)->Ok_0.0;
            lemma_outstanding_total_periods(s.accounts, s.config, after.config);
        },
    }
}

/// A withdrawal cannot be repeated at the same time: after one that was
/// served, the next by the same beneficiary at the same time is refused with
/// `CannotClaim`, whatever custody holds then. This holds of every later ledger
/// with the same parameters in which the beneficiary's account is as the
/// withdrawal left it, so also after requests of others in between.
pub proof fn theorem_claim_twice(
    s: LedgerView,
    sender: Seq<char>,
    now: nat,
    balance: nat,
    later: LedgerView,
    later_balance: nat,
)
    requires
        claim_result(s, sender, now, balance) is Ok,
        later.config == s.config,
        later.account(sender) == claim_state(s, sender, now).account(sender),
    ensures
        claim_outcome(later, sender, now, later_balance) == Err::<
            (LedgerView, Option<TransferView>),
            ContractError,
        >(ContractError::CannotClaim {  }),
{
    let config = s.config;
    let claims = s.account(sender).claims;
    let reward = accrued(claims, config, now)->Ok_0;
    let left = claimed_account(s.account(sender), reward, now).claims;
    let cap = vesting_cap(claims, config);
    assert(later.account(sender).claims == left);
    assert(later.account(sender).instant == 0);
    assert(vesting_cap(left, config) == cap);
    if fully_claimed(claims, config) {
        assert(reward == 0);
        assert(fully_claimed(left, config));
    } else if reward == cap - claims.amount_claimed {
        assert(fully_claimed(left, config));
    } else {
        // The withdrawal paid every period that had passed, so as many are
        // withdrawn now as have passed, and none is left to pay.
        let amount = claims.amount as int;
        let passed = periods_between(now, claims.init_vesting, config.lock_minutes) as int;
        let done = claims.amount_claimed as int / amount;
        assert(reward == amount * (passed - done));
        assert(left.amount_claimed as int / amount == passed) by {
            lemma_hoist_over_denominator(
                claims.amount_claimed as int,
                passed - done,
                claims.amount,
            );
            lemma_mul_is_commutative(amount, passed - done);
        }
        assert(amount * (passed - passed) == 0) by (nonlinear_arith);
        assert(reward_amount(
            left.amount,
            now,
            left.init_vesting,
            left.amount_claimed / left.amount,
            config.lock_minutes,
            (cap - left.amount_claimed) as nat,
        ) == Ok::<nat, ContractError>(0));
    }
    assert(accrued(left, config, now) == Ok::<nat, ContractError>(0));
}

/// What a beneficiary can withdraw does not shrink as time passes while
/// nothing else changes: it grows up to all that the account has
/// outstanding, and stays there.
pub proof fn theorem_claimable_monotonic(
    account: AccountView,
    config: ConfigView,
    earlier: nat,
    later: nat,
)
    requires
        earlier <= later,
        claimable(account, config, earlier) is Ok,
        claimable(account, config, later) is Ok,
    ensures
        claimable(account, config, earlier)->Ok_0 <= claimable(account, config, later)->Ok_0,
        claimable(account, config, later)->Ok_0 <= outstanding(account, config),
        claimable(account, config, earlier)->Ok_0 == outstanding(account, config) ==> claimable(
            account,
            config,
            later,
        )->Ok_0 == outstanding(account, config),
{
    let claims = account.claims;
    if !fully_claimed(claims, config) {
        let start = claims.init_vesting as int;
        let minutes = config.lock_minutes as int;
        let amount = claims.amount as int;
        let done = claims.amount_claimed as int / amount;
        let before = periods_between(earlier, claims.init_vesting, config.lock_minutes) as int;
        let after = periods_between(later, claims.init_vesting, config.lock_minutes) as int;
        // More time holds at least as many periods, and so at least as much.
        assert(before <= after) by {
            lemma_div_is_ordered(earlier - start, later - start, 60);
            lemma_div_is_ordered((earlier - start) / 60, (later - start) / 60, minutes);
        }
        assert(amount * (before - done) <= amount * (after - done)) by {
            lemma_mul_inequality(before - done, after - done, amount);
            lemma_mul_is_commutative(amount, before - done);
            lemma_mul_is_commutative(amount, after - done);
        }
    }
}

/// A grant whose amounts do not add up to the deposit is refused with
/// `InvalidFunds`.
pub proof fn theorem_vest_sum_mismatch(
    s: LedgerView,
    users: Seq<UserVesting>,
    sender: Seq<char>,
    funds: Seq<Coin>,
    now: nat,
)
    requires
        sender == s.admin,
        funds.len() == 1,
        users.len() > 0,
        funds[0].denom@ == s.config.injex_token,
        grant_check(users, s.config) is Ok,
        grant_check(users, s.config)->Ok_0 != funds[0].amount,
    ensures
        vest_outcome(s, users, sender, funds, now) == Err::<
            (LedgerView, Option<TransferView>),
            ContractError,
        >(ContractError::InvalidFunds {  }),
{
}

/// Whatever requests a ledger has been handed since it was started, it is in
/// order, and so no more was withdrawn from it than was granted.
pub proof fn theorem_reachable_inv(
    msg: InstantiateMsg,
    requests: Seq<(Env, MessageInfo, ExecuteMsg)>,
)
    requires
        instantiate_result(msg) is Ok,
    ensures
        after_requests(instantiate_result(msg)->Ok_0, requests).inv(),
        after_requests(instantiate_result(msg)->Ok_0, requests).state.total_claimed
            <= after_requests(instantiate_result(msg)->Ok_0, requests).state.total_vested,
    decreases requests.len(),
{
    if requests.len() > 0 {
        let start = instantiate_result(msg)->Ok_0;
        let before = after_requests(start, requests.drop_last());
        theorem_reachable_inv(msg, requests.drop_last());
        let last = requests.last();
        if execute_outcome(before, last.0, last.1, last.2) is Ok {
            theorem_execute_preserves_inv(before, last.0, last.1, last.2);
        }
    }
}

/// No request changes the token or the number of periods.
pub proof fn theorem_periods_never_change(
    s: LedgerView,
    env: Env,
    info: MessageInfo,
    msg: ExecuteMsg,
)
    requires
        execute_outcome(s, env, info, msg) is Ok,
    ensures
        execute_outcome(s, env, info, msg)->Ok_0.0.config.lock_periods == s.config.lock_periods,
        execute_outcome(s, env, info, msg)->Ok_0.0.config.injex_token == s.config.injex_token,
{
}

/// Under parameters in range, every amount that is not zero and can be
/// scaled by the share in 256 bits can be granted.
pub proof fn theorem_grant_split_succeeds(amount: nat, config: ConfigView)
    requires
        config.instant_claim_percents <= PERCENTS,
        config.lock_periods != 0,
        amount != 0,
        amount * config.instant_claim_percents <= u256_max(),
    ensures
        grant_split(amount, config) is Ok,
{
    theorem_instant_share_within_amount(amount, config);
}

/// No request that is served makes either total smaller.
pub proof fn theorem_totals_never_shrink(
    s: LedgerView,
    env: Env,
    info: MessageInfo,
    msg: ExecuteMsg,
)
    requires
        execute_outcome(s, env, info, msg) is Ok,
    ensures
        s.state.total_claimed <= execute_outcome(s, env, info, msg)->Ok_0.0.state.total_claimed,
        s.state.total_vested <= execute_outcome(s, env, info, msg)->Ok_0.0.state.total_vested,
{
}

/// A beneficiary without an account can withdraw nothing, holds nothing, and
/// is refused a withdrawal with `CannotClaim`, at any time.
pub proof fn theorem_stranger_has_nothing(s: LedgerView, user: Seq<char>, now: nat)
    requires
        !s.accounts.contains_key(user),
    ensures
        claimable(s.account(user), s.config, now) == Ok::<nat, ContractError>(0),
        vesting_info(s.account(user), s.config, now) == Ok::<UserVestingInfoView, ContractError>(
            UserVestingInfoView { full_amount: 0, next_claim: 0, claimed: 0 },
        ),
        claim_due(s, user, now) == Err::<nat, ContractError>(ContractError::CannotClaim {  }),
{
    let claims = s.account(user).claims;
    assert(vesting_cap(claims, s.config) == 0) by {
        assert(0 * s.config.lock_periods == 0) by (nonlinear_arith);
    }
    assert(fully_claimed(claims, s.config));
    assert(next_claim_time(claims, s.config, now) == 0);
}

/// A withdrawal pays what the beneficiary is told they can withdraw, and is
/// refused with `CannotClaim` exactly where that is nothing.
pub proof fn theorem_claim_pays_what_is_claimable(s: LedgerView, sender: Seq<char>, now: nat)
    ensures
        match claimable(s.account(sender), s.config, now) {
            Ok(amount) => if amount == 0 {
                claim_due(s, sender, now) == Err::<nat, ContractError>(
                    ContractError::CannotClaim {  },
                )
            } else {
                claim_due(s, sender, now) == Ok::<nat, ContractError>(amount)
            },
            Err(e) => claim_due(s, sender, now) == Err::<nat, ContractError>(e),
        },
{
}

/// Once every period of a grant has passed, all that the account has
/// outstanding can be withdrawn.
pub proof fn theorem_fully_vested(account: AccountView, config: ConfigView, now: nat)
    requires
        account_valid(account, config),
        config.lock_minutes != 0,
        account.claims.init_vesting + config.lock_periods * config.lock_minutes * 60 <= now,
        claimable(account, config, now) is Ok,
    ensures
        claimable(account, config, now) == Ok::<nat, ContractError>(outstanding(account, config)),
{
    let claims = account.claims;
    if !fully_claimed(claims, config) {
        let periods = config.lock_periods as int;
        let minutes = config.lock_minutes as int;
        let amount = claims.amount as int;
        let elapsed = now - claims.init_vesting;
        let done = claims.amount_claimed as int / amount;
        let passed = periods_between(now, claims.init_vesting, config.lock_minutes) as int;
        // All periods have passed.
        assert(periods * minutes <= elapsed / 60) by {
            lemma_div_by_multiple(periods * minutes, 60);
            lemma_div_is_ordered(periods * minutes * 60, elapsed, 60);
        }
        assert(periods <= passed) by {
            lemma_div_by_multiple(periods, minutes);
            lemma_div_is_ordered(periods * minutes, elapsed / 60, minutes);
        }
        // What is withdrawn is a whole number of periods' worth.
        assert(claims.amount_claimed == amount * done) by {
            lemma_fundamental_div_mod(claims.amount_claimed as int, amount);
        }
        // So the periods not withdrawn are worth at least what is left.
        assert(amount * (passed - done) >= amount * periods - amount * done) by {
            lemma_mul_inequality(periods - done, passed - done, amount);
            lemma_mul_is_commutative(amount, periods - done);
            lemma_mul_is_commutative(amount, passed - done);
            lemma_mul_is_distributive_sub(amount, periods, done);
        }
        assert(amount * (passed - done) >= vesting_cap(claims, config) - claims.amount_claimed);
    }
}

} // verus!
