//! The requests a ledger serves.
//!
//! Each function here is specified by the rule of the same purpose in
//! [`crate::model`]: it returns what the rule gives, and leaves the ledger as
//! the rule says. A request that is refused leaves the ledger as it was.
use crate::error::ContractError;
use crate::math::{u256_max, U256};
use crate::model::{
    accrued, change_admin_outcome, change_instant_percents_outcome, change_lock_minutes_outcome,
    claim_due, claim_outcome, claimable, execute_outcome, grant_apply, grant_check, grant_split,
    granted_account, instantiate_result, lemma_grant_check_refused, next_claim_time,
    periods_between, query_result, reward_amount, vest_outcome, vesting_info, Outcome, QueryAnswer,
};
use crate::msg::{
    Env, ExecuteMsg, InstantiateMsg, MessageInfo, QueryMsg, QueryResponse, Response, Transfer,
    UserVesting, UserVestingInfo, UserVestingInfoView,
};
use crate::state::{Account, Config, Ledger, LedgerView, State, UserClaims, PERCENTS};
use crate::theorems::{
    lemma_outstanding_total_periods, theorem_claim_preserves_inv, theorem_vest_preserves_inv,
};
use vstd::arithmetic::div_mod::lemma_basic_div;
use vstd::prelude::*;

verus! {

/// An amount or an error, with the amount as a number.
pub open spec fn amount_result(r: Result<U256, ContractError>) -> Result<nat, ContractError> {
    match r {
        Ok(v) => Ok(v@),
        Err(e) => Err(e),
    }
}

/// A vesting report or an error, with the report as numbers.
pub open spec fn info_result(r: Result<UserVestingInfo, ContractError>) -> Result<
    UserVestingInfoView,
    ContractError,
> {
    match r {
        Ok(info) => Ok(info@),
        Err(e) => Err(e),
    }
}

/// An answer or an error, with the answer as numbers and text.
pub open spec fn answer_result(r: Result<QueryResponse, ContractError>) -> Result<
    QueryAnswer,
    ContractError,
> {
    match r {
        Ok(QueryResponse::ClaimableAmount(amount)) => Ok(QueryAnswer::ClaimableAmount(amount@)),
        Ok(QueryResponse::InstantClaim(amount)) => Ok(QueryAnswer::InstantClaim(amount@)),
        Ok(QueryResponse::VestedAmount(info)) => Ok(QueryAnswer::VestedAmount(info@)),
        Ok(QueryResponse::InjxToken(token)) => Ok(QueryAnswer::InjxToken(token@)),
        Ok(QueryResponse::Config(config)) => Ok(QueryAnswer::Config(config@)),
        Ok(QueryResponse::TotalClaimed(amount)) => Ok(QueryAnswer::TotalClaimed(amount@)),
        Ok(QueryResponse::TotalVested(amount)) => Ok(QueryAnswer::TotalVested(amount@)),
        Err(e) => Err(e),
    }
}

/// What a request did: the ledger after it and the payment it asks for, or
/// the reason why it was refused.
pub open spec fn applied(r: Result<Response, ContractError>, after: LedgerView) -> Outcome {
    match r {
        Ok(response) => Ok((after, response.transfer_view())),
        Err(e) => Err(e),
    }
}

/// Starts a ledger with the parameters and the administrator of `msg`, with
/// nothing granted and nothing withdrawn. A share above one hundred percent
/// is refused with `InvalidPercents`, a period of no length with
/// `InvalidLockMinutes`, and a number of periods of zero with
/// `InvalidLockPeriods`.
pub fn instantiate(msg: InstantiateMsg) -> (r: Result<Ledger, ContractError>)
    ensures
        match r {
            Ok(ledger) => instantiate_result(msg) == Ok::<LedgerView, ContractError>(ledger@)
                && ledger@.inv(),
            Err(e) => instantiate_result(msg) == Err::<LedgerView, ContractError>(e),
        },
{
    if msg.instant_claim_percents.gt(&U256::from_u128(PERCENTS)) {
        return Err(ContractError::InvalidPercents {  });
    }
    if msg.lock_minutes.is_zero() {
        return Err(ContractError::InvalidLockMinutes {  });
    }
    if msg.lock_periods.is_zero() {
        return Err(ContractError::InvalidLockPeriods {  });
    }
    let config = Config {
        injex_token: msg.injex_token,
        instant_claim_percents: msg.instant_claim_percents,
        lock_minutes: msg.lock_minutes,
        lock_periods: msg.lock_periods,
    };
    let state = State { total_claimed: U256::zero(), total_vested: U256::zero() };
    Ok(Ledger::new(config, msg.admin, state))
}

/// Serves a request that changes the ledger: a grant, a withdrawal, or one of
/// the administrator's changes. A refused request changes nothing.
pub fn execute(ledger: &mut Ledger, env: Env, info: MessageInfo, msg: ExecuteMsg) -> (r: Result<
    Response,
    ContractError,
>)
    ensures
        applied(r, final(ledger)@) == execute_outcome(old(ledger)@, env, info, msg),
        r is Err ==> final(ledger)@ == old(ledger)@,
        old(ledger)@.inv() ==> final(ledger)@.inv(),
{
    match msg {
        ExecuteMsg::VestTokens { users } => vest_tokens(users, ledger, env, info),
        ExecuteMsg::Claim {  } => claim(ledger, env, info),
        ExecuteMsg::ChangeAdmin { new_admin } => change_admin(ledger, info, new_admin),
        ExecuteMsg::ChangeLockMinutes { new_lock_minutes } => change_lock_minutes(
            ledger,
            info,
            new_lock_minutes,
        ),
        ExecuteMsg::ChangeInstantClaimPercents { new_percents } => change_instant_percents(
            ledger,
            info,
            new_percents,
        ),
    }
}

/// Names `new_admin` the administrator. Only the administrator may do so.
pub fn change_admin(ledger: &mut Ledger, info: MessageInfo, new_admin: String) -> (r: Result<
    Response,
    ContractError,
>)
    ensures
        applied(r, final(ledger)@) == change_admin_outcome(
            old(ledger)@,
            info.sender@,
            new_admin@,
        ),
        r is Err ==> final(ledger)@ == old(ledger)@,
        old(ledger)@.inv() ==> final(ledger)@.inv(),
{
    match check_is_admin(ledger, &info.sender) {
        Ok(_) => {},
        Err(e) => {
            return Err(e);
        },
    }
    ledger.set_admin(new_admin);
    Ok(Response { transfer: None })
}

/// Sets the length of a period, in minutes. Only the administrator may do
/// so, and a period of no length is refused with `InvalidLockMinutes`. The
/// new length holds for the grants already made too.
pub fn change_lock_minutes(ledger: &mut Ledger, info: MessageInfo, new_lock_minutes: U256) -> (r:
    Result<Response, ContractError>)
    ensures
        applied(r, final(ledger)@) == change_lock_minutes_outcome(
            old(ledger)@,
            info.sender@,
            new_lock_minutes@,
        ),
        r is Err ==> final(ledger)@ == old(ledger)@,
        old(ledger)@.inv() ==> final(ledger)@.inv(),
{
    match check_is_admin(ledger, &info.sender) {
        Ok(_) => {},
        Err(e) => {
            return Err(e);
        },
    }
    if new_lock_minutes.is_zero() {
        return Err(ContractError::InvalidLockMinutes {  });
    }
    let mut config = ledger.config().clone();
    config.lock_minutes = new_lock_minutes;
    ledger.set_config(config);
    proof {
        lemma_outstanding_total_periods(old(ledger)@.accounts, old(ledger)@.config, ledger@.config);
    }
    Ok(Response { transfer: None })
}

/// Sets the share of a grant that unlocks at once, in units of [`PERCENTS`].
/// Only the administrator may do so, and a share above one hundred percent
/// is refused with `InvalidPercents`. Grants already made keep their split.
pub fn change_instant_percents(
    ledger: &mut Ledger,
    info: MessageInfo,
    new_instant_percents: U256,
) -> (r: Result<Response, ContractError>)
    ensures
        applied(r, final(ledger)@) == change_instant_percents_outcome(
            old(ledger)@,
            info.sender@,
            new_instant_percents@,
        ),
        r is Err ==> final(ledger)@ == old(ledger)@,
        old(ledger)@.inv() ==> final(ledger)@.inv(),
{
    match check_is_admin(ledger, &info.sender) {
        Ok(_) => {},
        Err(e) => {
            return Err(e);
        },
    }
    if new_instant_percents.gt(&U256::from_u128(PERCENTS)) {
        return Err(ContractError::InvalidPercents {  });
    }
    let mut config = ledger.config().clone();
    config.instant_claim_percents = new_instant_percents;
    ledger.set_config(config);
    proof {
        lemma_outstanding_total_periods(old(ledger)@.accounts, old(ledger)@.config, ledger@.config);
    }
    Ok(Response { transfer: None })
}

/// Answers a question about the ledger at the time of `env`, without
/// changing it.
pub fn query(ledger: &Ledger, env: Env, msg: QueryMsg) -> (r: Result<QueryResponse, ContractError>)
    ensures
        answer_result(r) == query_result(ledger@, env, msg),
{
    match msg {
        QueryMsg::GetInjxToken {  } => match query_injx_token(ledger) {
            Ok(token) => Ok(QueryResponse::InjxToken(token)),
            Err(e) => Err(e),
        },
        QueryMsg::GetClaimableAmount { addr } => match query_claimable_amount(ledger, env, addr) {
            Ok(amount) => Ok(QueryResponse::ClaimableAmount(amount)),
            Err(e) => Err(e),
        },
        QueryMsg::GetInstantClaim { addr } => match query_instant_amount(ledger, addr) {
            Ok(amount) => Ok(QueryResponse::InstantClaim(amount)),
            Err(e) => Err(e),
        },
        QueryMsg::GetTotalClaimed {  } => match query_total_claimed(ledger) {
            Ok(amount) => Ok(QueryResponse::TotalClaimed(amount)),
            Err(e) => Err(e),
        },
        QueryMsg::GetTotalVested {  } => match query_total_vested(ledger) {
            Ok(amount) => Ok(QueryResponse::TotalVested(amount)),
            Err(e) => Err(e),
        },
        QueryMsg::GetVestedAmount { addr } => match query_user_vesting_info(ledger, env, addr) {
            Ok(info) => Ok(QueryResponse::VestedAmount(info)),
            Err(e) => Err(e),
        },
        QueryMsg::GetConfig {  } => match query_config(ledger) {
            Ok(config) => Ok(QueryResponse::Config(config)),
            Err(e) => Err(e),
        },
    }
}

/// Grants each of `users` their amount at the time of `env`, out of the one
/// deposit that comes with the request.
///
/// Only the administrator may grant. A share of each amount, fixed by the
/// parameters, is the beneficiary's instant share; the rest is cut into equal
/// installments, rounded down. Each line replaces what the beneficiary had
/// before. The amounts must add up to the deposit, which must be in the
/// vesting token; the total granted grows by that sum. A refused request
/// changes nothing.
pub fn vest_tokens(users: Vec<UserVesting>, ledger: &mut Ledger, env: Env, info: MessageInfo) -> (r:
    Result<Response, ContractError>)
    ensures
        applied(r, final(ledger)@) == vest_outcome(
            old(ledger)@,
            users@,
            info.sender@,
            info.funds@,
            env.time as nat,
        ),
        r is Err ==> final(ledger)@ == old(ledger)@,
        old(ledger)@.inv() ==> final(ledger)@.inv(),
{
    match check_is_admin(ledger, &info.sender) {
        Ok(_) => {},
        Err(e) => {
            return Err(e);
        },
    }
    if info.funds.len() != 1 {
        return Err(ContractError::InvalidFunds {  });
    }
    if users.len() == 0 {
        return Err(ContractError::NoUsers {  });
    }
    if info.funds[0].denom != ledger.config().injex_token {
        return Err(ContractError::InvalidCoin {  });
    }
    let ghost before = ledger@;
    let count = users.len();
    // First every line is checked and its account made ready; the ledger is
    // written only once the whole grant is known to stand.
    let mut staged: Vec<Account> = Vec::new();
    let mut new_total_amount = U256::zero();
    let mut i: usize = 0;
    while i < count
        invariant
            i <= count,
            count == users.len(),
            staged.len() == i,
            ledger@ == before,
            before == old(ledger)@,
            info.sender@ == before.admin,
            info.funds@.len() == 1,
            info.funds[0].denom@ == before.config.injex_token,
            grant_check(users@.subrange(0, i as int), before.config) == Ok::<nat, ContractError>(
                new_total_amount@,
            ),
            forall|j: int|
                0 <= j < i ==> (#[trigger] staged[j])@ == granted_account(
                    users[j].amount@,
                    before.config,
                    env.time as nat,
                ),
        decreases count - i,
    {
        let amount = users[i].amount;
        proof {
            assert(users@.subrange(0, i + 1).drop_last() =~= users@.subrange(0, i as int));
        }
        let account = match split_grant(amount, ledger.config(), env.time) {
            Ok(account) => account,
            Err(e) => {
                proof {
                    lemma_grant_check_refused(users@, before.config, i + 1);
                }
                return Err(e);
            },
        };
        new_total_amount = match new_total_amount.checked_add(&amount) {
            Some(sum) => sum,
            None => {
                proof {
                    lemma_grant_check_refused(users@, before.config, i + 1);
                }
                return Err(ContractError::Overflow {  });
            },
        };
        staged.push(account);
        i += 1;
    }
    proof {
        assert(users@.subrange(0, count as int) =~= users@);
    }
    if new_total_amount != U256::from_u128(info.funds[0].amount) {
        return Err(ContractError::InvalidFunds {  });
    }
    let state = ledger.state();
    let total_vested = match state.total_vested.checked_add(&new_total_amount) {
        Some(total_vested) => total_vested,
        None => {
            return Err(ContractError::Overflow {  });
        },
    };
    let mut k: usize = 0;
    while k < count
        invariant
            k <= count,
            count == users.len(),
            staged.len() == count,
            forall|j: int|
                0 <= j < count ==> (#[trigger] staged[j])@ == granted_account(
                    users[j].amount@,
                    before.config,
                    env.time as nat,
                ),
            ledger@ == (LedgerView {
                accounts: grant_apply(
                    before.accounts,
                    users@.subrange(0, k as int),
                    before.config,
                    env.time as nat,
                ),
                ..before
            }),
        decreases count - k,
    {
        proof {
            assert(users@.subrange(0, k + 1).drop_last() =~= users@.subrange(0, k as int));
        }
        ledger.set_account(users[k].user.clone(), staged[k]);
        k += 1;
    }
    ledger.set_state(State { total_claimed: state.total_claimed, total_vested });
    proof {
        if before.inv() {
            theorem_vest_preserves_inv(
                before,
                users@,
                info.sender@,
                info.funds@,
                env.time as nat,
            );
        }
    }
    Ok(Response { transfer: None })
}

/// The account that a grant of `amount` at `now` writes, or the reason why
/// `amount` cannot be granted.
fn split_grant(amount: U256, config: &Config, now: u64) -> (r: Result<Account, ContractError>)
    ensures
        match r {
            Ok(account) => grant_split(amount@, config@) is Ok && account@ == granted_account(
                amount@,
                config@,
                now as nat,
            ),
            Err(e) => grant_split(amount@, config@) == Err::<(), ContractError>(e),
        },
{
    if amount.is_zero() {
        return Err(ContractError::InvalidInjxAmount {  });
    }
    let scaled = match amount.checked_mul(&config.instant_claim_percents) {
        Some(scaled) => scaled,
        None => {
            return Err(ContractError::Overflow {  });
        },
    };
    // The scale is not zero, so this quotient exists.
    let instant = match scaled.checked_div(&U256::from_u128(PERCENTS)) {
        Some(instant) => instant,
        None => {
            return Err(ContractError::DivideByZero {  });
        },
    };
    let remaining = match amount.checked_sub(&instant) {
        Some(remaining) => remaining,
        None => {
            return Err(ContractError::Overflow {  });
        },
    };
    let per_period = match remaining.checked_div(&config.lock_periods) {
        Some(per_period) => per_period,
        None => {
            return Err(ContractError::DivideByZero {  });
        },
    };
    Ok(
        Account {
            instant,
            claims: UserClaims {
                amount: per_period,
                last_claimed: now,
                amount_claimed: U256::zero(),
                init_vesting: now,
            },
        },
    )
}

/// Withdraws for the sender everything that is due at the time of `env`: the
/// installments accrued since the last withdrawal and the pending instant
/// share.
///
/// The request is refused with `CannotClaim` where nothing is due, and with
/// `InsufficientContractBalance` where custody holds less than is due. On
/// success the sender's instant share is zero, the installments withdrawn
/// and the total withdrawn have grown, and the response asks for the payment.
/// A refused request changes nothing.
pub fn claim(ledger: &mut Ledger, env: Env, info: MessageInfo) -> (r: Result<
    Response,
    ContractError,
>)
    ensures
        applied(r, final(ledger)@) == claim_outcome(
            old(ledger)@,
            info.sender@,
            env.time as nat,
            env.balance as nat,
        ),
        r is Err ==> final(ledger)@ == old(ledger)@,
        old(ledger)@.inv() ==> final(ledger)@.inv(),
{
    let sender = info.sender;
    let account = ledger.account(&sender);
    let (reward, total) = match due(ledger, env.time, &sender) {
        Ok(due) => due,
        Err(e) => {
            return Err(e);
        },
    };
    if U256::from_u128(env.balance).lt(&total) {
        return Err(ContractError::InsufficientContractBalance {  });
    }
    // No more than custody holds is due, so the high limb is empty.
    let amount: u128 = total.lo;
    let state = ledger.state();
    let total_claimed = match state.total_claimed.checked_add(&total) {
        Some(total_claimed) => total_claimed,
        None => {
            return Err(ContractError::Overflow {  });
        },
    };
    // What accrues is never more than what is left, so this sum exists.
    let amount_claimed = match account.claims.amount_claimed.checked_add(&reward) {
        Some(amount_claimed) => amount_claimed,
        None => {
            return Err(ContractError::Overflow {  });
        },
    };
    let denom = ledger.config().injex_token.clone();
    ledger.set_account(
        sender.clone(),
        Account {
            instant: U256::zero(),
            claims: UserClaims {
                amount: account.claims.amount,
                last_claimed: env.time,
                amount_claimed,
                init_vesting: account.claims.init_vesting,
            },
        },
    );
    ledger.set_state(State { total_claimed, total_vested: state.total_vested });
    proof {
        if old(ledger)@.inv() {
            theorem_claim_preserves_inv(
                old(ledger)@,
                sender@,
                env.time as nat,
                env.balance as nat,
            );
        }
    }
    Ok(Response { transfer: Some(Transfer { to_address: sender, denom, amount }) })
}

/// What a withdrawal by `sender` at the time of `env` pays, before custody is
/// looked at: the installments accrued since the last withdrawal and the
/// pending instant share. It fails with `CannotClaim` where nothing is due.
pub fn claim_amount(ledger: &Ledger, env: Env, sender: &String) -> (r: Result<U256, ContractError>)
    ensures
        amount_result(r) == claim_due(ledger@, sender@, env.time as nat),
{
    match due(ledger, env.time, sender) {
        Ok((_, total)) => Ok(total),
        Err(e) => Err(e),
    }
}

/// The installments accrued to `sender` at `now` and everything that is due
/// with them, see [`claim_due`].
fn due(ledger: &Ledger, now: u64, sender: &String) -> (r: Result<(U256, U256), ContractError>)
    ensures
        match r {
            Ok((reward, total)) => claim_due(ledger@, sender@, now as nat) == Ok::<
                nat,
                ContractError,
            >(total@) && accrued(ledger@.account(sender@).claims, ledger@.config, now as nat)
                == Ok::<nat, ContractError>(reward@),
            Err(e) => claim_due(ledger@, sender@, now as nat) == Err::<nat, ContractError>(e),
        },
{
    let account = ledger.account(sender);
    let reward = match accrued_reward(&account.claims, ledger.config(), now) {
        Ok(reward) => reward,
        Err(e) => {
            return Err(e);
        },
    };
    if reward.is_zero() && account.instant.is_zero() {
        return Err(ContractError::CannotClaim {  });
    }
    match reward.checked_add(&account.instant) {
        Some(total) => Ok((reward, total)),
        None => Err(ContractError::Overflow {  }),
    }
}

/// What `addr` can withdraw at the time of `env`: the accrued installments
/// and the pending instant share. A beneficiary without an account can
/// withdraw nothing.
pub fn query_claimable_amount(ledger: &Ledger, env: Env, addr: String) -> (r: Result<
    U256,
    ContractError,
>)
    ensures
        amount_result(r) == claimable(ledger@.account(addr@), ledger@.config, env.time as nat),
{
    let account = ledger.account(&addr);
    let reward = match accrued_reward(&account.claims, ledger.config(), env.time) {
        Ok(reward) => reward,
        Err(e) => {
            return Err(e);
        },
    };
    match reward.checked_add(&account.instant) {
        Some(total) => Ok(total),
        None => Err(ContractError::Overflow {  }),
    }
}

/// The installments that can be withdrawn at `now`, see [`accrued`].
fn accrued_reward(claims: &UserClaims, config: &Config, now: u64) -> (r: Result<
    U256,
    ContractError,
>)
    ensures
        amount_result(r) == accrued(claims@, config@, now as nat),
{
    let cap = match claims.amount.checked_mul(&config.lock_periods) {
        Some(cap) => cap,
        None => {
            return Err(ContractError::Overflow {  });
        },
    };
    if claims.amount_claimed == cap {
        return Ok(U256::zero());
    }
    let periods = match claims.amount_claimed.checked_div(&claims.amount) {
        Some(periods) => periods,
        None => {
            return Err(ContractError::DivideByZero {  });
        },
    };
    let left = match cap.checked_sub(&claims.amount_claimed) {
        Some(left) => left,
        None => {
            return Err(ContractError::Overflow {  });
        },
    };
    match config.lock_minutes.to_u64() {
        Some(period_time) => match periods.to_u64() {
            Some(periods_claimed) => calculate_reward_amount(
                claims.amount,
                now,
                claims.init_vesting,
                periods_claimed,
                period_time,
                left,
            ),
            None => {
                // More periods are withdrawn than any clock can have counted.
                if now < claims.init_vesting {
                    Err(ContractError::Overflow {  })
                } else if period_time == 0 {
                    Err(ContractError::DivideByZero {  })
                } else {
                    proof {
                        let passed = (now - claims.init_vesting) / 60 / (period_time as int);
                        assert(passed == ((now - claims.init_vesting) / 60) as u64 / period_time);
                        assert(passed <= u64::MAX < periods@);
                        assert(periods_between(
                            now as nat,
                            claims@.init_vesting,
                            config@.lock_minutes,
                        ) < periods@);
                    }
                    Err(ContractError::Overflow {  })
                }
            },
        },
        None => {
            // A period is longer than any clock can count: none has passed.
            if now < claims.init_vesting {
                Err(ContractError::Overflow {  })
            } else {
                proof {
                    let minutes = (now - claims.init_vesting) / 60;
                    assert(0 <= minutes < config@.lock_minutes);
                    assert(minutes / (config@.lock_minutes as int) == 0) by {
                        lemma_basic_div(minutes, config@.lock_minutes as int);
                    }
                    assert(periods_between(
                        now as nat,
                        claims@.init_vesting,
                        config@.lock_minutes,
                    ) == 0);
                }
                if !periods.is_zero() {
                    Err(ContractError::Overflow {  })
                } else {
                    proof {
                        assert(claims@.amount * (0 - 0) == 0) by (nonlinear_arith);
                    }
                    Ok(U256::zero())
                }
            }
        },
    }
}

/// Everything that was ever withdrawn.
pub fn query_total_claimed(ledger: &Ledger) -> (r: Result<U256, ContractError>)
    ensures
        amount_result(r) == Ok::<nat, ContractError>(ledger@.state.total_claimed),
{
    Ok(ledger.state().total_claimed)
}

/// The instant share of `addr` that is not withdrawn yet; zero for a
/// beneficiary without an account.
pub fn query_instant_amount(ledger: &Ledger, addr: String) -> (r: Result<U256, ContractError>)
    ensures
        amount_result(r) == Ok::<nat, ContractError>(ledger@.account(addr@).instant),
{
    Ok(ledger.account(&addr).instant)
}

/// The parameters of the ledger.
pub fn query_config(ledger: &Ledger) -> (r: Result<Config, ContractError>)
    ensures
        r is Ok,
        r->Ok_0@ == ledger@.config,
{
    Ok(ledger.config().clone())
}

/// What the grant of `addr` still holds at the time of `env`: what is left
/// of it, the installments withdrawn so far, and the second at which the next
/// period completes. A beneficiary without an account has zero for all three.
pub fn query_user_vesting_info(ledger: &Ledger, env: Env, addr: String) -> (r: Result<
    UserVestingInfo,
    ContractError,
>)
    ensures
        info_result(r) == vesting_info(ledger@.account(addr@), ledger@.config, env.time as nat),
{
    let account = ledger.account(&addr);
    let config = ledger.config();
    let cap = match account.claims.amount.checked_mul(&config.lock_periods) {
        Some(cap) => cap,
        None => {
            return Err(ContractError::Overflow {  });
        },
    };
    let remaining_reward = match cap.checked_sub(&account.claims.amount_claimed) {
        Some(remaining_reward) => remaining_reward,
        None => {
            return Err(ContractError::Overflow {  });
        },
    };
    let full_amount = match remaining_reward.checked_add(&account.instant) {
        Some(full_amount) => full_amount,
        None => {
            return Err(ContractError::Overflow {  });
        },
    };
    let next_claim = match next_claim(&account.claims, config, env.time) {
        Some(next_claim) => next_claim,
        None => {
            return Err(ContractError::Overflow {  });
        },
    };
    Ok(UserVestingInfo { full_amount, next_claim, claimed: account.claims.amount_claimed })
}

/// The second at which the next period of a grant completes, see
/// [`next_claim_time`]; nothing where that second is above `2^256 - 1`.
fn next_claim(claims: &UserClaims, config: &Config, now: u64) -> (r: Option<U256>)
    ensures
        next_claim_time(claims@, config@, now as nat) <= u256_max() ==> r is Some && r->0@
            == next_claim_time(claims@, config@, now as nat),
        next_claim_time(claims@, config@, now as nat) > u256_max() ==> r is None,
{
    let periods = match claims.amount_claimed.checked_div(&claims.amount) {
        Some(periods) => periods,
        None => {
            return Some(U256::zero());
        },
    };
    let ghost next_period: int = claims@.amount_claimed as int / claims@.amount as int + 1;
    let ghost minutes: int = config@.lock_minutes as int;
    let ghost start: int = claims@.init_vesting as int;
    let ghost answer: int = next_claim_time(claims@, config@, now as nat) as int;
    assert(periods@ + 1 == next_period);
    // The minutes that must have passed when the next period completes.
    let threshold = match periods.checked_add(&U256::from_u64(1)) {
        Some(next) => next.checked_mul(&config.lock_minutes),
        None => if config.lock_minutes.is_zero() {
            assert(next_period * minutes == 0) by (nonlinear_arith)
                requires
                    minutes == 0,
            ;
            Some(U256::zero())
        } else {
            assert(next_period * minutes > u256_max()) by (nonlinear_arith)
                requires
                    next_period > u256_max(),
                    minutes >= 1,
            ;
            None
        },
    };
    match threshold {
        Some(threshold) => {
            assert(threshold@ == next_period * minutes);
            let minutes_passed: u64 = if claims.init_vesting <= now {
                (now - claims.init_vesting) / 60
            } else {
                0
            };
            if claims.init_vesting <= now && threshold.le(&U256::from_u64(minutes_passed)) {
                assert(answer == 0);
                Some(U256::zero())
            } else {
                assert(minutes * next_period == next_period * minutes) by (nonlinear_arith);
                assert(answer == start + threshold@ * 60);
                match threshold.checked_mul(&U256::from_u64(60)) {
                    Some(seconds) => U256::from_u64(claims.init_vesting).checked_add(&seconds),
                    None => None,
                }
            }
        },
        None => {
            assert(next_period * minutes > u256_max());
            assert(minutes * next_period == next_period * minutes) by (nonlinear_arith);
            // No clock has counted that many minutes, and the second asked for
            // lies beyond them.
            assert(answer == start + minutes * next_period * 60);
            assert(answer > u256_max());
            None
        },
    }
}

/// Everything that was ever granted.
pub fn query_total_vested(ledger: &Ledger) -> (r: Result<U256, ContractError>)
    ensures
        amount_result(r) == Ok::<nat, ContractError>(ledger@.state.total_vested),
{
    Ok(ledger.state().total_vested)
}

/// The denomination that is granted and withdrawn.
pub fn query_injx_token(ledger: &Ledger) -> (r: Result<String, ContractError>)
    ensures
        r is Ok,
        r->Ok_0@ == ledger@.config.injex_token,
{
    Ok(ledger.config().injex_token.clone())
}

/// What a grant of `reward` per period unlocks at `curr_time`, see
/// [`reward_amount`]. Times are in seconds, `period_time` is in minutes.
pub fn calculate_reward_amount(
    reward: U256,
    curr_time: u64,
    instant_time: u64,
    periods_claimed: u64,
    period_time: u64,
    max_reward: U256,
) -> (r: Result<U256, ContractError>)
    ensures
        amount_result(r) == reward_amount(
            reward@,
            curr_time as nat,
            instant_time as nat,
            periods_claimed as nat,
            period_time as nat,
            max_reward@,
        ),
{
    if curr_time < instant_time {
        return Err(ContractError::Overflow {  });
    }
    let minutes_passed: u64 = (curr_time - instant_time) / 60;
    if period_time == 0 {
        return Err(ContractError::DivideByZero {  });
    }
    let periods_total: u64 = minutes_passed / period_time;
    if periods_total < periods_claimed {
        return Err(ContractError::Overflow {  });
    }
    let periods_passed: u64 = periods_total - periods_claimed;
    match reward.checked_mul(&U256::from_u64(periods_passed)) {
        None => Err(ContractError::Overflow {  }),
        Some(full_reward) => if full_reward.gt(&max_reward) {
            Ok(max_reward)
        } else {
            Ok(full_reward)
        },
    }
}

/// Lets the administrator pass and refuses everybody else with `OnlyAdmin`.
pub fn check_is_admin(ledger: &Ledger, addr: &String) -> (r: Result<(), ContractError>)
    ensures
        addr@ == ledger@.admin ==> r is Ok,
        addr@ != ledger@.admin ==> r == Err::<(), ContractError>(ContractError::OnlyAdmin {  }),
{
    if *addr == *ledger.admin() {
        Ok(())
    } else {
        Err(ContractError::OnlyAdmin {  })
    }
}

} // verus!
