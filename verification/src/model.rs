//! The rules of the ledger, as mathematics.
//!
//! Every function here works on natural numbers and on the views of the
//! ledger's types. The executable functions of this crate are specified by
//! them, and the theorems about the ledger are stated over them.
use crate::error::ContractError;
use crate::math::u256_max;
use crate::msg::{
    Coin, Env, ExecuteMsg, InstantiateMsg, MessageInfo, QueryMsg, TransferView, UserVesting,
    UserVestingInfoView,
};
use crate::state::{AccountView, ConfigView, LedgerView, StateView, UserClaimsView, PERCENTS};
use vstd::prelude::*;

verus! {

/// The smaller of two numbers.
pub open spec fn min_nat(a: nat, b: nat) -> nat {
    if a <= b {
        a
    } else {
        b
    }
}

/// The whole periods of `period_minutes` minutes that lie between `since` and
/// `now`, both in seconds. Seconds are cut to whole minutes first.
pub open spec fn periods_between(now: nat, since: nat, period_minutes: nat) -> nat
    recommends
        since <= now,
        period_minutes != 0,
{
    ((now - since) / 60 / (period_minutes as int)) as nat
}

/// What a grant of `reward` per period unlocks at `curr_time`: one `reward` for
/// each period completed since `instant_time` and not among the
/// `periods_claimed` already withdrawn, but never more than `max_reward`.
///
/// It fails on a clock before the grant, on a zero period length, on more
/// periods withdrawn than have passed, and on a product above `2^256 - 1`.
pub open spec fn reward_amount(
    reward: nat,
    curr_time: nat,
    instant_time: nat,
    periods_claimed: nat,
    period_time: nat,
    max_reward: nat,
) -> Result<nat, ContractError> {
    if curr_time < instant_time {
        Err(ContractError::Overflow {  })
    } else if period_time == 0 {
        Err(ContractError::DivideByZero {  })
    } else if periods_between(curr_time, instant_time, period_time) < periods_claimed {
        Err(ContractError::Overflow {  })
    } else if reward * (periods_between(curr_time, instant_time, period_time) - periods_claimed)
        > u256_max() {
        Err(ContractError::Overflow {  })
    } else {
        Ok(
            min_nat(
                (reward * (periods_between(curr_time, instant_time, period_time)
                    - periods_claimed)) as nat,
                max_reward,
            ),
        )
    }
}

/// Everything the installments of a grant will ever unlock.
pub open spec fn vesting_cap(claims: UserClaimsView, config: ConfigView) -> nat {
    claims.amount * config.lock_periods
}

/// Whether nothing is left of the installments.
pub open spec fn fully_claimed(claims: UserClaimsView, config: ConfigView) -> bool {
    claims.amount_claimed == vesting_cap(claims, config)
}

/// The installments that a beneficiary can withdraw at `now`.
///
/// A grant whose installments are all withdrawn accrues nothing; this also
/// holds of a beneficiary who was never granted anything. Otherwise the
/// periods already withdrawn are `amount_claimed / amount`, and the accrual is
/// [`reward_amount`] capped by what is left of the installments.
pub open spec fn accrued(claims: UserClaimsView, config: ConfigView, now: nat) -> Result<
    nat,
    ContractError,
> {
    if vesting_cap(claims, config) > u256_max() {
        Err(ContractError::Overflow {  })
    } else if fully_claimed(claims, config) {
        Ok(0)
    } else if claims.amount == 0 {
        Err(ContractError::DivideByZero {  })
    } else if vesting_cap(claims, config) < claims.amount_claimed {
        Err(ContractError::Overflow {  })
    } else {
        reward_amount(
            claims.amount,
            now,
            claims.init_vesting,
            claims.amount_claimed / claims.amount,
            config.lock_minutes,
            (vesting_cap(claims, config) - claims.amount_claimed) as nat,
        )
    }
}

/// What a beneficiary can withdraw at `now`: the accrued installments and the
/// pending instant share.
pub open spec fn claimable(account: AccountView, config: ConfigView, now: nat) -> Result<
    nat,
    ContractError,
> {
    match accrued(account.claims, config, now) {
        Err(e) => Err(e),
        Ok(reward) => if reward + account.instant > u256_max() {
            Err(ContractError::Overflow {  })
        } else {
            Ok(reward + account.instant)
        },
    }
}

/// What a withdrawal by `sender` at `now` pays, before custody is looked at.
/// It fails with `CannotClaim` where nothing has accrued and no instant share
/// is pending.
pub open spec fn claim_due(s: LedgerView, sender: Seq<char>, now: nat) -> Result<
    nat,
    ContractError,
> {
    match accrued(s.account(sender).claims, s.config, now) {
        Err(e) => Err(e),
        Ok(reward) => if reward == 0 && s.account(sender).instant == 0 {
            Err(ContractError::CannotClaim {  })
        } else if reward + s.account(sender).instant > u256_max() {
            Err(ContractError::Overflow {  })
        } else {
            Ok(reward + s.account(sender).instant)
        },
    }
}

/// What a withdrawal by `sender` at `now` pays when custody holds `balance`.
pub open spec fn claim_result(s: LedgerView, sender: Seq<char>, now: nat, balance: nat) -> Result<
    nat,
    ContractError,
> {
    match claim_due(s, sender, now) {
        Err(e) => Err(e),
        Ok(total) => if balance < total {
            Err(ContractError::InsufficientContractBalance {  })
        } else if s.state.total_claimed + total > u256_max() {
            Err(ContractError::Overflow {  })
        } else {
            Ok(total)
        },
    }
}

/// The account of a beneficiary after a withdrawal that paid `reward` of
/// installments at `now`: the instant share is gone, the installments
/// withdrawn grow by `reward`.
pub open spec fn claimed_account(account: AccountView, reward: nat, now: nat) -> AccountView {
    AccountView {
        instant: 0,
        claims: UserClaimsView {
            amount_claimed: account.claims.amount_claimed + reward,
            last_claimed: now,
            ..account.claims
        },
    }
}

/// The ledger after a withdrawal by `sender` at `now` that succeeded.
pub open spec fn claim_state(s: LedgerView, sender: Seq<char>, now: nat) -> LedgerView
    recommends
        claim_due(s, sender, now) is Ok,
{
    let account = s.account(sender);
    let reward = accrued(account.claims, s.config, now)->Ok_0;
    LedgerView {
        state: StateView {
            total_claimed: s.state.total_claimed + reward + account.instant,
            ..s.state
        },
        accounts: s.accounts.insert(sender, claimed_account(account, reward, now)),
        ..s
    }
}

/// The share of `amount` that unlocks at once.
pub open spec fn instant_share(amount: nat, config: ConfigView) -> nat {
    amount * config.instant_claim_percents / (PERCENTS as nat)
}

/// What each period unlocks of a grant of `amount`: the rest after the
/// instant share, in equal parts and rounded down.
pub open spec fn period_share(amount: nat, config: ConfigView) -> nat
    recommends
        config.lock_periods != 0,
        instant_share(amount, config) <= amount,
{
    ((amount - instant_share(amount, config)) / (config.lock_periods as int)) as nat
}

/// Whether `amount` can be granted under `config`, and if not, why.
pub open spec fn grant_split(amount: nat, config: ConfigView) -> Result<(), ContractError> {
    if amount == 0 {
        Err(ContractError::InvalidInjxAmount {  })
    } else if amount * config.instant_claim_percents > u256_max() {
        Err(ContractError::Overflow {  })
    } else if instant_share(amount, config) > amount {
        Err(ContractError::Overflow {  })
    } else if config.lock_periods == 0 {
        Err(ContractError::DivideByZero {  })
    } else {
        Ok(())
    }
}

/// The account that a grant of `amount` at `now` writes.
pub open spec fn granted_account(amount: nat, config: ConfigView, now: nat) -> AccountView {
    AccountView {
        instant: instant_share(amount, config),
        claims: UserClaimsView {
            amount: period_share(amount, config),
            last_claimed: now,
            amount_claimed: 0,
            init_vesting: now,
        },
    }
}

/// The sum of the amounts of a grant, or the first reason in the order of the
/// list for which a line of it cannot be granted.
pub open spec fn grant_check(users: Seq<UserVesting>, config: ConfigView) -> Result<
    nat,
    ContractError,
>
    decreases users.len(),
{
    if users.len() == 0 {
        Ok(0)
    } else {
        match grant_check(users.drop_last(), config) {
            Err(e) => Err(e),
            Ok(sum) => match grant_split(users.last().amount@, config) {
                Err(e) => Err(e),
                Ok(_) => if sum + users.last().amount@ > u256_max() {
                    Err(ContractError::Overflow {  })
                } else {
                    Ok(sum + users.last().amount@)
                },
            },
        }
    }
}

/// The accounts after every line of a grant was written in the order of the
/// list. A beneficiary named twice keeps what the later line wrote.
pub open spec fn grant_apply(
    accounts: Map<Seq<char>, AccountView>,
    users: Seq<UserVesting>,
    config: ConfigView,
    now: nat,
) -> Map<Seq<char>, AccountView>
    decreases users.len(),
{
    if users.len() == 0 {
        accounts
    } else {
        grant_apply(accounts, users.drop_last(), config, now).insert(
            users.last().user@,
            granted_account(users.last().amount@, config, now),
        )
    }
}

/// The ledger after `sender` granted `users` at `now` with the deposits
/// `funds`, or the reason why the grant is refused.
pub open spec fn vest_result(
    s: LedgerView,
    users: Seq<UserVesting>,
    sender: Seq<char>,
    funds: Seq<Coin>,
    now: nat,
) -> Result<LedgerView, ContractError> {
    if sender != s.admin {
        Err(ContractError::OnlyAdmin {  })
    } else if funds.len() != 1 {
        Err(ContractError::InvalidFunds {  })
    } else if users.len() == 0 {
        Err(ContractError::NoUsers {  })
    } else if funds[0].denom@ != s.config.injex_token {
        Err(ContractError::InvalidCoin {  })
    } else {
        match grant_check(users, s.config) {
            Err(e) => Err(e),
            Ok(sum) => if sum != funds[0].amount {
                Err(ContractError::InvalidFunds {  })
            } else if s.state.total_vested + sum > u256_max() {
                Err(ContractError::Overflow {  })
            } else {
                Ok(
                    LedgerView {
                        state: StateView { total_vested: s.state.total_vested + sum, ..s.state },
                        accounts: grant_apply(s.accounts, users, s.config, now),
                        ..s
                    },
                )
            },
        }
    }
}

/// The second at which the next period of a grant completes, or zero where
/// the grant unlocks nothing per period or a period that is not withdrawn
/// yet has completed already.
pub open spec fn next_claim_time(claims: UserClaimsView, config: ConfigView, now: nat) -> nat {
    if claims.amount == 0 {
        0
    } else {
        let next_period = claims.amount_claimed / claims.amount + 1;
        if claims.init_vesting <= now && (now - claims.init_vesting) / 60 >= next_period
            * config.lock_minutes {
            0
        } else {
            claims.init_vesting + config.lock_minutes * next_period * 60
        }
    }
}

/// What is left of a grant: the installments not withdrawn yet and the
/// pending instant share.
pub open spec fn remaining_amount(account: AccountView, config: ConfigView) -> int {
    vesting_cap(account.claims, config) - account.claims.amount_claimed + account.instant
}

/// What a grant still holds at `now` and when it next unlocks. It fails where
/// more is withdrawn than the installments hold, or where one of the numbers
/// is above `2^256 - 1`.
pub open spec fn vesting_info(account: AccountView, config: ConfigView, now: nat) -> Result<
    UserVestingInfoView,
    ContractError,
> {
    if vesting_cap(account.claims, config) > u256_max() || account.claims.amount_claimed
        > vesting_cap(account.claims, config) || remaining_amount(account, config) > u256_max()
        || next_claim_time(account.claims, config, now) > u256_max() {
        Err(ContractError::Overflow {  })
    } else {
        Ok(
            UserVestingInfoView {
                full_amount: remaining_amount(account, config) as nat,
                next_claim: next_claim_time(account.claims, config, now),
                claimed: account.claims.amount_claimed,
            },
        )
    }
}

/// The ledger after a request and the payment it asks for, or the reason why
/// the request is refused.
pub type Outcome = Result<(LedgerView, Option<TransferView>), ContractError>;

/// The outcome of a withdrawal by `sender` at `now` when custody holds
/// `balance`: all that is due is paid to `sender` in the vesting token.
pub open spec fn claim_outcome(s: LedgerView, sender: Seq<char>, now: nat, balance: nat)
    -> Outcome {
    match claim_result(s, sender, now, balance) {
        Err(e) => Err(e),
        Ok(total) => Ok(
            (
                claim_state(s, sender, now),
                Some(
                    TransferView {
                        to_address: sender,
                        denom: s.config.injex_token,
                        amount: total,
                    },
                ),
            ),
        ),
    }
}

/// The outcome of a grant, see [`vest_result`]. A grant pays nothing out.
pub open spec fn vest_outcome(
    s: LedgerView,
    users: Seq<UserVesting>,
    sender: Seq<char>,
    funds: Seq<Coin>,
    now: nat,
) -> Outcome {
    match vest_result(s, users, sender, funds, now) {
        Err(e) => Err(e),
        Ok(after) => Ok((after, None)),
    }
}

/// The outcome of `sender` naming `new_admin` the administrator.
pub open spec fn change_admin_outcome(s: LedgerView, sender: Seq<char>, new_admin: Seq<char>)
    -> Outcome {
    if sender != s.admin {
        Err(ContractError::OnlyAdmin {  })
    } else {
        Ok((LedgerView { admin: new_admin, ..s }, None))
    }
}

/// The outcome of `sender` setting the period length to `minutes`.
pub open spec fn change_lock_minutes_outcome(s: LedgerView, sender: Seq<char>, minutes: nat)
    -> Outcome {
    if sender != s.admin {
        Err(ContractError::OnlyAdmin {  })
    } else if minutes == 0 {
        Err(ContractError::InvalidLockMinutes {  })
    } else {
        Ok((LedgerView { config: ConfigView { lock_minutes: minutes, ..s.config }, ..s }, None))
    }
}

/// The outcome of `sender` setting the instant-unlock share to `percents`.
pub open spec fn change_instant_percents_outcome(s: LedgerView, sender: Seq<char>, percents: nat)
    -> Outcome {
    if sender != s.admin {
        Err(ContractError::OnlyAdmin {  })
    } else if percents > PERCENTS {
        Err(ContractError::InvalidPercents {  })
    } else {
        Ok(
            (
                LedgerView {
                    config: ConfigView { instant_claim_percents: percents, ..s.config },
                    ..s
                },
                None,
            ),
        )
    }
}

/// The outcome of any request that changes the ledger.
pub open spec fn execute_outcome(s: LedgerView, env: Env, info: MessageInfo, msg: ExecuteMsg)
    -> Outcome {
    match msg {
        ExecuteMsg::VestTokens { users } => vest_outcome(
            s,
            users@,
            info.sender@,
            info.funds@,
            env.time as nat,
        ),
        ExecuteMsg::Claim {  } => claim_outcome(
            s,
            info.sender@,
            env.time as nat,
            env.balance as nat,
        ),
        ExecuteMsg::ChangeAdmin { new_admin } => change_admin_outcome(s, info.sender@, new_admin@),
        ExecuteMsg::ChangeLockMinutes { new_lock_minutes } => change_lock_minutes_outcome(
            s,
            info.sender@,
            new_lock_minutes@,
        ),
        ExecuteMsg::ChangeInstantClaimPercents { new_percents } => change_instant_percents_outcome(
            s,
            info.sender@,
            new_percents@,
        ),
    }
}

/// The ledger after a series of requests, each with its surroundings and its
/// sender, was handed to it in order. A request that is refused leaves the
/// ledger as it was.
pub open spec fn after_requests(s: LedgerView, requests: Seq<(Env, MessageInfo, ExecuteMsg)>)
    -> LedgerView
    decreases requests.len(),
{
    if requests.len() == 0 {
        s
    } else {
        let before = after_requests(s, requests.drop_last());
        match execute_outcome(before, requests.last().0, requests.last().1, requests.last().2) {
            Ok((after, _)) => after,
            Err(_) => before,
        }
    }
}

/// The ledger that `msg` starts, or the reason why it is refused: a share
/// above one hundred percent, a period of no length, or no period at all.
pub open spec fn instantiate_result(msg: InstantiateMsg) -> Result<LedgerView, ContractError> {
    if msg.instant_claim_percents@ > PERCENTS {
        Err(ContractError::InvalidPercents {  })
    } else if msg.lock_minutes@ == 0 {
        Err(ContractError::InvalidLockMinutes {  })
    } else if msg.lock_periods@ == 0 {
        Err(ContractError::InvalidLockPeriods {  })
    } else {
        Ok(
            LedgerView {
                config: ConfigView {
                    injex_token: msg.injex_token@,
                    instant_claim_percents: msg.instant_claim_percents@,
                    lock_minutes: msg.lock_minutes@,
                    lock_periods: msg.lock_periods@,
                },
                admin: msg.admin@,
                state: StateView { total_claimed: 0, total_vested: 0 },
                accounts: Map::empty(),
            },
        )
    }
}

/// The answer to a question, as numbers and text.
pub enum QueryAnswer {
    ClaimableAmount(nat),
    InstantClaim(nat),
    VestedAmount(UserVestingInfoView),
    InjxToken(Seq<char>),
    Config(ConfigView),
    TotalClaimed(nat),
    TotalVested(nat),
}

/// The answer of the ledger to `msg` at the time of `env`.
pub open spec fn query_result(s: LedgerView, env: Env, msg: QueryMsg) -> Result<
    QueryAnswer,
    ContractError,
> {
    match msg {
        QueryMsg::GetInjxToken {  } => Ok(QueryAnswer::InjxToken(s.config.injex_token)),
        QueryMsg::GetClaimableAmount { addr } => match claimable(
            s.account(addr@),
            s.config,
            env.time as nat,
        ) {
            Ok(amount) => Ok(QueryAnswer::ClaimableAmount(amount)),
            Err(e) => Err(e),
        },
        QueryMsg::GetInstantClaim { addr } => Ok(
            QueryAnswer::InstantClaim(s.account(addr@).instant),
        ),
        QueryMsg::GetTotalClaimed {  } => Ok(QueryAnswer::TotalClaimed(s.state.total_claimed)),
        QueryMsg::GetTotalVested {  } => Ok(QueryAnswer::TotalVested(s.state.total_vested)),
        QueryMsg::GetVestedAmount { addr } => match vesting_info(
            s.account(addr@),
            s.config,
            env.time as nat,
        ) {
            Ok(info) => Ok(QueryAnswer::VestedAmount(info)),
            Err(e) => Err(e),
        },
        QueryMsg::GetConfig {  } => Ok(QueryAnswer::Config(s.config)),
    }
}

/// A grant that cannot be made up to some line cannot be made at all, and
/// for the same reason.
pub proof fn lemma_grant_check_refused(users: Seq<UserVesting>, config: ConfigView, upto: int)
    requires
        0 <= upto <= users.len(),
        grant_check(users.subrange(0, upto), config) is Err,
    ensures
        grant_check(users, config) == grant_check(users.subrange(0, upto), config),
    decreases users.len(),
{
    if upto == users.len() {
        assert(users.subrange(0, upto) =~= users);
    } else {
        assert(users.drop_last().subrange(0, upto) =~= users.subrange(0, upto));
        lemma_grant_check_refused(users.drop_last(), config, upto);
    }
}

/// Whether `value` is a whole number of `unit`s.
pub open spec fn is_multiple_of(value: nat, unit: nat) -> bool {
    if unit == 0 {
        value == 0
    } else {
        value % unit == 0
    }
}

/// Whether an account is in order: the installments withdrawn are a whole
/// number of periods' worth and no more than the installments hold.
pub open spec fn account_valid(account: AccountView, config: ConfigView) -> bool {
    &&& is_multiple_of(account.claims.amount_claimed, account.claims.amount)
    &&& account.claims.amount_claimed <= vesting_cap(account.claims, config)
}

/// What an account can still pay out, now or later: the pending instant
/// share and the installments not withdrawn yet.
pub open spec fn outstanding(account: AccountView, config: ConfigView) -> nat {
    if account.claims.amount_claimed <= vesting_cap(account.claims, config) {
        (account.instant + vesting_cap(account.claims, config)
            - account.claims.amount_claimed) as nat
    } else {
        account.instant
    }
}

/// What all accounts together can still pay out.
pub open spec fn outstanding_total(accounts: Map<Seq<char>, AccountView>, config: ConfigView) -> nat
    decreases accounts.dom().len(),
{
    if accounts.dom().finite() && accounts.dom().len() > 0 {
        let user = accounts.dom().choose();
        outstanding(accounts[user], config) + outstanding_total(accounts.remove(user), config)
    } else {
        0
    }
}

impl LedgerView {
    /// What holds of a ledger at all times: its parameters are in range (a
    /// share of at most one hundred percent, a period of some length, at
    /// least one period), every account is in order, and what was withdrawn
    /// together with what can still be paid out is covered by what was
    /// granted.
    pub open spec fn inv(self) -> bool {
        &&& self.config.instant_claim_percents <= PERCENTS
        &&& self.config.lock_minutes != 0
        &&& self.config.lock_periods != 0
        &&& self.accounts.dom().finite()
        &&& forall|user: Seq<char>| #[trigger]
            self.accounts.contains_key(user) ==> account_valid(self.accounts[user], self.config)
        &&& self.state.total_claimed + outstanding_total(self.accounts, self.config)
            <= self.state.total_vested
    }
}

} // verus!
