//! A ledger driven the way a chain drives it: requests come with a sender and
//! deposits, a bank moves the coins, and the clock is set from outside.
use injex_vesting::contract::{execute, instantiate, query};
use injex_vesting::math::U256;
use injex_vesting::msg::{
    Coin, Env, ExecuteMsg, InstantiateMsg, MessageInfo, QueryMsg, QueryResponse, Response,
    UserVesting, UserVestingInfo,
};
use injex_vesting::state::{Config, Ledger, PERCENTS};
use injex_vesting::ContractError;
use std::collections::HashMap;

const ADMIN: &str = "inj1mvnlejy385wy498z7hvmflrsdfludx8ztxsx7m";
const USER: &str = "inj1mvnlejy385wy498z7hvmflrsdfludx8ztxsx7d";
const CONTRACT: &str = "contract0";
const INJEX_TOKEN: &str = "INJX";
const USDT: &str = "USDT";

/// A chain of one ledger: its bank and its clock.
struct App {
    ledger: Ledger,
    time: u64,
    bank: HashMap<(String, String), u128>,
}

impl App {
    fn balance(&self, owner: &str, denom: &str) -> u128 {
        *self.bank.get(&(owner.to_string(), denom.to_string())).unwrap_or(&0)
    }

    fn pay(&mut self, from: &str, to: &str, denom: &str, amount: u128) -> bool {
        let held = self.balance(from, denom);
        if held < amount {
            return false;
        }
        self.bank.insert((from.to_string(), denom.to_string()), held - amount);
        let target = self.balance(to, denom);
        self.bank.insert((to.to_string(), denom.to_string()), target + amount);
        true
    }

    /// Hands the deposits to the ledger's custody, serves the request, and
    /// makes the payment the ledger asks for. A refused request moves no coin.
    fn execute_contract(
        &mut self,
        sender: &str,
        msg: &ExecuteMsg,
        funds: &[Coin],
    ) -> Result<Response, ContractError> {
        let before = self.bank.clone();
        for coin in funds {
            assert!(self.pay(sender, CONTRACT, &coin.denom, coin.amount));
        }
        let env = Env { time: self.time, balance: self.balance(CONTRACT, INJEX_TOKEN) };
        let info = MessageInfo { sender: sender.to_string(), funds: funds.to_vec() };
        let res = execute(&mut self.ledger, env, info, msg.clone());
        match &res {
            Ok(response) => {
                if let Some(transfer) = &response.transfer {
                    assert!(self.pay(
                        CONTRACT,
                        &transfer.to_address,
                        &transfer.denom,
                        transfer.amount
                    ));
                }
            }
            Err(_) => self.bank = before,
        }
        res
    }

    fn query_wasm_smart(&self, msg: &QueryMsg) -> QueryResponse {
        let env = Env { time: self.time, balance: self.balance(CONTRACT, INJEX_TOKEN) };
        query(&self.ledger, env, msg.clone()).unwrap()
    }

    fn query_amount(&self, msg: &QueryMsg) -> U256 {
        match self.query_wasm_smart(msg) {
            QueryResponse::ClaimableAmount(amount)
            | QueryResponse::InstantClaim(amount)
            | QueryResponse::TotalClaimed(amount)
            | QueryResponse::TotalVested(amount) => amount,
            other => panic!("not an amount: {:?}", other),
        }
    }

    fn query_vesting_info(&self, msg: &QueryMsg) -> UserVestingInfo {
        match self.query_wasm_smart(msg) {
            QueryResponse::VestedAmount(info) => info,
            other => panic!("not a vesting report: {:?}", other),
        }
    }

    fn query_config(&self, msg: &QueryMsg) -> Config {
        match self.query_wasm_smart(msg) {
            QueryResponse::Config(config) => config,
            other => panic!("not the parameters: {:?}", other),
        }
    }

    fn plus_minutes(&mut self, minutes: u64) {
        self.time += minutes * 60;
    }
}

fn proper_instantiate(should_add_balance_to_contract: bool) -> App {
    let mut bank = HashMap::new();
    for owner in [USER, ADMIN] {
        bank.insert((owner.to_string(), "inj".to_string()), 1000000000000000000000u128);
        bank.insert((owner.to_string(), USDT.to_string()), 1000000000000000000000u128);
        bank.insert(
            (owner.to_string(), INJEX_TOKEN.to_string()),
            100000000000000000000000000u128,
        );
    }
    let msg = InstantiateMsg {
        instant_claim_percents: U256::from_u128(1500_u128), // 15%
        lock_minutes: U256::from_u128(5_u128),
        lock_periods: U256::from_u128(5_u128),
        injex_token: INJEX_TOKEN.to_string(),
        admin: ADMIN.to_string(),
    };
    let ledger = instantiate(msg).unwrap();
    let mut app = App { ledger, time: 1_571_797_419, bank };
    if should_add_balance_to_contract {
        assert!(app.pay(ADMIN, CONTRACT, INJEX_TOKEN, 1000000000000000000000u128));
    }
    app
}

fn expect_error(res: Result<Response, ContractError>, reason: String) {
    assert!(res.is_err());

    if let Err(err) = res {
        assert_eq!(err.to_string(), reason);
    }
}

fn plus(a: U256, b: U256) -> U256 {
    a.checked_add(&b).unwrap()
}

fn minus(a: U256, b: U256) -> U256 {
    a.checked_sub(&b).unwrap()
}

fn times(a: U256, b: U256) -> U256 {
    a.checked_mul(&b).unwrap()
}

fn over(a: U256, b: U256) -> U256 {
    a.checked_div(&b).unwrap()
}

fn percents() -> U256 {
    U256::from_u128(PERCENTS)
}

/// Grants `amount` to the user out of the administrator's coins and looks at
/// the ledger right after; returns the instant share.
fn vest_and_inspect(app: &mut App, amount: u128) -> U256 {
    let msg = ExecuteMsg::VestTokens {
        users: vec![UserVesting { amount: U256::from_u128(amount), user: USER.to_string() }],
    };
    let balance = app.balance(ADMIN, INJEX_TOKEN);

    let res = app.execute_contract(
        ADMIN,
        &msg,
        &vec![Coin { denom: INJEX_TOKEN.to_string(), amount }],
    );

    assert!(res.is_ok());

    let balance_after = app.balance(ADMIN, INJEX_TOKEN);

    assert_eq!(U256::from_u128(balance_after), U256::from_u128(balance - amount));

    let vesting_info_msg = QueryMsg::GetVestedAmount { addr: USER.to_string() };
    let claimable_amount_msg = QueryMsg::GetClaimableAmount { addr: USER.to_string() };

    let vesting_info: UserVestingInfo = app.query_vesting_info(&vesting_info_msg);

    let claimable_amount: U256 = app.query_amount(&claimable_amount_msg);

    assert_eq!(vesting_info.next_claim, U256::from_u128((app.time + 5 * 60).into()));

    let instant_amount =
        over(times(U256::from_u128(amount), U256::from_u128(1500_u128)), percents());

    assert_eq!(claimable_amount, instant_amount);

    assert!(minus(U256::from_u128(amount), vesting_info.full_amount).lt(&U256::from_u128(5_u128)));

    instant_amount
}

/// Withdraws for the user and checks that the user's coins grew by
/// `expected`.
fn claim_and_expect(app: &mut App, expected: U256) {
    let msg = ExecuteMsg::Claim {};

    let balance = app.balance(USER, INJEX_TOKEN);

    let res = app.execute_contract(USER, &msg, &vec![]);

    let balance_after = app.balance(USER, INJEX_TOKEN);

    assert!(res.is_ok());

    assert_eq!(U256::from_u128(balance_after), plus(U256::from_u128(balance), expected));
}

/// After the instant share is withdrawn and before a period has passed,
/// nothing is pending and nothing has accrued.
fn expect_nothing_due(app: &App) {
    let instant_msg = QueryMsg::GetInstantClaim { addr: USER.to_string() };

    let instant: U256 = app.query_amount(&instant_msg);

    let reward_msg = QueryMsg::GetClaimableAmount { addr: USER.to_string() };

    let reward: U256 = app.query_amount(&reward_msg);

    assert_eq!(instant, U256::zero());
    assert_eq!(reward, U256::zero());
}

fn claimable_now(app: &App) -> U256 {
    let reward_msg = QueryMsg::GetClaimableAmount { addr: USER.to_string() };

    app.query_amount(&reward_msg)
}

#[test]
fn proper_initialization() {
    let app = proper_instantiate(true);

    let total_claimed_msg = QueryMsg::GetTotalClaimed {};
    let total_vested_msg = QueryMsg::GetTotalVested {};
    let config_msg = QueryMsg::GetConfig {};

    let total_claimed: U256 = app.query_amount(&total_claimed_msg);

    let total_vested: U256 = app.query_amount(&total_vested_msg);

    let config = app.query_config(&config_msg);

    assert_eq!(U256::zero(), total_claimed);
    assert_eq!(U256::zero(), total_vested);
    assert_eq!(
        Config {
            instant_claim_percents: U256::from_u128(1500_u128), // 15%
            lock_minutes: U256::from_u128(5_u128),
            lock_periods: U256::from_u128(5_u128),
            injex_token: INJEX_TOKEN.to_string(),
        },
        config
    );
}

#[test]
fn vest_not_admin() {
    let mut app = proper_instantiate(true);

    let msg = ExecuteMsg::VestTokens { users: vec![] };

    let res = app.execute_contract(USER, &msg, &[]);

    assert!(res.is_err());

    let error_message = format!("Only admin");
    expect_error(res, error_message);
}

#[test]
fn vest_no_funds() {
    let mut app = proper_instantiate(true);

    let msg = ExecuteMsg::VestTokens { users: vec![] };

    let res = app.execute_contract(ADMIN, &msg, &[]);

    assert!(res.is_err());

    let error_message = format!("Invalid funds were provided");
    expect_error(res, error_message);
}

#[test]
fn vest_no_users() {
    let mut app = proper_instantiate(true);

    let msg = ExecuteMsg::VestTokens { users: vec![] };

    let res = app.execute_contract(
        ADMIN,
        &msg,
        &vec![Coin { denom: USDT.to_string(), amount: 1_000_000 }],
    );

    assert!(res.is_err());

    let error_message = format!("No users");
    expect_error(res, error_message);
}

#[test]
fn vest_invalid_token() {
    let mut app = proper_instantiate(true);

    let msg = ExecuteMsg::VestTokens {
        users: vec![UserVesting { amount: U256::zero(), user: USER.to_string() }],
    };

    let res = app.execute_contract(
        ADMIN,
        &msg,
        &vec![Coin { denom: USDT.to_string(), amount: 1_000_000 }],
    );

    assert!(res.is_err());

    let error_message = format!("Invalid coin passed in funds");
    expect_error(res, error_message);
}

#[test]
fn vest_zero_amount() {
    let mut app = proper_instantiate(true);

    let msg = ExecuteMsg::VestTokens {
        users: vec![UserVesting { amount: U256::zero(), user: USER.to_string() }],
    };

    let res = app.execute_contract(
        ADMIN,
        &msg,
        &vec![Coin { denom: INJEX_TOKEN.to_string(), amount: 1_000_000 }],
    );

    assert!(res.is_err());

    let error_message = format!("Invalid user INJX amount");
    expect_error(res, error_message);
}

#[test]
fn vest_invalid_funds_amount() {
    let mut app = proper_instantiate(true);

    let msg = ExecuteMsg::VestTokens {
        users: vec![UserVesting { amount: U256::from_u128(1001_u128), user: USER.to_string() }],
    };

    let res = app.execute_contract(
        ADMIN,
        &msg,
        &vec![Coin { denom: INJEX_TOKEN.to_string(), amount: 1000 }],
    );

    assert!(res.is_err());

    let error_message = format!("Invalid funds were provided");
    expect_error(res, error_message);
}

#[test]
fn vest() {
    let mut app = proper_instantiate(true);

    let amount = 1_000_000u128;

    vest_and_inspect(&mut app, amount);
}

#[test]
fn claim_instant() {
    let mut app = proper_instantiate(true);

    let amount = 1_000_000u128;

    let instant_amount = vest_and_inspect(&mut app, amount);

    claim_and_expect(&mut app, instant_amount);
}

#[test]
fn claim_zero_reward() {
    let mut app = proper_instantiate(true);

    let amount = 1_000_000u128;

    let instant_amount = vest_and_inspect(&mut app, amount);

    claim_and_expect(&mut app, instant_amount);

    expect_nothing_due(&app);

    let msg = ExecuteMsg::Claim {};

    let res = app.execute_contract(USER, &msg, &vec![]);

    assert!(res.is_err());

    let error_message = format!("Cannot claim");
    expect_error(res, error_message);
}

#[test]
fn claim_after_one_period() {
    let mut app = proper_instantiate(true);

    let amount = 1_000_000u128;

    let instant_amount = vest_and_inspect(&mut app, amount);

    claim_and_expect(&mut app, instant_amount);

    expect_nothing_due(&app);

    app.plus_minutes(5);

    let reward = claimable_now(&app);

    assert_eq!(
        reward,
        over(minus(U256::from_u128(amount), instant_amount), U256::from_u128(5_u128))
    );

    claim_and_expect(&mut app, reward);
}

#[test]
fn claim_after_two_periods() {
    let mut app = proper_instantiate(true);

    let amount = 1_000_000u128;

    let instant_amount = vest_and_inspect(&mut app, amount);

    claim_and_expect(&mut app, instant_amount);

    expect_nothing_due(&app);

    app.plus_minutes(10);

    let reward = claimable_now(&app);

    assert!(minus(
        over(
            times(minus(U256::from_u128(amount), instant_amount), U256::from_u128(2)),
            U256::from_u128(5_u128)
        ),
        reward
    )
    .le(&U256::from_u128(1)));

    claim_and_expect(&mut app, reward);
}

#[test]
fn claim_full() {
    let mut app = proper_instantiate(true);

    let amount = 1_000_000u128;

    let instant_amount = vest_and_inspect(&mut app, amount);

    claim_and_expect(&mut app, instant_amount);

    expect_nothing_due(&app);

    app.plus_minutes(25);

    let reward = claimable_now(&app);

    assert!(minus(minus(U256::from_u128(amount), instant_amount), reward).le(&U256::from_u128(5)));

    claim_and_expect(&mut app, reward);
}

#[test]
fn claim_x2_full() {
    let mut app = proper_instantiate(true);

    let amount = 1_000_000u128;

    let instant_amount = vest_and_inspect(&mut app, amount);

    claim_and_expect(&mut app, instant_amount);

    expect_nothing_due(&app);

    app.plus_minutes(25);

    let reward = claimable_now(&app);

    assert!(minus(minus(U256::from_u128(amount), instant_amount), reward).le(&U256::from_u128(5)));

    claim_and_expect(&mut app, reward);
}

#[test]
fn claim_after_claim() {
    let mut app = proper_instantiate(true);

    let amount = 1_000_000u128;

    let instant_amount = vest_and_inspect(&mut app, amount);

    claim_and_expect(&mut app, instant_amount);

    expect_nothing_due(&app);

    app.plus_minutes(10);

    let reward = claimable_now(&app);

    assert!(minus(
        over(
            times(minus(U256::from_u128(amount), instant_amount), U256::from_u128(2)),
            U256::from_u128(5_u128)
        ),
        reward
    )
    .le(&U256::from_u128(5)));

    claim_and_expect(&mut app, reward);

    app.plus_minutes(15);

    let reward = claimable_now(&app);

    assert!(minus(
        over(
            times(minus(U256::from_u128(amount), instant_amount), U256::from_u128(3_u128)),
            U256::from_u128(5_u128)
        ),
        reward
    )
    .le(&U256::from_u128(5)));

    claim_and_expect(&mut app, reward);
}

#[test]
fn claim_after_full_claim() {
    let mut app = proper_instantiate(true);

    let amount = 1_000_000u128;

    let instant_amount = vest_and_inspect(&mut app, amount);

    claim_and_expect(&mut app, instant_amount);

    expect_nothing_due(&app);

    app.plus_minutes(25);

    let reward = claimable_now(&app);

    assert!(minus(minus(U256::from_u128(amount), instant_amount), reward).le(&U256::from_u128(5)));

    claim_and_expect(&mut app, reward);

    app.plus_minutes(1);

    let reward = claimable_now(&app);

    assert_eq!(reward, U256::zero());

    let msg = ExecuteMsg::Claim {};

    let res = app.execute_contract(USER, &msg, &vec![]);

    assert!(res.is_err());

    let error_message = format!("Cannot claim");
    expect_error(res, error_message);
}
