//! What a request carries and what it is answered with.
use crate::math::U256;
use crate::state::Config;
use vstd::prelude::*;

verus! {

/// One line of a grant: a beneficiary and what they are granted.
#[derive(Clone, Debug, PartialEq)]
pub struct UserVesting {
    pub amount: U256,
    pub user: String,
}

/// What a beneficiary's grant still holds, and when it next unlocks.
#[derive(Clone, Copy, Debug, PartialEq, Eq, Structural)]
pub struct UserVestingInfo {
    /// What is left of the grant: the installments not withdrawn yet and the
    /// pending instant share.
    pub full_amount: U256,
    /// The second at which the next period completes, or zero.
    pub next_claim: U256,
    /// The installments withdrawn so far.
    pub claimed: U256,
}

/// A [`UserVestingInfo`] as numbers.
pub struct UserVestingInfoView {
    pub full_amount: nat,
    pub next_claim: nat,
    pub claimed: nat,
}

impl View for UserVestingInfo {
    type V = UserVestingInfoView;

    open spec fn view(&self) -> UserVestingInfoView {
        UserVestingInfoView {
            full_amount: self.full_amount@,
            next_claim: self.next_claim@,
            claimed: self.claimed@,
        }
    }
}

/// The parameters a ledger starts with.
#[derive(Clone, Debug, PartialEq)]
pub struct InstantiateMsg {
    pub injex_token: String,
    pub admin: String,
    pub instant_claim_percents: U256,
    pub lock_minutes: U256,
    pub lock_periods: U256,
}

/// The questions a ledger answers.
#[derive(Clone, Debug, PartialEq)]
pub enum QueryMsg {
    GetClaimableAmount { addr: String },
    GetInstantClaim { addr: String },
    GetVestedAmount { addr: String },
    GetInjxToken {},
    GetConfig {},
    GetTotalClaimed {},
    GetTotalVested {},
}

/// The requests that change a ledger.
#[derive(Clone, Debug, PartialEq)]
pub enum ExecuteMsg {
    Claim {},
    VestTokens { users: Vec<UserVesting> },
    ChangeAdmin { new_admin: String },
    ChangeInstantClaimPercents { new_percents: U256 },
    ChangeLockMinutes { new_lock_minutes: U256 },
}

/// An amount of one denomination.
#[derive(Clone, Debug, PartialEq, Eq)]
pub struct Coin {
    pub denom: String,
    pub amount: u128,
}

/// Who sent a request, and the deposits that came with it.
#[derive(Clone, Debug, PartialEq)]
pub struct MessageInfo {
    pub sender: String,
    pub funds: Vec<Coin>,
}

/// What a request sees of the world around the ledger.
#[derive(Clone, Copy, Debug, PartialEq, Eq, Structural)]
pub struct Env {
    /// The time of the request, in seconds.
    pub time: u64,
    /// How much of the vesting token is held in custody for the ledger.
    pub balance: u128,
}

/// An instruction to pay out of custody.
#[derive(Debug, PartialEq, Eq)]
pub struct Transfer {
    pub to_address: String,
    pub denom: String,
    pub amount: u128,
}

/// A [`Transfer`] as numbers and text.
pub struct TransferView {
    pub to_address: Seq<char>,
    pub denom: Seq<char>,
    pub amount: nat,
}

impl View for Transfer {
    type V = TransferView;

    open spec fn view(&self) -> TransferView {
        TransferView {
            to_address: self.to_address@,
            denom: self.denom@,
            amount: self.amount as nat,
        }
    }
}

/// What a request that changed the ledger asks of its caller.
#[derive(Debug, PartialEq, Eq)]
pub struct Response {
    /// The payment to make, if the request led to one.
    pub transfer: Option<Transfer>,
}

impl Response {
    /// The payment to make, as numbers and text.
    pub open spec fn transfer_view(&self) -> Option<TransferView> {
        match self.transfer {
            Some(t) => Some(t@),
            None => None,
        }
    }
}

/// The answer to a [`QueryMsg`].
#[derive(Debug, PartialEq)]
pub enum QueryResponse {
    ClaimableAmount(U256),
    InstantClaim(U256),
    VestedAmount(UserVestingInfo),
    InjxToken(String),
    Config(Config),
    TotalClaimed(U256),
    TotalVested(U256),
}

} // verus!
