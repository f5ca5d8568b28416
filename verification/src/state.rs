//! What the ledger keeps: its parameters, its running totals and one account
//! for each beneficiary.
use crate::math::U256;
use vstd::hash_map::StringHashMap;
use vstd::prelude::*;

verus! {

/// The scale of a stored percentage: this many units are one hundred percent.
pub const PERCENTS: u128 = 10_000;

/// What a beneficiary's grant unlocks over time.
#[derive(Clone, Copy, Debug, PartialEq, Eq, Structural)]
pub struct UserClaims {
    /// The amount that one completed period unlocks.
    pub amount: U256,
    /// When the beneficiary last withdrew, in seconds.
    pub last_claimed: u64,
    /// How much of the installments has been withdrawn.
    pub amount_claimed: U256,
    /// When the grant was made, in seconds.
    pub init_vesting: u64,
}

/// A [`UserClaims`] as numbers.
pub struct UserClaimsView {
    pub amount: nat,
    pub last_claimed: nat,
    pub amount_claimed: nat,
    pub init_vesting: nat,
}

impl View for UserClaims {
    type V = UserClaimsView;

    open spec fn view(&self) -> UserClaimsView {
        UserClaimsView {
            amount: self.amount@,
            last_claimed: self.last_claimed as nat,
            amount_claimed: self.amount_claimed@,
            init_vesting: self.init_vesting as nat,
        }
    }
}

impl UserClaims {
    /// The record of a beneficiary who was never granted anything.
    pub fn empty() -> (r: UserClaims)
        ensures
            r@ == UserClaimsView::empty(),
    {
        UserClaims {
            amount: U256::zero(),
            last_claimed: 0,
            amount_claimed: U256::zero(),
            init_vesting: 0,
        }
    }
}

impl UserClaimsView {
    /// The record of a beneficiary who was never granted anything.
    pub open spec fn empty() -> UserClaimsView {
        UserClaimsView { amount: 0, last_claimed: 0, amount_claimed: 0, init_vesting: 0 }
    }
}

/// The parameters of the ledger.
#[derive(Debug, PartialEq, Eq)]
pub struct Config {
    /// The denomination that is granted and withdrawn.
    pub injex_token: String,
    /// The share of a grant that unlocks at once, in units of [`PERCENTS`].
    pub instant_claim_percents: U256,
    /// The length of one period, in minutes.
    pub lock_minutes: U256,
    /// The number of periods over which the rest of a grant unlocks.
    pub lock_periods: U256,
}

/// A [`Config`] as numbers and text.
pub struct ConfigView {
    pub injex_token: Seq<char>,
    pub instant_claim_percents: nat,
    pub lock_minutes: nat,
    pub lock_periods: nat,
}

impl View for Config {
    type V = ConfigView;

    open spec fn view(&self) -> ConfigView {
        ConfigView {
            injex_token: self.injex_token@,
            instant_claim_percents: self.instant_claim_percents@,
            lock_minutes: self.lock_minutes@,
            lock_periods: self.lock_periods@,
        }
    }
}

impl Clone for Config {
    fn clone(&self) -> (r: Config)
        ensures
            r == *self,
    {
        Config {
            injex_token: self.injex_token.clone(),
            instant_claim_percents: self.instant_claim_percents,
            lock_minutes: self.lock_minutes,
            lock_periods: self.lock_periods,
        }
    }
}

/// The running totals of the ledger.
#[derive(Clone, Copy, Debug, PartialEq, Eq, Structural)]
pub struct State {
    /// Everything that was ever withdrawn.
    pub total_claimed: U256,
    /// Everything that was ever granted.
    pub total_vested: U256,
}

/// A [`State`] as numbers.
pub struct StateView {
    pub total_claimed: nat,
    pub total_vested: nat,
}

impl View for State {
    type V = StateView;

    open spec fn view(&self) -> StateView {
        StateView { total_claimed: self.total_claimed@, total_vested: self.total_vested@ }
    }
}

/// What the ledger holds for one beneficiary.
#[derive(Clone, Copy, Debug, PartialEq, Eq, Structural)]
pub struct Account {
    /// The instant share that has not been withdrawn yet.
    pub instant: U256,
    /// The installments.
    pub claims: UserClaims,
}

/// An [`Account`] as numbers.
pub struct AccountView {
    pub instant: nat,
    pub claims: UserClaimsView,
}

impl View for Account {
    type V = AccountView;

    open spec fn view(&self) -> AccountView {
        AccountView { instant: self.instant@, claims: self.claims@ }
    }
}

impl AccountView {
    /// The account of a beneficiary who was never granted anything.
    pub open spec fn empty() -> AccountView {
        AccountView { instant: 0, claims: UserClaimsView::empty() }
    }
}

/// The whole ledger as a mathematical value.
#[verifier::ext_equal]
pub struct LedgerView {
    pub config: ConfigView,
    pub admin: Seq<char>,
    pub state: StateView,
    pub accounts: Map<Seq<char>, AccountView>,
}

impl LedgerView {
    /// The account of `user`; a beneficiary without an entry has the empty one.
    pub open spec fn account(self, user: Seq<char>) -> AccountView {
        if self.accounts.contains_key(user) {
            self.accounts[user]
        } else {
            AccountView::empty()
        }
    }
}

/// The ledger: parameters, administrator, totals, and the accounts by
/// beneficiary.
pub struct Ledger {
    config: Config,
    admin: String,
    state: State,
    accounts: StringHashMap<Account>,
}

impl View for Ledger {
    type V = LedgerView;

    closed spec fn view(&self) -> LedgerView {
        LedgerView {
            config: self.config@,
            admin: self.admin@,
            state: self.state@,
            accounts: self.accounts@.map_values(|a: Account| a@),
        }
    }
}

impl Ledger {
    /// A ledger with the given parameters, administrator and totals, and no
    /// account. Together with [`Ledger::set_account`] this builds a ledger out
    /// of parts that were kept elsewhere; nothing is asked of the parts.
    pub fn new(config: Config, admin: String, state: State) -> (r: Ledger)
        ensures
            r@ == (LedgerView {
                config: config@,
                admin: admin@,
                state: state@,
                accounts: Map::empty(),
            }),
    {
        let r = Ledger { config, admin, state, accounts: StringHashMap::new() };
        r
    }

    /// The parameters.
    pub fn config(&self) -> (r: &Config)
        ensures
            r@ == self@.config,
    {
        &self.config
    }

    /// The administrator.
    pub fn admin(&self) -> (r: &String)
        ensures
            r@ == self@.admin,
    {
        &self.admin
    }

    /// The running totals.
    pub fn state(&self) -> (r: State)
        ensures
            r@ == self@.state,
    {
        self.state
    }

    /// Whether `user` has an entry.
    pub fn has_account(&self, user: &String) -> (r: bool)
        ensures
            r == self@.accounts.contains_key(user@),
    {
        self.accounts.contains_key(user.as_str())
    }

    /// The account of `user`; a beneficiary without an entry has the empty one.
    pub fn account(&self, user: &String) -> (r: Account)
        ensures
            r@ == self@.account(user@),
    {
        match self.accounts.get(user.as_str()) {
            Some(a) => *a,
            None => Account { instant: U256::zero(), claims: UserClaims::empty() },
        }
    }

    /// Writes the entry of `user`, in place of any earlier one.
    pub fn set_account(&mut self, user: String, account: Account)
        ensures
            final(self)@ == (LedgerView {
                accounts: old(self)@.accounts.insert(user@, account@),
                ..old(self)@
            }),
    {
        self.accounts.insert(user, account);
    }

    /// Replaces the parameters.
    pub(crate) fn set_config(&mut self, config: Config)
        ensures
            final(self)@ == (LedgerView { config: config@, ..old(self)@ }),
    {
        self.config = config;
    }

    /// Replaces the administrator.
    pub(crate) fn set_admin(&mut self, admin: String)
        ensures
            final(self)@ == (LedgerView { admin: admin@, ..old(self)@ }),
    {
        self.admin = admin;
    }

    /// Replaces the running totals.
    pub(crate) fn set_state(&mut self, state: State)
        ensures
            final(self)@ == (LedgerView { state: state@, ..old(self)@ }),
    {
        self.state = state;
    }
}

} // verus!
