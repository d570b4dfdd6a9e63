//! The ledger state machine: owner identity, per-token balance table,
//! authorized-agent table, and the three entry points that mutate them.

use std::collections::HashMap;
use vstd::prelude::*;

verus! {

/// An account identifier in the host's address space.
pub type AccountId = u64;

/// An identifier of a tradable asset, opaque to the ledger.
pub type TokenId = u64;

/// An unsigned balance or trade amount, in the host's native word.
pub type Amount = u128;

/// A failed precondition of a mutating entry point.
#[derive(Debug, Clone, Copy, PartialEq, Eq, Structural)]
pub enum TradingError {
    /// A sell would drive a token's balance below zero.
    InsufficientBalance,
    /// A zero trade amount was supplied.
    InvalidAmount,
    /// The caller lacks the required permission: not the owner, for
    /// `authorize_agent`; not an authorized agent, for `execute_trade`.
    Unauthorized,
    /// A buy would carry a token's balance past the largest representable
    /// amount. The ledger fails rather than wrap.
    Overflow,
}

/// The ledger state as mathematical maps: the abstract value of a
/// [`TradingAgent`].
#[verifier::ext_equal]
pub struct Ledger {
    pub owner: AccountId,
    pub balances: Map<TokenId, Amount>,
    pub agents: Map<AccountId, bool>,
}

/// The balance recorded for `token` in a balance table: absent entries are
/// implicitly zero.
pub open spec fn balance_in(balances: Map<TokenId, Amount>, token: TokenId) -> Amount {
    if balances.contains_key(token) {
        balances[token]
    } else {
        0
    }
}

/// Whether `account` is authorized by an authorized-agent table: absent
/// entries are implicitly not authorized.
pub open spec fn agent_in(agents: Map<AccountId, bool>, account: AccountId) -> bool {
    agents.contains_key(account) && agents[account]
}

/// The outcome of `authorize_agent` called by `caller` for `agent` in state
/// `s`: success exactly when the caller is the owner.
pub open spec fn authorize_result(s: Ledger, caller: AccountId, agent: AccountId) -> Result<
    bool,
    TradingError,
> {
    if caller == s.owner {
        Ok(true)
    } else {
        Err(TradingError::Unauthorized)
    }
}

/// The state after `authorize_agent` called by `caller` for `agent` in state
/// `s`: on success `agent` is recorded as authorized; on failure nothing
/// changes.
pub open spec fn authorize_step(s: Ledger, caller: AccountId, agent: AccountId) -> Ledger {
    if caller == s.owner {
        Ledger { owner: s.owner, balances: s.balances, agents: s.agents.insert(agent, true) }
    } else {
        s
    }
}

/// The outcome of `execute_trade` in state `s`, with the guards checked in
/// order, first failure winning: the caller must be an authorized agent, the
/// amount must be nonzero, and then a sell needs a sufficient balance while a
/// buy needs room in the balance word.
pub open spec fn trade_result(
    s: Ledger,
    caller: AccountId,
    token: TokenId,
    amount: Amount,
    is_buy: bool,
) -> Result<bool, TradingError> {
    if !agent_in(s.agents, caller) {
        Err(TradingError::Unauthorized)
    } else if amount == 0 {
        Err(TradingError::InvalidAmount)
    } else if is_buy {
        if balance_in(s.balances, token) + amount > Amount::MAX {
            Err(TradingError::Overflow)
        } else {
            Ok(true)
        }
    } else {
        if balance_in(s.balances, token) < amount {
            Err(TradingError::InsufficientBalance)
        } else {
            Ok(true)
        }
    }
}

/// The state after `execute_trade` in state `s`: on success exactly the
/// traded token's balance moves by `amount`, up for a buy and down for a
/// sell; on any failed guard the state is unchanged.
pub open spec fn trade_step(
    s: Ledger,
    caller: AccountId,
    token: TokenId,
    amount: Amount,
    is_buy: bool,
) -> Ledger {
    if trade_result(s, caller, token, amount, is_buy) is Ok {
        let before: Amount = balance_in(s.balances, token);
        let after: Amount = if is_buy {
            (before + amount) as Amount
        } else {
            (before - amount) as Amount
        };
        Ledger { owner: s.owner, balances: s.balances.insert(token, after), agents: s.agents }
    } else {
        s
    }
}

/// The ledger state machine. Its abstract value is a [`Ledger`].
pub struct TradingAgent {
    owner: AccountId,
    balances: HashMap<TokenId, Amount>,
    authorized_agents: HashMap<AccountId, bool>,
}

impl View for TradingAgent {
    type V = Ledger;

    closed spec fn view(&self) -> Ledger {
        Ledger {
            owner: self.owner,
            balances: self.balances@,
            agents: self.authorized_agents@,
        }
    }
}

impl TradingAgent {
    /// A fresh instance: zero-valued owner and empty tables, as the host's
    /// zero-valued storage leaves them at instantiation.
    pub fn new() -> (agent: Self)
        ensures
            agent@ == (Ledger {
                owner: 0,
                balances: Map::<TokenId, Amount>::empty(),
                agents: Map::<AccountId, bool>::empty(),
            }),
    {
        TradingAgent { owner: 0, balances: HashMap::new(), authorized_agents: HashMap::new() }
    }

    /// Entry point `initialize`: records the calling account as the owner.
    /// The host invokes it once, at instantiation, and never again.
    pub fn constructor(&mut self, caller: AccountId)
        ensures
            final(self)@ == (Ledger {
                owner: caller,
                balances: old(self)@.balances,
                agents: old(self)@.agents,
            }),
    {
        self.owner = caller;
    }

    /// Entry point `authorize_agent`: called by the owner, records `agent`
    /// as authorized and returns `true`; called by anyone else, fails with
    /// `Unauthorized` and changes nothing. Authorizing an already-authorized
    /// agent is a no-op success.
    pub fn authorize_agent(&mut self, caller: AccountId, agent: AccountId) -> (result: Result<
        bool,
        TradingError,
    >)
        ensures
            result == authorize_result(old(self)@, caller, agent),
            final(self)@ == authorize_step(old(self)@, caller, agent),
    {
        if caller != self.owner {
            return Err(TradingError::Unauthorized);
        }
        self.authorized_agents.insert(agent, true);
        Ok(true)
    }

    /// Entry point `execute_trade`: an authorized agent buys (adds) or sells
    /// (subtracts) a nonzero `amount` on `token`'s balance. The guards are
    /// checked in order, the first failure wins, and a failed call leaves the
    /// ledger exactly as it was.
    pub fn execute_trade(
        &mut self,
        caller: AccountId,
        token: TokenId,
        amount: Amount,
        is_buy: bool,
    ) -> (result: Result<bool, TradingError>)
        ensures
            result == trade_result(old(self)@, caller, token, amount, is_buy),
            final(self)@ == trade_step(old(self)@, caller, token, amount, is_buy),
    {
        if !self.is_authorized(caller) {
            return Err(TradingError::Unauthorized);
        }
        if amount == 0 {
            return Err(TradingError::InvalidAmount);
        }
        let balance: Amount = self.balance_of(token);
        if is_buy {
            if amount > Amount::MAX - balance {
                return Err(TradingError::Overflow);
            }
            self.balances.insert(token, balance + amount);
        } else {
            if balance < amount {
                return Err(TradingError::InsufficientBalance);
            }
            self.balances.insert(token, balance - amount);
        }
        Ok(true)
    }

    /// The owner identity.
    pub fn owner(&self) -> (owner: AccountId)
        ensures
            owner == self@.owner,
    {
        self.owner
    }

    /// The balance recorded for `token`; a token with no entry reads as zero.
    pub fn balance_of(&self, token: TokenId) -> (amount: Amount)
        ensures
            amount == balance_in(self@.balances, token),
    {
        match self.balances.get(&token) {
            Some(amount) => *amount,
            None => 0,
        }
    }

    /// Whether `account` is an authorized agent; an account with no entry
    /// reads as not authorized.
    pub fn is_authorized(&self, account: AccountId) -> (authorized: bool)
        ensures
            authorized == agent_in(self@.agents, account),
    {
        match self.authorized_agents.get(&account) {
            Some(authorized) => *authorized,
            None => false,
        }
    }
}

} // verus!
