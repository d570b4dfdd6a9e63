//! Laws of the ledger's transitions, stated over the abstract [`Ledger`]
//! state that the entry points' contracts speak of.

use crate::ledger::{
    agent_in, authorize_result, authorize_step, balance_in, trade_result, trade_step, AccountId,
    Amount, Ledger, TokenId, TradingError,
};
use vstd::prelude::*;

verus! {

/// Authorization gating: a trade by an account that is not an authorized
/// agent — absent from the table, or present as `false` — always fails with
/// `Unauthorized`, and the whole state, the balance table included, is
/// unchanged.
pub proof fn lemma_authorization_gating(
    s: Ledger,
    caller: AccountId,
    token: TokenId,
    amount: Amount,
    is_buy: bool,
)
    requires
        !agent_in(s.agents, caller),
    ensures
        trade_result(s, caller, token, amount, is_buy) == Err::<bool, TradingError>(
            TradingError::Unauthorized,
        ),
        trade_step(s, caller, token, amount, is_buy) == s,
{
}

/// Owner gating: `authorize_agent` called by any account other than the
/// owner always fails with `Unauthorized`, and the whole state, the
/// authorized-agent table included, is unchanged.
pub proof fn lemma_owner_gating(s: Ledger, caller: AccountId, agent: AccountId)
    requires
        caller != s.owner,
    ensures
        authorize_result(s, caller, agent) == Err::<bool, TradingError>(
            TradingError::Unauthorized,
        ),
        authorize_step(s, caller, agent) == s,
{
}

/// Zero-amount rejection: an authorized caller trading a zero amount always
/// fails with `InvalidAmount`, for any token and either direction, and the
/// state is unchanged. An unauthorized caller fails with `Unauthorized`
/// instead: the authorization guard is checked before the amount guard.
pub proof fn lemma_zero_amount_rejection(
    s: Ledger,
    caller: AccountId,
    token: TokenId,
    is_buy: bool,
)
    requires
        agent_in(s.agents, caller),
    ensures
        trade_result(s, caller, token, 0, is_buy) == Err::<bool, TradingError>(
            TradingError::InvalidAmount,
        ),
        trade_step(s, caller, token, 0, is_buy) == s,
{
}

/// Sell sufficiency: for a token with current balance `b`, an authorized
/// sell of a nonzero amount greater than `b` fails with
/// `InsufficientBalance` and leaves the state unchanged; one of an amount at
/// most `b` succeeds and sets the token's balance to `b - amount`. A zero
/// amount is rejected as `InvalidAmount` before the balance is consulted.
pub proof fn lemma_sell_sufficiency(s: Ledger, caller: AccountId, token: TokenId, amount: Amount)
    requires
        agent_in(s.agents, caller),
        0 < amount,
    ensures
        amount > balance_in(s.balances, token) ==> {
            &&& trade_result(s, caller, token, amount, false) == Err::<bool, TradingError>(
                TradingError::InsufficientBalance,
            )
            &&& trade_step(s, caller, token, amount, false) == s
        },
        amount <= balance_in(s.balances, token) ==> {
            &&& trade_result(s, caller, token, amount, false) == Ok::<bool, TradingError>(true)
            &&& balance_in(trade_step(s, caller, token, amount, false).balances, token)
                == balance_in(s.balances, token) - amount
        },
{
}

/// Buy accumulation: for a token with current balance `b`, an authorized buy
/// of a nonzero amount succeeds and sets the token's balance to
/// `b + amount`, provided the sum fits in the balance word; past the word it
/// fails with `Overflow` rather than wrap, and the state is unchanged. A
/// zero amount is rejected as `InvalidAmount`.
pub proof fn lemma_buy_accumulation(s: Ledger, caller: AccountId, token: TokenId, amount: Amount)
    requires
        agent_in(s.agents, caller),
        0 < amount,
    ensures
        balance_in(s.balances, token) + amount <= Amount::MAX ==> {
            &&& trade_result(s, caller, token, amount, true) == Ok::<bool, TradingError>(true)
            &&& balance_in(trade_step(s, caller, token, amount, true).balances, token)
                == balance_in(s.balances, token) + amount
        },
        balance_in(s.balances, token) + amount > Amount::MAX ==> {
            &&& trade_result(s, caller, token, amount, true) == Err::<bool, TradingError>(
                TradingError::Overflow,
            )
            &&& trade_step(s, caller, token, amount, true) == s
        },
{
}

/// Idempotent authorization: the owner authorizing the same agent twice
/// leaves the whole state, the authorized-agent table included, exactly as
/// authorizing it once, and both calls succeed.
pub proof fn lemma_idempotent_authorization(s: Ledger, agent: AccountId)
    ensures
        authorize_result(s, s.owner, agent) == Ok::<bool, TradingError>(true),
        authorize_result(authorize_step(s, s.owner, agent), s.owner, agent) == Ok::<
            bool,
            TradingError,
        >(true),
        authorize_step(authorize_step(s, s.owner, agent), s.owner, agent) == authorize_step(
            s,
            s.owner,
            agent,
        ),
{
    assert(authorize_step(authorize_step(s, s.owner, agent), s.owner, agent).agents
        =~= authorize_step(s, s.owner, agent).agents);
}

/// A successful trade touches nothing but the traded token: the owner, the
/// authorized-agent table, and every other token's balance are unchanged;
/// and a failed trade changes nothing at all.
pub proof fn lemma_trade_frame(
    s: Ledger,
    caller: AccountId,
    token: TokenId,
    amount: Amount,
    is_buy: bool,
)
    ensures
        trade_step(s, caller, token, amount, is_buy).owner == s.owner,
        trade_step(s, caller, token, amount, is_buy).agents == s.agents,
        forall|other: TokenId|
            other != token ==> balance_in(
                #[trigger] trade_step(s, caller, token, amount, is_buy).balances,
                other,
            ) == balance_in(s.balances, other),
        trade_result(s, caller, token, amount, is_buy) is Err ==> trade_step(
            s,
            caller,
            token,
            amount,
            is_buy,
        ) == s,
{
}

} // verus!
