//! What holds of the token ledger over any number of calls, and between its
//! entry points. Every law is stated over the model of the ledger, `TokenState`,
//! by which the entry points of `LumenToken` say what they do.

use vstd::prelude::*;
use crate::allowance::{
    effective_allowance, grant, lemma_grant, lemma_spend, spend, stored_allowance,
    valid_allowances, AllowanceValue, Allowances,
};
use crate::balance::{
    balance_of, is_frozen, lemma_balance_not_negative, lemma_credit, lemma_debit,
    lemma_with_frozen, total_supply,
};
use crate::error::{settled, TokenError};
use crate::token::{lemma_moved, TokenState};
use crate::upgradable::UpgradableState;

verus! {

/// One call of an entry point that can change the ledger, with the identities
/// that have proved control for it and, where the call reads it, the ledger
/// sequence at which it is made.
pub enum Call {
    Initialize { admin: Seq<char>, decimal: u32, name: Seq<char>, symbol: Seq<char> },
    Mint { auth: Set<Seq<char>>, to: Seq<char>, amount: i128 },
    SetAdmin { auth: Set<Seq<char>>, new_admin: Seq<char> },
    Freeze { auth: Set<Seq<char>>, id: Seq<char> },
    Unfreeze { auth: Set<Seq<char>>, id: Seq<char> },
    Approve {
        auth: Set<Seq<char>>,
        from: Seq<char>,
        spender: Seq<char>,
        amount: i128,
        expiration_ledger: u32,
    },
    Transfer { auth: Set<Seq<char>>, from: Seq<char>, to: Seq<char>, amount: i128 },
    TransferFrom {
        auth: Set<Seq<char>>,
        now: u32,
        spender: Seq<char>,
        from: Seq<char>,
        to: Seq<char>,
        amount: i128,
    },
    Burn { auth: Set<Seq<char>>, from: Seq<char>, amount: i128 },
    BurnFrom { auth: Set<Seq<char>>, now: u32, spender: Seq<char>, from: Seq<char>, amount: i128 },
}

/// The step that `call` asks of the ledger in the state `s`.
pub open spec fn step(s: TokenState, call: Call) -> Result<TokenState, TokenError> {
    match call {
        Call::Initialize { admin, decimal, name, symbol } => s.initialize(
            admin,
            decimal,
            name,
            symbol,
        ),
        Call::Mint { auth, to, amount } => s.mint(auth, to, amount),
        Call::SetAdmin { auth, new_admin } => s.set_admin(auth, new_admin),
        Call::Freeze { auth, id } => s.set_frozen(auth, id, true),
        Call::Unfreeze { auth, id } => s.set_frozen(auth, id, false),
        Call::Approve { auth, from, spender, amount, expiration_ledger } => s.approve(
            auth,
            from,
            spender,
            amount,
            expiration_ledger,
        ),
        Call::Transfer { auth, from, to, amount } => s.transfer(auth, from, to, amount),
        Call::TransferFrom { auth, now, spender, from, to, amount } => s.transfer_from(
            auth,
            now,
            spender,
            from,
            to,
            amount,
        ),
        Call::Burn { auth, from, amount } => s.burn(auth, from, amount),
        Call::BurnFrom { auth, now, spender, from, amount } => s.burn_from(
            auth,
            now,
            spender,
            from,
            amount,
        ),
    }
}

/// The state of the ledger after `calls`, made one after the other from the
/// state `s`. A call that is refused leaves the state as it found it.
pub open spec fn run(s: TokenState, calls: Seq<Call>) -> TokenState
    decreases calls.len(),
{
    if calls.len() == 0 {
        s
    } else {
        let before = run(s, calls.drop_last());
        settled(before, step(before, calls.last()))
    }
}

/// What `call` mints in the state `s`: its amount if it is a mint that is
/// taken, nothing otherwise.
pub open spec fn minted_by(s: TokenState, call: Call) -> int {
    match call {
        Call::Mint { amount, .. } => if step(s, call) is Ok {
            amount as int
        } else {
            0
        },
        _ => 0,
    }
}

/// What `call` burns in the state `s`: its amount if it is a burn that is
/// taken, for oneself or for another, nothing otherwise.
pub open spec fn burned_by(s: TokenState, call: Call) -> int {
    match call {
        Call::Burn { amount, .. } => if step(s, call) is Ok {
            amount as int
        } else {
            0
        },
        Call::BurnFrom { amount, .. } => if step(s, call) is Ok {
            amount as int
        } else {
            0
        },
        _ => 0,
    }
}

/// All that `calls` mint, made one after the other from the state `s`.
pub open spec fn total_minted(s: TokenState, calls: Seq<Call>) -> int
    decreases calls.len(),
{
    if calls.len() == 0 {
        0
    } else {
        total_minted(s, calls.drop_last()) + minted_by(run(s, calls.drop_last()), calls.last())
    }
}

/// All that `calls` burn, made one after the other from the state `s`.
pub open spec fn total_burned(s: TokenState, calls: Seq<Call>) -> int
    decreases calls.len(),
{
    if calls.len() == 0 {
        0
    } else {
        total_burned(s, calls.drop_last()) + burned_by(run(s, calls.drop_last()), calls.last())
    }
}

/// One call keeps a valid ledger valid, and moves the sum of all balances by
/// what it mints less what it burns.
pub proof fn law_step(s: TokenState, call: Call)
    requires
        s.valid(),
    ensures
        settled(s, step(s, call)).valid(),
        total_supply(settled(s, step(s, call)).balances) == total_supply(s.balances) + minted_by(
            s,
            call,
        ) - burned_by(s, call),
{
    match call {
        Call::Initialize { .. } => {},
        Call::Mint { auth, to, amount } => {
            lemma_credit(s.balances, to, amount);
        },
        Call::SetAdmin { .. } => {},
        Call::Freeze { auth, id } => {
            lemma_with_frozen(s.balances, id, true);
        },
        Call::Unfreeze { auth, id } => {
            lemma_with_frozen(s.balances, id, false);
        },
        Call::Approve { auth, from, spender, amount, expiration_ledger } => {
            lemma_grant(s.allowances, from, spender, amount, expiration_ledger);
        },
        Call::Transfer { auth, from, to, amount } => {
            lemma_moved(s.balances, from, to, amount);
        },
        Call::TransferFrom { auth, now, spender, from, to, amount } => {
            lemma_spend(s.allowances, from, spender, amount, now);
            lemma_moved(s.balances, from, to, amount);
        },
        Call::Burn { auth, from, amount } => {
            lemma_debit(s.balances, from, amount);
        },
        Call::BurnFrom { auth, now, spender, from, amount } => {
            lemma_spend(s.allowances, from, spender, amount, now);
            lemma_debit(s.balances, from, amount);
        },
    }
}

/// Conservation. After any calls, taken or refused, the sum of all balances
/// is what it was, more by all that was minted and less by all that was
/// burned. From the ledger that holds nothing it is all that was minted less
/// all that was burned.
pub proof fn law_conservation(s: TokenState, calls: Seq<Call>)
    requires
        s.valid(),
    ensures
        run(s, calls).valid(),
        total_supply(run(s, calls).balances) == total_supply(s.balances) + total_minted(s, calls)
            - total_burned(s, calls),
        s.balances.len() == 0 ==> total_supply(run(s, calls).balances) == total_minted(s, calls)
            - total_burned(s, calls),
    decreases calls.len(),
{
    if calls.len() > 0 {
        law_conservation(s, calls.drop_last());
        law_step(run(s, calls.drop_last()), calls.last());
    }
}

/// No negative balances. After any calls, taken or refused, on a valid
/// ledger, no account holds less than nothing.
pub proof fn law_no_negative_balance(s: TokenState, calls: Seq<Call>, id: Seq<char>)
    requires
        s.valid(),
    ensures
        run(s, calls).valid(),
        balance_of(run(s, calls).balances, id) >= 0,
{
    law_conservation(s, calls);
    lemma_balance_not_negative(run(s, calls).balances, id);
}

/// A freeze blocks what goes out, not what comes in. Once the administrator
/// has frozen `a`, a mint to `a` is taken exactly when it would have been
/// taken before, and a transfer or a burn by `a`, who has proved control, is
/// refused with `AccountFrozen` whatever the amount.
pub proof fn law_freeze_blocks_outflow_not_inflow(
    s: TokenState,
    admin_auth: Set<Seq<char>>,
    a: Seq<char>,
    minted: i128,
    auth: Set<Seq<char>>,
    to: Seq<char>,
    amount: i128,
)
    requires
        s.valid(),
        s.set_frozen(admin_auth, a, true) is Ok,
        auth.contains(a),
    ensures
        ({
            let frozen = s.set_frozen(admin_auth, a, true)->Ok_0;
            &&& is_frozen(frozen.balances, a)
            &&& frozen.mint(admin_auth, a, minted) is Ok <==> s.mint(admin_auth, a, minted) is Ok
            &&& frozen.mint(admin_auth, a, minted) is Ok <==> 0 <= minted && balance_of(
                s.balances,
                a,
            ) + minted <= i128::MAX
            &&& frozen.mint(admin_auth, a, minted) matches Ok(after) ==> balance_of(
                after.balances,
                a,
            ) == balance_of(s.balances, a) + minted
            &&& frozen.transfer(auth, a, to, amount) == Err::<TokenState, TokenError>(
                TokenError::AccountFrozen,
            )
            &&& frozen.burn(auth, a, amount) == Err::<TokenState, TokenError>(
                TokenError::AccountFrozen,
            )
        }),
{
    let frozen = s.set_frozen(admin_auth, a, true)->Ok_0;
    lemma_with_frozen(s.balances, a, true);
    lemma_credit(frozen.balances, a, minted);
    lemma_credit(s.balances, a, minted);
}

/// An allowance is replaced, not added to. After `a` has approved `first` and
/// then `second` for `b`, what is written down is `second` under the second
/// expiration, and until that expiration `second` is what counts.
pub proof fn law_approve_replaces(
    s: TokenState,
    auth: Set<Seq<char>>,
    a: Seq<char>,
    b: Seq<char>,
    first: i128,
    first_expiration: u32,
    second: i128,
    second_expiration: u32,
    now: u32,
)
    requires
        s.valid(),
        s.approve(auth, a, b, first, first_expiration) is Ok,
        s.approve(auth, a, b, first, first_expiration)->Ok_0.approve(
            auth,
            a,
            b,
            second,
            second_expiration,
        ) is Ok,
    ensures
        ({
            let once = s.approve(auth, a, b, first, first_expiration)->Ok_0;
            let twice = once.approve(auth, a, b, second, second_expiration)->Ok_0;
            &&& stored_allowance(twice.allowances, a, b) == AllowanceValue {
                amount: second,
                expiration_ledger: second_expiration,
            }
            &&& now <= second_expiration ==> effective_allowance(twice.allowances, a, b, now).amount
                == second
        }),
{
    let once = s.approve(auth, a, b, first, first_expiration)->Ok_0;
    lemma_grant(s.allowances, a, b, first, first_expiration);
    lemma_grant(once.allowances, a, b, second, second_expiration);
}

/// An allowance that has expired cannot be spent. After `amount` was written
/// for `owner` and `spender` to expire at `expiration_ledger`, at any later
/// ledger sequence a spend of anything at all is refused with
/// `InsufficientAllowance`, though `amount` is still written down.
pub proof fn law_expired_allowance_is_worth_nothing(
    t: Allowances,
    owner: Seq<char>,
    spender: Seq<char>,
    amount: i128,
    expiration_ledger: u32,
    now: u32,
    spent: i128,
)
    requires
        valid_allowances(t),
        grant(t, owner, spender, amount, expiration_ledger) is Ok,
        expiration_ledger < now,
        spent > 0,
    ensures
        ({
            let granted = grant(t, owner, spender, amount, expiration_ledger)->Ok_0;
            &&& stored_allowance(granted, owner, spender).amount == amount
            &&& effective_allowance(granted, owner, spender, now).amount == 0
            &&& spend(granted, owner, spender, spent, now) == Err::<Allowances, TokenError>(
                TokenError::InsufficientAllowance,
            )
        }),
{
    lemma_grant(t, owner, spender, amount, expiration_ledger);
}

/// The role of administrator goes over whole. After the administrator has
/// handed the role to `new_admin`, a mint is taken only if `new_admin` has
/// proved control, and is refused with `Unauthorized` if not: the proof of
/// the administrator before counts for nothing.
pub proof fn law_admin_rotation(
    s: TokenState,
    old_auth: Set<Seq<char>>,
    new_admin: Seq<char>,
    auth: Set<Seq<char>>,
    to: Seq<char>,
    amount: i128,
)
    requires
        s.valid(),
        s.set_admin(old_auth, new_admin) is Ok,
    ensures
        ({
            let rotated = s.set_admin(old_auth, new_admin)->Ok_0;
            &&& rotated.admin == Some(new_admin)
            &&& rotated.mint(auth, to, amount) is Ok ==> auth.contains(new_admin)
            &&& !auth.contains(new_admin) ==> rotated.mint(auth, to, amount) == Err::<
                TokenState,
                TokenError,
            >(TokenError::Unauthorized)
            &&& auth.contains(new_admin) ==> (rotated.mint(auth, to, amount) is Ok <==> 0 <= amount
                && balance_of(s.balances, to) + amount <= i128::MAX)
        }),
{
    let rotated = s.set_admin(old_auth, new_admin)->Ok_0;
    lemma_credit(rotated.balances, to, amount);
}

/// An upgrade is the administrator's alone. A caller who is not the
/// administrator is refused, whatever proofs of control come with the call:
/// no such call ever yields the order to replace the code. The same holds of
/// the upgradable contract.
pub proof fn law_upgrade_gating(
    s: TokenState,
    u: UpgradableState,
    auth: Set<Seq<char>>,
    caller: Seq<char>,
)
    ensures
        s.admin != Some(caller) ==> s.upgrade(auth, caller) is Err,
        s.admin is Some && s.admin != Some(caller) ==> s.upgrade(auth, caller) == Err::<
            TokenState,
            TokenError,
        >(TokenError::Unauthorized),
        s.upgrade(auth, caller) is Ok <==> s.admin == Some(caller) && auth.contains(caller),
        u.admin != Some(caller) ==> u.admin_consent(auth, caller) is Err,
        u.admin_consent(auth, caller) is Ok <==> u.admin == Some(caller) && auth.contains(caller),
{
}

} // verus!
