use vstd::prelude::*;
use crate::member::Member;
use crate::prices::PoolPrices;
use crate::pubkey::Pubkey;

verus! {

/// A deposit followed by a withdrawal of the same amount, class and owner
/// is allowed and returns the reserve and every book's principal to their
/// values before the deposit.
pub proof fn lemma_deposit_withdraw_inverse(m: Member, amount: u64, mega: bool, owner: Pubkey)
    requires
        m.books.reserve(mega) + amount <= u64::MAX,
        m.books.principal(owner, mega) + amount <= u64::MAX,
    ensures
        amount <= m.books.deposited(amount, mega, owner).reserve(mega),
        amount <= m.books.deposited(amount, mega, owner).principal(owner, mega),
        m.with_books(m.books.deposited(amount, mega, owner)).with_books(
            m.books.deposited(amount, mega, owner).withdrawn(amount, mega, owner),
        ) == m,
{
}

/// Minting pool-share tokens at `prices`, burning the same number of tokens
/// and receiving back the basket that the mint debited restores the reserve
/// and the pool-share balances; only the last price has moved to `prices`.
pub proof fn lemma_mint_redeem_round_trip(m: Member, prices: PoolPrices, amount: u64, mega: bool)
    requires
        m.can_record_mint(prices, amount, mega),
        prices.can_price(amount, mega),
    ensures
        amount <= m.created(prices, amount, mega).books.spt_balance(mega),
        m.created(prices, amount, mega).books.stake_intent + prices.quantity(amount, mega, 0)
            <= u64::MAX,
        m.created(prices, amount, mega).books.mega_stake_intent + (if mega {
            prices.quantity(amount, mega, 1)
        } else {
            0
        }) <= u64::MAX,
        m.created(prices, amount, mega).redeem_started(amount, mega).redeem_ended(
            prices.quantity(amount, mega, 0) as u64,
            (if mega {
                prices.quantity(amount, mega, 1)
            } else {
                0
            }) as u64,
        ).books == m.books,
        m.created(prices, amount, mega).redeem_started(amount, mega).redeem_ended(
            prices.quantity(amount, mega, 0) as u64,
            (if mega {
                prices.quantity(amount, mega, 1)
            } else {
                0
            }) as u64,
        ).last_active_prices == prices,
{
}

/// A withdrawal by anyone but the delegate that `can_withdraw` approves, once
/// recorded, leaves the delegate's book untouched and the member's remaining
/// value (pool-share holdings at `prices` plus reserve) still covering the
/// delegate's principal in the withdrawn asset class.
pub proof fn lemma_approved_withdrawal_keeps_delegate_covered(
    m: Member,
    prices: PoolPrices,
    amount: u64,
    mega: bool,
    owner: Pubkey,
)
    requires
        m.withdraw_result(prices, amount, mega, owner) is Ok,
        !m.books.is_delegate(owner),
        amount <= m.books.principal(owner, mega),
    ensures
        m.books.withdrawn(amount, mega, owner).delegate == m.books.delegate,
        mega ==> m.with_books(m.books.withdrawn(amount, mega, owner)).remaining_mega(prices, 0)
            >= m.books.delegate.balances.mega_deposit,
        !mega ==> m.with_books(m.books.withdrawn(amount, mega, owner)).remaining_primary(prices, 0)
            >= m.books.delegate.balances.deposit,
{
}

} // verus!
