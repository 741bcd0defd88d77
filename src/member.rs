use vstd::prelude::*;
use crate::error::RegistryError;
use crate::prices::PoolPrices;
use crate::pubkey::Pubkey;

verus! {

/// Cumulative principal deposited under a book, per asset class.
#[derive(Clone, Copy, Debug)]
pub struct Balances {
    /// Primary-asset principal, before rewards.
    pub deposit: u64,
    /// Mega-asset principal, before rewards.
    pub mega_deposit: u64,
}

/// A sub-ledger: an owner and the principal it deposited.
#[derive(Clone, Copy, Debug)]
pub struct Book {
    pub owner: Pubkey,
    pub balances: Balances,
}

/// Authority allowed to force a withdrawal of the main book, and the token
/// account that receives it.
#[derive(Clone, Copy, Debug)]
pub struct Watchtower {
    pub authority: Pubkey,
    pub dst: Pubkey,
}

/// Reserve and pool-share balances of a member, partitioned between the
/// beneficiary's `main` book and the `delegate` book.
#[derive(Clone, Copy, Debug)]
pub struct MemberBooks {
    /// Pool-share tokens of the primary pool.
    pub spt_amount: u64,
    /// Pool-share tokens of the mega pool.
    pub spt_mega_amount: u64,
    /// Primary asset held in reserve.
    pub stake_intent: u64,
    /// Mega asset held in reserve.
    pub mega_stake_intent: u64,
    pub main: Book,
    /// Principal of a third party (such as a lockup program) that must
    /// always remain recoverable.
    pub delegate: Book,
}

/// A member's staking record within one pool.
#[derive(Clone, Copy, Debug)]
pub struct Member {
    pub initialized: bool,
    pub registrar: Pubkey,
    pub entity: Pubkey,
    pub beneficiary: Pubkey,
    pub generation: u64,
    pub watchtower: Watchtower,
    pub books: MemberBooks,
    /// Prices of the last pool-share mint: a floor on the value of the
    /// member's pool-share tokens, since baskets only grow.
    pub last_active_prices: PoolPrices,
}

impl Balances {
    pub open spec fn amount(self, mega: bool) -> u64 {
        if mega {
            self.mega_deposit
        } else {
            self.deposit
        }
    }

    pub open spec fn with_amount(self, mega: bool, v: u64) -> Balances {
        if mega {
            Balances { mega_deposit: v, ..self }
        } else {
            Balances { deposit: v, ..self }
        }
    }

    /// Zero principal in both asset classes.
    pub fn zero() -> (r: Balances)
        ensures
            r.deposit == 0,
            r.mega_deposit == 0,
    {
        Balances { deposit: 0, mega_deposit: 0 }
    }

    pub open spec fn is_empty_spec(self) -> bool {
        self.deposit == 0 && self.mega_deposit == 0
    }

    /// Whether no principal is recorded in either asset class.
    pub fn is_empty(&self) -> (r: bool)
        ensures
            r == self.is_empty_spec(),
    {
        self.deposit == 0 && self.mega_deposit == 0
    }
}

impl Watchtower {
    pub fn new(authority: Pubkey, dst: Pubkey) -> (r: Watchtower)
        ensures
            r.authority == authority,
            r.dst == dst,
    {
        Watchtower { authority, dst }
    }
}

impl MemberBooks {
    /// Whether `owner` selects the delegate book; any other key selects main.
    pub open spec fn is_delegate(self, owner: Pubkey) -> bool {
        owner@ == self.delegate.owner@
    }

    /// The reserve of the selected asset class.
    pub open spec fn reserve(self, mega: bool) -> u64 {
        if mega {
            self.mega_stake_intent
        } else {
            self.stake_intent
        }
    }

    /// The pool-share balance of the selected pool.
    pub open spec fn spt_balance(self, mega: bool) -> u64 {
        if mega {
            self.spt_mega_amount
        } else {
            self.spt_amount
        }
    }

    /// These books with a fresh delegate book owned by `delegate`.
    pub open spec fn with_delegate(self, delegate: Pubkey) -> MemberBooks {
        MemberBooks {
            delegate: Book { owner: delegate, balances: Balances { deposit: 0, mega_deposit: 0 } },
            ..self
        }
    }

    /// The book that `owner` selects.
    pub open spec fn book_of(self, owner: Pubkey) -> Book {
        if self.is_delegate(owner) {
            self.delegate
        } else {
            self.main
        }
    }

    /// The principal recorded for `owner`'s book in the selected asset class.
    pub open spec fn principal(self, owner: Pubkey, mega: bool) -> u64 {
        self.book_of(owner).balances.amount(mega)
    }

    /// These books with the reserve of one class and the principal of the
    /// book that `owner` selects both set to given values.
    pub open spec fn with_entry(self, mega: bool, owner: Pubkey, reserve: u64, principal: u64) -> MemberBooks {
        let books = if mega {
            MemberBooks { mega_stake_intent: reserve, ..self }
        } else {
            MemberBooks { stake_intent: reserve, ..self }
        };
        if self.is_delegate(owner) {
            MemberBooks {
                delegate: Book {
                    balances: self.delegate.balances.with_amount(mega, principal),
                    ..self.delegate
                },
                ..books
            }
        } else {
            MemberBooks {
                main: Book { balances: self.main.balances.with_amount(mega, principal), ..self.main },
                ..books
            }
        }
    }

    /// The books after `amount` of the selected class was deposited by `owner`.
    pub open spec fn deposited(self, amount: u64, mega: bool, owner: Pubkey) -> MemberBooks {
        self.with_entry(
            mega,
            owner,
            (self.reserve(mega) + amount) as u64,
            (self.principal(owner, mega) + amount) as u64,
        )
    }

    /// The books after `amount` of the selected class was withdrawn to `owner`.
    pub open spec fn withdrawn(self, amount: u64, mega: bool, owner: Pubkey) -> MemberBooks {
        self.with_entry(
            mega,
            owner,
            (self.reserve(mega) - amount) as u64,
            (self.principal(owner, mega) - amount) as u64,
        )
    }

    pub fn new(beneficiary: Pubkey, delegate: Pubkey) -> (r: MemberBooks)
        ensures
            r.spt_amount == 0,
            r.spt_mega_amount == 0,
            r.stake_intent == 0,
            r.mega_stake_intent == 0,
            r.main.owner == beneficiary,
            r.main.balances.deposit == 0,
            r.main.balances.mega_deposit == 0,
            r.delegate.owner == delegate,
            r.delegate.balances.deposit == 0,
            r.delegate.balances.mega_deposit == 0,
    {
        MemberBooks {
            spt_amount: 0,
            spt_mega_amount: 0,
            stake_intent: 0,
            mega_stake_intent: 0,
            main: Book { owner: beneficiary, balances: Balances::zero() },
            delegate: Book { owner: delegate, balances: Balances::zero() },
        }
    }

    pub fn delegate(&self) -> (r: &Book)
        ensures
            *r == self.delegate,
    {
        &self.delegate
    }

    pub fn main(&self) -> (r: &Book)
        ensures
            *r == self.main,
    {
        &self.main
    }
}

impl Member {
    /// This member with its books replaced.
    pub open spec fn with_books(self, books: MemberBooks) -> Member {
        Member { books, ..self }
    }

    /// Outcome of the pre-flight check for minting `amount` pool-share tokens.
    pub open spec fn afford_result(self, prices: PoolPrices, amount: u64, mega: bool) -> Result<bool, RegistryError> {
        if !prices.can_price(amount, mega) {
            Err(RegistryError::InvalidPoolPrices)
        } else if self.books.stake_intent < prices.quantity(amount, mega, 0) {
            Err(RegistryError::InsufficientStakeIntentBalance)
        } else if mega && self.books.mega_stake_intent < prices.quantity(amount, mega, 1) {
            Err(RegistryError::InsufficientStakeIntentBalance)
        } else {
            Ok(true)
        }
    }

    /// Primary asset left to cover the delegate after a primary withdrawal of
    /// `amount`: the primary value of both pools' holdings plus the reserve.
    pub open spec fn remaining_primary(self, prices: PoolPrices, amount: u64) -> int {
        prices.quantity(self.books.spt_amount, false, 0) + prices.quantity(
            self.books.spt_mega_amount,
            true,
            0,
        ) + self.books.stake_intent - amount
    }

    /// Mega asset left to cover the delegate after a mega withdrawal of
    /// `amount`: the mega value of the primary pool's holdings plus the reserve.
    pub open spec fn remaining_mega(self, prices: PoolPrices, amount: u64) -> int {
        prices.quantity(self.books.spt_amount, false, 1) + self.books.mega_stake_intent - amount
    }

    /// Outcome of the check for withdrawing `amount` from reserve to `owner`.
    pub open spec fn withdraw_result(
        self,
        prices: PoolPrices,
        amount: u64,
        mega: bool,
        owner: Pubkey,
    ) -> Result<bool, RegistryError> {
        let books = self.books;
        if !prices.can_price(books.spt_amount, false) || !prices.can_price(
            books.spt_mega_amount,
            true,
        ) {
            Err(RegistryError::InvalidPoolPrices)
        } else if amount > books.reserve(mega) {
            Err(RegistryError::InsufficientStakeIntentBalance)
        } else if books.is_delegate(owner) {
            Ok(true)
        } else if mega && self.remaining_mega(prices, amount) < books.delegate.balances.mega_deposit {
            Err(RegistryError::InsufficientBalance)
        } else if !mega && self.remaining_primary(prices, amount) < books.delegate.balances.deposit {
            Err(RegistryError::InsufficientBalance)
        } else {
            Ok(true)
        }
    }

    /// Checks that the reserve covers the basket that minting `spt_amount`
    /// pool-share tokens costs.
    pub fn can_afford(&self, prices: &PoolPrices, spt_amount: u64, mega: bool) -> (r: Result<
        bool,
        RegistryError,
    >)
        ensures
            r == self.afford_result(*prices, spt_amount, mega),
            prices.can_price(spt_amount, mega) && prices.quantity(spt_amount, mega, 0)
                > self.books.stake_intent ==> r == Err::<bool, RegistryError>(
                RegistryError::InsufficientStakeIntentBalance,
            ),
            prices.can_price(spt_amount, mega) && prices.quantity(spt_amount, mega, 0)
                < self.books.stake_intent && (mega ==> prices.quantity(spt_amount, mega, 1)
                < self.books.mega_stake_intent) ==> r == Ok::<bool, RegistryError>(true),
    {
        let purchase_price = match prices.basket_quantities(spt_amount, mega) {
            Ok(q) => q,
            Err(e) => return Err(e),
        };
        if self.books.stake_intent < purchase_price[0] {
            return Err(RegistryError::InsufficientStakeIntentBalance);
        }
        if mega {
            if self.books.mega_stake_intent < purchase_price[1] {
                return Err(RegistryError::InsufficientStakeIntentBalance);
            }
        }
        Ok(true)
    }

    /// Checks that `amount` of the selected class can leave the reserve for
    /// `owner`. Beyond the reserve itself, a withdrawal by anyone but the
    /// delegate must leave enough value to return the delegate's principal.
    pub fn can_withdraw(&self, prices: &PoolPrices, amount: u64, mega: bool, owner: Pubkey) -> (r:
        Result<bool, RegistryError>)
        ensures
            r == self.withdraw_result(*prices, amount, mega, owner),
            !self.books.is_delegate(owner) && prices.can_price(self.books.spt_amount, false)
                && prices.can_price(self.books.spt_mega_amount, true) && (if mega {
                self.remaining_mega(*prices, amount) < self.books.delegate.balances.mega_deposit
            } else {
                self.remaining_primary(*prices, amount) < self.books.delegate.balances.deposit
            }) ==> r is Err,
    {
        let delegate = self.books.delegate.owner.same_as(&owner);
        let basket = match prices.basket_quantities(self.books.spt_amount, false) {
            Ok(q) => q,
            Err(e) => return Err(e),
        };
        let mega_basket = match prices.basket_quantities(self.books.spt_mega_amount, true) {
            Ok(q) => q,
            Err(e) => return Err(e),
        };
        if mega {
            if amount > self.books.mega_stake_intent {
                return Err(RegistryError::InsufficientStakeIntentBalance);
            }
            if !delegate {
                let remaining_msrm: u128 = basket[1] as u128 + (self.books.mega_stake_intent
                    - amount) as u128;
                if remaining_msrm < self.books.delegate.balances.mega_deposit as u128 {
                    return Err(RegistryError::InsufficientBalance);
                }
            }
        } else {
            if amount > self.books.stake_intent {
                return Err(RegistryError::InsufficientStakeIntentBalance);
            }
            if !delegate {
                let remaining_srm: u128 = basket[0] as u128 + mega_basket[0] as u128 + (
                self.books.stake_intent - amount) as u128;
                if remaining_srm < self.books.delegate.balances.deposit as u128 {
                    return Err(RegistryError::InsufficientBalance);
                }
            }
        }
        Ok(true)
    }

    /// Whether the member holds no pool-share tokens of either pool.
    pub fn stake_is_empty(&self) -> (r: bool)
        ensures
            r == (self.books.spt_amount == 0 && self.books.spt_mega_amount == 0),
    {
        self.books.spt_amount == 0 && self.books.spt_mega_amount == 0
    }
    /// Hands the delegate book to `delegate`, with zero principal. Allowed
    /// only while the current delegate has no principal outstanding.
    pub fn set_delegate(&mut self, delegate: Pubkey)
        requires
            old(self).books.delegate.balances.deposit == 0,
            old(self).books.delegate.balances.mega_deposit == 0,
        ensures
            *final(self) == old(self).with_books(old(self).books.with_delegate(delegate)),
            final(self).books.delegate.owner@ == delegate@,
            final(self).books.delegate.balances.is_empty_spec(),
    {
        self.books.delegate = Book { owner: delegate, balances: Balances::zero() };
    }

    /// Records a deposit of `amount` into the reserve of the selected class,
    /// credited as principal to the book that `owner` selects.
    pub fn did_deposit(&mut self, amount: u64, mega: bool, owner: Pubkey)
        requires
            old(self).books.reserve(mega) + amount <= u64::MAX,
            old(self).books.principal(owner, mega) + amount <= u64::MAX,
        ensures
            *final(self) == old(self).with_books(old(self).books.deposited(amount, mega, owner)),
    {
        if mega {
            self.books.mega_stake_intent = self.books.mega_stake_intent + amount;
        } else {
            self.books.stake_intent = self.books.stake_intent + amount;
        }
        let delegate = owner.same_as(&self.books.delegate.owner);
        if delegate {
            if mega {
                self.books.delegate.balances.mega_deposit = self.books.delegate.balances.mega_deposit
                    + amount;
            } else {
                self.books.delegate.balances.deposit = self.books.delegate.balances.deposit + amount;
            }
        } else {
            if mega {
                self.books.main.balances.mega_deposit = self.books.main.balances.mega_deposit
                    + amount;
            } else {
                self.books.main.balances.deposit = self.books.main.balances.deposit + amount;
            }
        }
    }

    /// Records a withdrawal of `amount` from the reserve of the selected
    /// class, debited from the principal of the book that `owner` selects.
    pub fn did_withdraw(&mut self, amount: u64, mega: bool, owner: Pubkey)
        requires
            amount <= old(self).books.reserve(mega),
            amount <= old(self).books.principal(owner, mega),
        ensures
            *final(self) == old(self).with_books(old(self).books.withdrawn(amount, mega, owner)),
    {
        if mega {
            self.books.mega_stake_intent = self.books.mega_stake_intent - amount;
        } else {
            self.books.stake_intent = self.books.stake_intent - amount;
        }
        let delegate = owner.same_as(&self.books.delegate.owner);
        if delegate {
            if mega {
                self.books.delegate.balances.mega_deposit = self.books.delegate.balances.mega_deposit
                    - amount;
            } else {
                self.books.delegate.balances.deposit = self.books.delegate.balances.deposit - amount;
            }
        } else {
            if mega {
                self.books.main.balances.mega_deposit = self.books.main.balances.mega_deposit
                    - amount;
            } else {
                self.books.main.balances.deposit = self.books.main.balances.deposit - amount;
            }
        }
    }

    /// The member after minting `amount` pool-share tokens of the selected
    /// pool at `prices`: the basket is debited from the reserve (the mega
    /// quantity only for a mega mint) and `prices` becomes the last price.
    pub open spec fn created(self, prices: PoolPrices, amount: u64, mega: bool) -> Member {
        let b = self.books;
        let books = if mega {
            MemberBooks {
                spt_mega_amount: (b.spt_mega_amount + amount) as u64,
                stake_intent: (b.stake_intent - prices.quantity(amount, mega, 0)) as u64,
                mega_stake_intent: (b.mega_stake_intent - prices.quantity(amount, mega, 1)) as u64,
                ..b
            }
        } else {
            MemberBooks {
                spt_amount: (b.spt_amount + amount) as u64,
                stake_intent: (b.stake_intent - prices.quantity(amount, mega, 0)) as u64,
                ..b
            }
        };
        Member { books, last_active_prices: prices, ..self }
    }

    /// Whether the books can absorb a mint of `amount` tokens at `prices`:
    /// the token count does not overflow and the reserve covers the basket.
    pub open spec fn can_record_mint(self, prices: PoolPrices, amount: u64, mega: bool) -> bool {
        &&& (if mega {
            self.books.spt_mega_amount + amount <= u64::MAX
        } else {
            self.books.spt_amount + amount <= u64::MAX
        })
        &&& prices.can_price(amount, mega) ==> prices.quantity(amount, mega, 0) <= self.books.stake_intent
        &&& prices.can_price(amount, mega) && mega ==> prices.quantity(amount, mega, 1)
            <= self.books.mega_stake_intent
    }

    /// Records the mint of `amount` pool-share tokens of the selected pool,
    /// paid for from the reserve at `prices`. Fails, changing nothing, when
    /// `prices` cannot value the amount.
    pub fn spt_did_create(&mut self, prices: &PoolPrices, amount: u64, mega: bool) -> (r: Result<
        (),
        RegistryError,
    >)
        requires
            old(self).can_record_mint(*prices, amount, mega),
        ensures
            prices.can_price(amount, mega) ==> r == Ok::<(), RegistryError>(()),
            prices.can_price(amount, mega) ==> *final(self) == old(self).created(*prices, amount, mega),
            !prices.can_price(amount, mega) ==> r == Err::<(), RegistryError>(RegistryError::InvalidPoolPrices),
            !prices.can_price(amount, mega) ==> *final(self) == *old(self),
    {
        let basket = match prices.basket_quantities(amount, mega) {
            Ok(q) => q,
            Err(e) => return Err(e),
        };
        if mega {
            self.books.spt_mega_amount = self.books.spt_mega_amount + amount;
            self.books.stake_intent = self.books.stake_intent - basket[0];
            self.books.mega_stake_intent = self.books.mega_stake_intent - basket[1];
        } else {
            self.books.spt_amount = self.books.spt_amount + amount;
            self.books.stake_intent = self.books.stake_intent - basket[0];
        }
        self.last_active_prices = *prices;
        Ok(())
    }

    /// The member after `spt_amount` tokens of the selected pool were burned.
    pub open spec fn redeem_started(self, spt_amount: u64, mega: bool) -> Member {
        if mega {
            Member {
                books: MemberBooks {
                    spt_mega_amount: (self.books.spt_mega_amount - spt_amount) as u64,
                    ..self.books
                },
                ..self
            }
        } else {
            Member {
                books: MemberBooks { spt_amount: (self.books.spt_amount - spt_amount) as u64, ..self.books },
                ..self
            }
        }
    }

    /// The member after the basket of a redemption reached the reserve.
    pub open spec fn redeem_ended(self, asset_amount: u64, mega_asset_amount: u64) -> Member {
        Member {
            books: MemberBooks {
                stake_intent: (self.books.stake_intent + asset_amount) as u64,
                mega_stake_intent: (self.books.mega_stake_intent + mega_asset_amount) as u64,
                ..self.books
            },
            ..self
        }
    }

    /// First phase of a redemption: burns `spt_amount` pool-share tokens of
    /// the selected pool.
    pub fn spt_did_redeem_start(&mut self, spt_amount: u64, mega: bool)
        requires
            spt_amount <= old(self).books.spt_balance(mega),
        ensures
            *final(self) == old(self).redeem_started(spt_amount, mega),
    {
        if mega {
            self.books.spt_mega_amount = self.books.spt_mega_amount - spt_amount;
        } else {
            self.books.spt_amount = self.books.spt_amount - spt_amount;
        }
    }

    /// Second phase of a redemption: credits the basket received to the
    /// reserve.
    pub fn spt_did_redeem_end(&mut self, asset_amount: u64, mega_asset_amount: u64)
        requires
            old(self).books.stake_intent + asset_amount <= u64::MAX,
            old(self).books.mega_stake_intent + mega_asset_amount <= u64::MAX,
        ensures
            *final(self) == old(self).redeem_ended(asset_amount, mega_asset_amount),
    {
        self.books.stake_intent = self.books.stake_intent + asset_amount;
        self.books.mega_stake_intent = self.books.mega_stake_intent + mega_asset_amount;
    }
}

impl Member {
    /// Whether every counter of the record is zero.
    pub open spec fn is_zero(self) -> bool {
        &&& self.generation == 0
        &&& self.books.spt_amount == 0
        &&& self.books.spt_mega_amount == 0
        &&& self.books.stake_intent == 0
        &&& self.books.mega_stake_intent == 0
        &&& self.books.main.balances.is_empty_spec()
        &&& self.books.delegate.balances.is_empty_spec()
    }
}

impl Default for Member {
    /// The zero record: not initialized, every key zero, every counter zero.
    fn default() -> (r: Member)
        ensures
            !r.initialized,
            r.is_zero(),
    {
        let z = Pubkey::zero();
        Member {
            initialized: false,
            registrar: z,
            entity: z,
            beneficiary: z,
            generation: 0,
            watchtower: Watchtower::new(z, z),
            books: MemberBooks::new(z, z),
            last_active_prices: PoolPrices::new([0, 0], [0, 0]),
        }
    }
}

} // verus!
