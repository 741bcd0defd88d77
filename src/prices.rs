use vstd::prelude::*;
use crate::error::RegistryError;

verus! {

/// A pricing snapshot of the two staking pools: the basket of underlying
/// assets (primary, mega) that backs one pool-share token of each pool.
#[derive(Clone, Copy, Debug)]
pub struct PoolPrices {
    /// Primary and mega quantities behind one token of the primary pool.
    pub basket: [u64; 2],
    /// Primary and mega quantities behind one token of the mega pool.
    pub mega_basket: [u64; 2],
}

impl PoolPrices {
    /// The per-token basket of the pool selected by `mega`.
    pub open spec fn unit(self, mega: bool) -> Seq<u64> {
        if mega {
            self.mega_basket@
        } else {
            self.basket@
        }
    }

    /// Quantity of asset `i` (0: primary, 1: mega) behind `amount` tokens.
    pub open spec fn quantity(self, amount: u64, mega: bool, i: int) -> int {
        amount * self.unit(mega)[i]
    }

    /// Whether both quantities behind `amount` tokens fit in 64 bits.
    pub open spec fn can_price(self, amount: u64, mega: bool) -> bool {
        self.quantity(amount, mega, 0) <= u64::MAX && self.quantity(amount, mega, 1) <= u64::MAX
    }

    pub fn new(basket: [u64; 2], mega_basket: [u64; 2]) -> (r: PoolPrices)
        ensures
            r.basket@ == basket@,
            r.mega_basket@ == mega_basket@,
    {
        PoolPrices { basket, mega_basket }
    }

    /// The basket `[primary, mega]` that `amount` pool-share tokens of the
    /// pool selected by `mega` are worth.
    pub fn basket_quantities(&self, amount: u64, mega: bool) -> (r: Result<[u64; 2], RegistryError>)
        ensures
            match r {
                Ok(q) => self.can_price(amount, mega) && q@[0] == self.quantity(amount, mega, 0)
                    && q@[1] == self.quantity(amount, mega, 1),
                Err(e) => !self.can_price(amount, mega) && e == RegistryError::InvalidPoolPrices,
            },
    {
        let unit = if mega {
            self.mega_basket
        } else {
            self.basket
        };
        let q0 = amount.checked_mul(unit[0]);
        let q1 = amount.checked_mul(unit[1]);
        match (q0, q1) {
            (Some(a), Some(b)) => Ok([a, b]),
            _ => Err(RegistryError::InvalidPoolPrices),
        }
    }
}

} // verus!
