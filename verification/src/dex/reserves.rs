//! The two balances that the pool holds, and the moves that change them.

use vstd::prelude::*;
use crate::dex::error::PoolError;
use crate::dex::math::mul_wide;
use crate::dex::math::wide_lt;

verus! {

/// One side of the pair.
#[derive(Clone, Copy, Debug, PartialEq, Eq, Structural)]
pub enum Asset {
    A,
    B,
}

/// The balances of the two assets. Their product is the invariant `k` of the
/// market: a trade never lowers it.
#[derive(Clone, Copy, Debug, PartialEq, Eq, Structural)]
pub struct ReservePair {
    pub reserve_a: u128,
    pub reserve_b: u128,
}

/// The mathematical state of a pair, free of machine bounds.
pub struct Balances {
    pub a: nat,
    pub b: nat,
}

impl Balances {
    pub open spec fn of(self, asset: Asset) -> nat {
        match asset {
            Asset::A => self.a,
            Asset::B => self.b,
        }
    }

    pub open spec fn product(self) -> nat {
        self.a * self.b
    }

    /// The pair after `amount` is added to one side.
    pub open spec fn credit(self, asset: Asset, amount: nat) -> Balances {
        match asset {
            Asset::A => Balances { a: self.a + amount, b: self.b },
            Asset::B => Balances { a: self.a, b: self.b + amount },
        }
    }

    /// The pair after `amount` is taken from one side that holds as much.
    pub open spec fn debit(self, asset: Asset, amount: nat) -> Balances
        recommends
            amount <= self.of(asset),
    {
        match asset {
            Asset::A => Balances { a: (self.a - amount) as nat, b: self.b },
            Asset::B => Balances { a: self.a, b: (self.b - amount) as nat },
        }
    }

    pub open spec fn fits(self) -> bool {
        self.a <= u128::MAX && self.b <= u128::MAX
    }
}

/// The pair after a deposit, or why it is refused.
pub open spec fn spec_apply_deposit(r: Balances, amount_a: nat, amount_b: nat) -> Result<
    Balances,
    PoolError,
> {
    let next = Balances { a: r.a + amount_a, b: r.b + amount_b };
    if next.fits() {
        Ok(next)
    } else {
        Err(PoolError::ArithmeticOverflow)
    }
}

/// The pair after a withdrawal, or why it is refused.
pub open spec fn spec_apply_withdrawal(r: Balances, amount_a: nat, amount_b: nat) -> Result<
    Balances,
    PoolError,
> {
    if amount_a > r.a || amount_b > r.b {
        Err(PoolError::InsufficientReserve)
    } else {
        Ok(Balances { a: (r.a - amount_a) as nat, b: (r.b - amount_b) as nat })
    }
}

/// The pair after a trade that brings `delta_in` of `asset_in` and takes
/// `delta_out` of `asset_out`, or why it is refused. A trade that would lower
/// the product of the reserves is refused like one that overdraws them.
pub open spec fn spec_apply_swap(
    r: Balances,
    delta_in: nat,
    asset_in: Asset,
    delta_out: nat,
    asset_out: Asset,
) -> Result<Balances, PoolError> {
    let credited = r.credit(asset_in, delta_in);
    if !credited.fits() {
        Err(PoolError::ArithmeticOverflow)
    } else if delta_out > credited.of(asset_out) {
        Err(PoolError::InsufficientReserve)
    } else if credited.debit(asset_out, delta_out).product() < r.product() {
        Err(PoolError::InsufficientReserve)
    } else {
        Ok(credited.debit(asset_out, delta_out))
    }
}

/// Whether a mutation ended as the model says: on success the pair is the
/// model's, on failure it is untouched and the error is the model's.
pub open spec fn moved_as(
    got: Result<(), PoolError>,
    before: ReservePair,
    after: ReservePair,
    model: Result<Balances, PoolError>,
) -> bool {
    match model {
        Ok(next) => got == Ok::<(), PoolError>(()) && after@ == next,
        Err(e) => got == Err::<(), PoolError>(e) && after == before,
    }
}

impl View for ReservePair {
    type V = Balances;

    open spec fn view(&self) -> Balances {
        Balances { a: self.reserve_a as nat, b: self.reserve_b as nat }
    }
}

impl ReservePair {
    /// An empty pair.
    pub fn new() -> (r: ReservePair)
        ensures
            r.reserve_a == 0,
            r.reserve_b == 0,
    {
        ReservePair { reserve_a: 0, reserve_b: 0 }
    }

    /// The balance of one side.
    pub fn balance(&self, asset: Asset) -> (amount: u128)
        ensures
            amount == self@.of(asset),
    {
        match asset {
            Asset::A => self.reserve_a,
            Asset::B => self.reserve_b,
        }
    }

    /// Adds a deposit to both sides; refused if a balance would pass
    /// `u128::MAX`.
    pub fn apply_deposit(&mut self, amount_a: u128, amount_b: u128) -> (r: Result<(), PoolError>)
        ensures
            moved_as(
                r,
                *old(self),
                *final(self),
                spec_apply_deposit(old(self)@, amount_a as nat, amount_b as nat),
            ),
    {
        match (self.reserve_a.checked_add(amount_a), self.reserve_b.checked_add(amount_b)) {
            (Some(a), Some(b)) => {
                self.reserve_a = a;
                self.reserve_b = b;
                Ok(())
            },
            _ => Err(PoolError::ArithmeticOverflow),
        }
    }

    /// Takes a withdrawal from both sides; refused if either side holds less.
    pub fn apply_withdrawal(&mut self, amount_a: u128, amount_b: u128) -> (r: Result<
        (),
        PoolError,
    >)
        ensures
            moved_as(
                r,
                *old(self),
                *final(self),
                spec_apply_withdrawal(old(self)@, amount_a as nat, amount_b as nat),
            ),
    {
        if amount_a > self.reserve_a || amount_b > self.reserve_b {
            return Err(PoolError::InsufficientReserve);
        }
        self.reserve_a = self.reserve_a - amount_a;
        self.reserve_b = self.reserve_b - amount_b;
        Ok(())
    }

    /// Books a trade: `delta_in` of `asset_in` comes in, `delta_out` of
    /// `asset_out` goes out. The product of the reserves is compared in 256
    /// bits before anything is written, and a trade that would lower it is
    /// refused.
    pub fn apply_swap(
        &mut self,
        delta_in: u128,
        asset_in: Asset,
        delta_out: u128,
        asset_out: Asset,
    ) -> (r: Result<(), PoolError>)
        ensures
            moved_as(
                r,
                *old(self),
                *final(self),
                spec_apply_swap(old(self)@, delta_in as nat, asset_in, delta_out as nat, asset_out),
            ),
    {
        let mut next = *self;
        match asset_in {
            Asset::A => match next.reserve_a.checked_add(delta_in) {
                Some(a) => {
                    next.reserve_a = a;
                },
                None => {
                    return Err(PoolError::ArithmeticOverflow);
                },
            },
            Asset::B => match next.reserve_b.checked_add(delta_in) {
                Some(b) => {
                    next.reserve_b = b;
                },
                None => {
                    return Err(PoolError::ArithmeticOverflow);
                },
            },
        }
        assert(next@ == old(self)@.credit(asset_in, delta_in as nat));
        if delta_out > next.balance(asset_out) {
            return Err(PoolError::InsufficientReserve);
        }
        match asset_out {
            Asset::A => {
                next.reserve_a = next.reserve_a - delta_out;
            },
            Asset::B => {
                next.reserve_b = next.reserve_b - delta_out;
            },
        }
        let (after_hi, after_lo) = mul_wide(next.reserve_a, next.reserve_b);
        let (before_hi, before_lo) = mul_wide(self.reserve_a, self.reserve_b);
        if wide_lt(after_hi, after_lo, before_hi, before_lo) {
            return Err(PoolError::InsufficientReserve);
        }
        *self = next;
        Ok(())
    }
}

} // verus!
