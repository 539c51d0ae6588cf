//! A stable coin that is minted only at its peg.
//!
//! Balances are kept per address; every holder that was minted to has the
//! proof issued with its latest mint. The oracle's price and the verdict on
//! a proof come from outside and are handed in.

use vstd::prelude::*;
use crate::address::Address;
use crate::registry::Registry;

verus! {

/// The price at which the coin is minted.
pub const PEG_PRICE: i128 = 314_159;

/// Why the stable coin refuses a mint or a transfer.
#[derive(Clone, Copy, Debug, PartialEq, Eq, Structural)]
pub enum StableError {
    /// The price is off the peg.
    PegViolated,
    /// The sender holds less than it sends.
    InsufficientBalance,
    /// The sender's proof did not hold.
    FakeDetected,
}

/// The stable coin.
pub struct MegaStablePi {
    pub admin: Address,
    pub peg: i128,
    pub balances: Registry<i128>,
    pub proofs: Registry<Vec<u8>>,
}

/// The balance of `holder` in `book`; zero for a holder without entry.
pub open spec fn balance_of(book: Map<Address, i128>, holder: Address) -> int {
    if book.dom().contains(holder) {
        book[holder] as int
    } else {
        0
    }
}

/// The balances after `amount` went from `from` to `to`: first taken, then
/// given, so that sending to oneself changes nothing.
pub open spec fn spec_moved(book: Map<Address, i128>, from: Address, to: Address, amount: int)
    -> Map<Address, i128> {
    let taken = book.insert(from, (balance_of(book, from) - amount) as i128);
    taken.insert(to, (balance_of(taken, to) + amount) as i128)
}

pub open spec fn fits_i128(v: int) -> bool {
    i128::MIN <= v <= i128::MAX
}

/// What a mint is refused for, if it is refused: a price off the peg.
pub open spec fn spec_mint_refusal(current_price: i128) -> Option<StableError> {
    if current_price != PEG_PRICE {
        Some(StableError::PegViolated)
    } else {
        None
    }
}

/// What a transfer is refused for, if it is refused: too small a balance
/// first, then a proof that did not hold.
pub open spec fn spec_transfer_refusal(
    book: Map<Address, i128>,
    from: Address,
    amount: int,
    proof_valid: bool,
) -> Option<StableError> {
    if balance_of(book, from) < amount {
        Some(StableError::InsufficientBalance)
    } else if !proof_valid {
        Some(StableError::FakeDetected)
    } else {
        None
    }
}

/// Whether `amount` can go from `from` to `to` within 128 bits: what is left
/// fits, and so does what the receiver then holds.
pub open spec fn spec_transfer_fits(book: Map<Address, i128>, from: Address, to: Address, amount: int)
    -> bool {
    &&& fits_i128(balance_of(book, from) - amount)
    &&& fits_i128(
        balance_of(book.insert(from, (balance_of(book, from) - amount) as i128), to) + amount,
    )
}

impl MegaStablePi {
    /// The books are consistent.
    pub open spec fn wf(&self) -> bool {
        self.balances.wf() && self.proofs.wf()
    }

    /// A coin without holders, pegged at `peg_value`.
    pub fn initialize(admin: Address, peg_value: i128) -> (coin: MegaStablePi)
        ensures
            coin.wf(),
            coin.admin == admin,
            coin.peg == peg_value,
            coin.balances@ =~= Map::<Address, i128>::empty(),
            coin.proofs@ =~= Map::<Address, Vec<u8>>::empty(),
    {
        MegaStablePi { admin, peg: peg_value, balances: Registry::new(), proofs: Registry::new() }
    }

    /// The balance of `address`.
    pub fn get_balance(&self, address: Address) -> (balance: i128)
        requires
            self.wf(),
        ensures
            balance == balance_of(self.balances@, address),
    {
        match self.balances.get(address) {
            Some(balance) => *balance,
            None => 0,
        }
    }

    /// Whether a mint at `current_price` would be refused, and why.
    pub fn check_mint(current_price: i128) -> (refusal: Option<StableError>)
        ensures
            refusal == spec_mint_refusal(current_price),
    {
        if current_price != PEG_PRICE {
            Some(StableError::PegViolated)
        } else {
            None
        }
    }

    /// Whether the balance of `to` has room for `amount` more.
    pub fn room_for_mint(&self, to: Address, amount: i128) -> (yes: bool)
        requires
            self.wf(),
        ensures
            yes == fits_i128(balance_of(self.balances@, to) + amount),
    {
        self.get_balance(to).checked_add(amount).is_some()
    }

    /// Mints `amount` to `to`, and keeps `proof`, the proof issued for this
    /// mint, as the proof of `to`. The oracle's price, `current_price`, must
    /// be at the peg: [`MegaStablePi::check_mint`] tells.
    pub fn mint_stable_pi(&mut self, to: Address, amount: i128, current_price: i128, proof: Vec<u8>)
        requires
            old(self).wf(),
            spec_mint_refusal(current_price) is None,
            fits_i128(balance_of(old(self).balances@, to) + amount),
        ensures
            final(self).wf(),
            final(self).admin == old(self).admin,
            final(self).peg == old(self).peg,
            final(self).balances@ == old(self).balances@.insert(
                to,
                (balance_of(old(self).balances@, to) + amount) as i128,
            ),
            final(self).proofs@ == old(self).proofs@.insert(to, proof),
    {
        let balance = self.get_balance(to);
        self.balances.set(to, balance + amount);
        self.proofs.set(to, proof);
    }

    /// The proof that was kept for `holder`, if one was.
    pub fn proof_of(&self, holder: Address) -> (kept: Option<&Vec<u8>>)
        requires
            self.wf(),
        ensures
            match kept {
                Some(p) => self.proofs@.dom().contains(holder) && *p == self.proofs@[holder],
                None => !self.proofs@.dom().contains(holder),
            },
    {
        self.proofs.get(holder)
    }

    /// Whether sending `amount` from `from` would be refused, and why.
    /// `proof_valid` is the verdict on the proof of `from`.
    pub fn check_transfer(&self, from: Address, amount: i128, proof_valid: bool) -> (refusal: Option<
        StableError,
    >)
        requires
            self.wf(),
        ensures
            refusal == spec_transfer_refusal(self.balances@, from, amount as int, proof_valid),
    {
        if self.get_balance(from) < amount {
            Some(StableError::InsufficientBalance)
        } else if !proof_valid {
            Some(StableError::FakeDetected)
        } else {
            None
        }
    }

    /// Whether `amount` can go from `from` to `to` within 128 bits.
    pub fn room_for_transfer(&self, from: Address, to: Address, amount: i128) -> (yes: bool)
        requires
            self.wf(),
        ensures
            yes == spec_transfer_fits(self.balances@, from, to, amount as int),
    {
        let left = match self.get_balance(from).checked_sub(amount) {
            Some(left) => left,
            None => {
                return false;
            },
        };
        let held = if from == to {
            left
        } else {
            self.get_balance(to)
        };
        held.checked_add(amount).is_some()
    }

    /// Sends `amount` from `from` to `to`. `proof_valid` is the verdict on
    /// the proof of `from`. The transfer must be one that
    /// [`MegaStablePi::check_transfer`] does not refuse.
    pub fn transfer_stable_pi(&mut self, from: Address, to: Address, amount: i128, proof_valid: bool)
        requires
            old(self).wf(),
            spec_transfer_refusal(old(self).balances@, from, amount as int, proof_valid) is None,
            spec_transfer_fits(old(self).balances@, from, to, amount as int),
        ensures
            final(self).wf(),
            final(self).admin == old(self).admin,
            final(self).peg == old(self).peg,
            final(self).proofs@ == old(self).proofs@,
            final(self).balances@ == spec_moved(old(self).balances@, from, to, amount as int),
    {
        let balance = self.get_balance(from);
        self.balances.set(from, balance - amount);
        let received = self.get_balance(to);
        self.balances.set(to, received + amount);
    }
}

} // verus!
