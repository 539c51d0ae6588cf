//! Who owns which part of the pool.
//!
//! The ledger keeps one entry for every account that holds shares and none
//! for an account that holds nothing: an entry whose count reaches zero is
//! removed. The counts of all entries add up to the total.

use vstd::prelude::*;
use vstd::arithmetic::div_mod::lemma_div_is_ordered;
use vstd::arithmetic::div_mod::lemma_div_multiples_vanish;
use vstd::arithmetic::div_mod::lemma_fundamental_div_mod;
use vstd::arithmetic::mul::lemma_mul_inequality;
use crate::address::AccountId;
use crate::dex::error::PoolError;
use crate::dex::math::mul_div;
use crate::dex::math::spec_mul_div;
use crate::dex::reserves::Balances;
use crate::dex::reserves::ReservePair;
use crate::dex::sums::lemma_sum_after_insert;
use crate::dex::sums::lemma_sum_of_none;
use crate::dex::sums::map_sum;

verus! {

/// One line of the ledger.
#[derive(Clone, Copy, Debug, PartialEq, Eq, Structural)]
pub struct ShareEntry {
    pub account: AccountId,
    pub shares: u128,
}

/// What a deposit earned: the shares issued for it and, for each asset, the
/// part of the deposit that those shares stand for. What a caller paid above
/// that part stays in the pool.
#[derive(Clone, Copy, Debug, PartialEq, Eq, Structural)]
pub struct MintReceipt {
    pub shares_minted: u128,
    pub amount_used_a: u128,
    pub amount_used_b: u128,
}

/// A [`MintReceipt`] as mathematical integers.
pub struct Minted {
    pub shares: nat,
    pub used_a: nat,
    pub used_b: nat,
}

impl View for MintReceipt {
    type V = Minted;

    open spec fn view(&self) -> Minted {
        Minted {
            shares: self.shares_minted as nat,
            used_a: self.amount_used_a as nat,
            used_b: self.amount_used_b as nat,
        }
    }
}

/// The ledger of liquidity shares.
pub struct ShareLedger {
    entries: Vec<ShareEntry>,
    total_shares: u128,
}

/// Whether some line of `s` belongs to `account`.
pub open spec fn listed(s: Seq<ShareEntry>, account: AccountId) -> bool {
    exists|i: int| 0 <= i < s.len() && (#[trigger] s[i]).account == account
}

/// The line of `account` in `s`.
pub open spec fn position(s: Seq<ShareEntry>, account: AccountId) -> int {
    choose|i: int| 0 <= i < s.len() && (#[trigger] s[i]).account == account
}

/// No account has two lines.
pub open spec fn distinct(s: Seq<ShareEntry>) -> bool {
    forall|i: int, j: int|
        0 <= i < j < s.len() ==> (#[trigger] s[i]).account != (#[trigger] s[j]).account
}

/// No line is empty.
pub open spec fn positive(s: Seq<ShareEntry>) -> bool {
    forall|i: int| 0 <= i < s.len() ==> (#[trigger] s[i]).shares > 0
}

/// The shares of all lines together.
pub open spec fn seq_sum(s: Seq<ShareEntry>) -> nat
    decreases s.len(),
{
    if s.len() == 0 {
        0
    } else {
        seq_sum(s.drop_last()) + s.last().shares as nat
    }
}

/// The lines as a map from account to share count.
pub open spec fn as_map(s: Seq<ShareEntry>) -> Map<AccountId, nat> {
    Map::new(|a: AccountId| listed(s, a), |a: AccountId| s[position(s, a)].shares as nat)
}

/// The shares of `account` in `m`; zero for an account without entry.
pub open spec fn balance(m: Map<AccountId, nat>, account: AccountId) -> nat {
    if m.dom().contains(account) {
        m[account]
    } else {
        0
    }
}

/// The map after `shares` are added to `account`.
pub open spec fn credited(m: Map<AccountId, nat>, account: AccountId, shares: nat) -> Map<
    AccountId,
    nat,
> {
    if shares == 0 {
        m
    } else {
        m.insert(account, balance(m, account) + shares)
    }
}

/// The map after `shares` are taken from `account`, which holds as many. An
/// entry that reaches zero leaves the map.
pub open spec fn debited(m: Map<AccountId, nat>, account: AccountId, shares: nat) -> Map<
    AccountId,
    nat,
>
    recommends
        shares <= balance(m, account),
{
    if shares == 0 {
        m
    } else if balance(m, account) == shares {
        m.remove(account)
    } else {
        m.insert(account, (balance(m, account) - shares) as nat)
    }
}

/// The shares that a deposit of `(amount_a, amount_b)` earns while the pool
/// holds `reserves` against `total` shares.
///
/// The first deposit defines the unit: it earns `amount_a` shares and must
/// bring both assets. Later deposits earn the smaller of the two proportional
/// counts, so that a skewed deposit earns no more than its scarcer side.
pub open spec fn spec_quote_mint(amount_a: nat, amount_b: nat, reserves: Balances, total: nat)
    -> Result<Minted, PoolError> {
    if total == 0 {
        if amount_a == 0 || amount_b == 0 {
            Err(PoolError::PoolEmpty)
        } else {
            Ok(Minted { shares: amount_a, used_a: amount_a, used_b: amount_b })
        }
    } else {
        match spec_mul_div(amount_a, total, reserves.a) {
            Err(e) => Err(e),
            Ok(by_a) => match spec_mul_div(amount_b, total, reserves.b) {
                Err(e) => Err(e),
                Ok(by_b) => {
                    let shares = if by_a <= by_b {
                        by_a
                    } else {
                        by_b
                    };
                    if total + shares > u128::MAX {
                        Err(PoolError::ArithmeticOverflow)
                    } else {
                        Ok(
                            Minted {
                                shares,
                                used_a: (shares * reserves.a) / total,
                                used_b: (shares * reserves.b) / total,
                            },
                        )
                    }
                },
            },
        }
    }
}

/// What redeeming `share_amount` shares pays out to an account that holds
/// `held` of the `total` shares.
pub open spec fn spec_quote_burn(held: nat, share_amount: nat, reserves: Balances, total: nat)
    -> Result<(nat, nat), PoolError> {
    if total == 0 {
        Err(PoolError::PoolEmpty)
    } else if share_amount > held {
        Err(PoolError::InsufficientShares)
    } else {
        Ok(((share_amount * reserves.a) / total, (share_amount * reserves.b) / total))
    }
}

pub proof fn lemma_position(s: Seq<ShareEntry>, i: int)
    requires
        distinct(s),
        0 <= i < s.len(),
    ensures
        listed(s, s[i].account),
        position(s, s[i].account) == i,
        as_map(s).dom().contains(s[i].account),
        as_map(s)[s[i].account] == s[i].shares,
{
    let a = s[i].account;
    assert(listed(s, a));
    let p = position(s, a);
    assert(0 <= p < s.len() && s[p].account == a);
    if p < i {
        assert(s[p].account != s[i].account);
    } else if i < p {
        assert(s[i].account != s[p].account);
    }
}

pub proof fn lemma_sum_bounds_each(s: Seq<ShareEntry>, i: int)
    requires
        0 <= i < s.len(),
    ensures
        s[i].shares <= seq_sum(s),
    decreases s.len(),
{
    if i < s.len() - 1 {
        lemma_sum_bounds_each(s.drop_last(), i);
    }
}

/// The lines up to `n` add up to no more than all lines, and one line more
/// adds its shares.
pub proof fn lemma_sum_prefix(s: Seq<ShareEntry>, n: int)
    requires
        0 <= n <= s.len(),
    ensures
        seq_sum(s.take(n)) <= seq_sum(s),
        n < s.len() ==> seq_sum(s.take(n + 1)) == seq_sum(s.take(n)) + s[n].shares,
    decreases s.len() - n,
{
    if n < s.len() {
        assert(s.take(n + 1).drop_last() =~= s.take(n));
        lemma_sum_prefix(s, n + 1);
    } else {
        assert(s.take(n) =~= s);
    }
}

proof fn lemma_sum_update(s: Seq<ShareEntry>, i: int, e: ShareEntry)
    requires
        0 <= i < s.len(),
    ensures
        seq_sum(s.update(i, e)) == seq_sum(s) - s[i].shares + e.shares,
    decreases s.len(),
{
    let t = s.update(i, e);
    if i == s.len() - 1 {
        assert(t.drop_last() =~= s.drop_last());
    } else {
        assert(t.drop_last() =~= s.drop_last().update(i, e));
        lemma_sum_update(s.drop_last(), i, e);
    }
}

proof fn lemma_sum_remove(s: Seq<ShareEntry>, i: int)
    requires
        0 <= i < s.len(),
    ensures
        seq_sum(s.remove(i)) == seq_sum(s) - s[i].shares,
    decreases s.len(),
{
    let t = s.remove(i);
    if i == s.len() - 1 {
        assert(t =~= s.drop_last());
    } else {
        assert(t.drop_last() =~= s.drop_last().remove(i));
        assert(t.last() == s.last());
        lemma_sum_remove(s.drop_last(), i);
    }
}

proof fn lemma_update_entry(s: Seq<ShareEntry>, i: int, e: ShareEntry)
    requires
        distinct(s),
        0 <= i < s.len(),
        e.account == s[i].account,
    ensures
        distinct(s.update(i, e)),
        as_map(s.update(i, e)) =~= as_map(s).insert(e.account, e.shares as nat),
{
    let t = s.update(i, e);
    assert forall|j: int, k: int| 0 <= j < k < t.len() implies (#[trigger] t[j]).account != (
    #[trigger] t[k]).account by {
        assert(s[j].account != s[k].account);
    }
    assert forall|a: AccountId| listed(t, a) <==> listed(s, a) by {
        if listed(t, a) {
            let j = position(t, a);
            assert(s[j].account == a);
        }
        if listed(s, a) {
            let j = position(s, a);
            assert(t[j].account == a);
        }
    }
    assert forall|a: AccountId| listed(t, a) implies as_map(t)[a] == as_map(s).insert(
        e.account,
        e.shares as nat,
    )[a] by {
        let j = position(t, a);
        lemma_position(t, j);
        if j != i {
            lemma_position(s, j);
        }
    }
}

proof fn lemma_push_entry(s: Seq<ShareEntry>, e: ShareEntry)
    requires
        distinct(s),
        !listed(s, e.account),
    ensures
        distinct(s.push(e)),
        as_map(s.push(e)) =~= as_map(s).insert(e.account, e.shares as nat),
        seq_sum(s.push(e)) == seq_sum(s) + e.shares,
{
    let t = s.push(e);
    assert(t.drop_last() =~= s);
    assert forall|j: int, k: int| 0 <= j < k < t.len() implies (#[trigger] t[j]).account != (
    #[trigger] t[k]).account by {
        if k < s.len() {
            assert(s[j].account != s[k].account);
        } else {
            assert(s[j].account != e.account);
        }
    }
    assert forall|a: AccountId| listed(t, a) <==> (listed(s, a) || a == e.account) by {
        if listed(t, a) {
            let j = position(t, a);
            if j < s.len() {
                assert(s[j].account == a);
            }
        }
        if listed(s, a) {
            let j = position(s, a);
            assert(t[j].account == a);
        }
        if a == e.account {
            assert(t[s.len() as int].account == a);
        }
    }
    assert forall|a: AccountId| listed(t, a) implies as_map(t)[a] == as_map(s).insert(
        e.account,
        e.shares as nat,
    )[a] by {
        let j = position(t, a);
        lemma_position(t, j);
        if j < s.len() {
            lemma_position(s, j);
        }
    }
}

proof fn lemma_remove_entry(s: Seq<ShareEntry>, i: int)
    requires
        distinct(s),
        0 <= i < s.len(),
    ensures
        distinct(s.remove(i)),
        as_map(s.remove(i)) =~= as_map(s).remove(s[i].account),
{
    let t = s.remove(i);
    assert forall|j: int| 0 <= j < t.len() implies #[trigger] t[j] == s[if j < i {
        j
    } else {
        j + 1
    }] by {}
    assert forall|j: int, k: int| 0 <= j < k < t.len() implies (#[trigger] t[j]).account != (
    #[trigger] t[k]).account by {
        let j2 = if j < i {
            j
        } else {
            j + 1
        };
        let k2 = if k < i {
            k
        } else {
            k + 1
        };
        assert(s[j2].account != s[k2].account);
    }
    assert forall|a: AccountId| listed(t, a) <==> (listed(s, a) && a != s[i].account) by {
        if listed(t, a) {
            let j = position(t, a);
            let j2 = if j < i {
                j
            } else {
                j + 1
            };
            assert(s[j2].account == a);
            if j2 < i {
                assert(s[j2].account != s[i].account);
            } else {
                assert(s[i].account != s[j2].account);
            }
        }
        if listed(s, a) && a != s[i].account {
            let j = position(s, a);
            let j2 = if j < i {
                j
            } else {
                j - 1
            };
            assert(t[j2].account == a);
        }
    }
    assert forall|a: AccountId| listed(t, a) implies as_map(t)[a] == as_map(s).remove(
        s[i].account,
    )[a] by {
        let j = position(t, a);
        lemma_position(t, j);
        let j2 = if j < i {
            j
        } else {
            j + 1
        };
        lemma_position(s, j2);
    }
}

/// The lines of a ledger, read as a map, hold finitely many accounts, each
/// with a positive count if the lines are positive, and add up to the same
/// sum.
pub proof fn lemma_map_of_listing(s: Seq<ShareEntry>)
    requires
        distinct(s),
    ensures
        as_map(s).dom().finite(),
        map_sum(as_map(s)) == seq_sum(s),
        positive(s) ==> forall|a: AccountId| as_map(s).dom().contains(a) ==> as_map(s)[a] > 0,
    decreases s.len(),
{
    if s.len() == 0 {
        assert(as_map(s) =~= Map::<AccountId, nat>::empty());
        lemma_sum_of_none();
    } else {
        let earlier = s.drop_last();
        let e = s.last();
        assert(earlier.push(e) =~= s);
        assert(distinct(earlier)) by {
            assert forall|i: int, j: int| 0 <= i < j < earlier.len() implies (
            #[trigger] earlier[i]).account != (#[trigger] earlier[j]).account by {
                assert(s[i].account != s[j].account);
            }
        }
        assert(!listed(earlier, e.account)) by {
            if listed(earlier, e.account) {
                let i = position(earlier, e.account);
                assert(s[i].account != s[s.len() - 1].account);
            }
        }
        lemma_map_of_listing(earlier);
        lemma_push_entry(earlier, e);
        lemma_sum_after_insert(as_map(earlier), e.account, e.shares as nat);
        if positive(s) {
            assert(positive(earlier)) by {
                assert forall|i: int| 0 <= i < earlier.len() implies (#[trigger] earlier[i]).shares
                    > 0 by {
                    assert(s[i].shares > 0);
                }
            }
            assert(e.shares > 0);
        }
    }
}

/// A proportional part of a quantity is no more than the quantity:
/// `part * whole_amount / whole <= whole_amount` when `part <= whole`.
pub proof fn lemma_part_is_bounded(part: nat, amount: nat, whole: nat)
    requires
        0 < whole,
        part <= whole,
    ensures
        (part * amount) / whole <= amount,
{
    lemma_mul_inequality(part as int, whole as int, amount as int);
    lemma_div_is_ordered((part * amount) as int, (whole * amount) as int, whole as int);
    lemma_div_multiples_vanish(amount as int, whole as int);
}

/// Shares earned for an amount stand for no more than that amount:
/// with `shares <= amount * total / reserve`, `shares * reserve / total <= amount`.
pub proof fn lemma_used_is_bounded(shares: nat, amount: nat, reserve: nat, total: nat)
    requires
        0 < total,
        0 < reserve,
        shares <= (amount * total) / reserve,
    ensures
        (shares * reserve) / total <= amount,
{
    let earned = (amount * total) / reserve;
    lemma_fundamental_div_mod((amount * total) as int, reserve as int);
    assert(reserve * earned <= amount * total);
    lemma_mul_inequality(shares as int, earned as int, reserve as int);
    assert(shares * reserve <= earned * reserve);
    assert(earned * reserve == reserve * earned) by (nonlinear_arith);
    assert(amount * total == total * amount) by (nonlinear_arith);
    lemma_div_is_ordered((shares * reserve) as int, (total * amount) as int, total as int);
    lemma_div_multiples_vanish(amount as int, total as int);
}

impl View for ShareLedger {
    type V = Map<AccountId, nat>;

    /// The share count of every account that holds shares.
    open spec fn view(&self) -> Map<AccountId, nat> {
        as_map(self.listing())
    }
}

impl ShareLedger {
    /// The lines of the ledger, in the order in which they are kept.
    pub closed spec fn listing(&self) -> Seq<ShareEntry> {
        self.entries@
    }

    /// The number of shares issued and not redeemed.
    pub closed spec fn total(&self) -> nat {
        self.total_shares as nat
    }

    /// The ledger is consistent: one line per holder, no empty line, and the
    /// lines add up to the total.
    pub open spec fn wf(&self) -> bool {
        &&& distinct(self.listing())
        &&& positive(self.listing())
        &&& seq_sum(self.listing()) == self.total()
    }

    /// In a consistent ledger the counts of all accounts add up to the
    /// total, and every account in the map holds something.
    pub proof fn lemma_shares_add_up(&self)
        requires
            self.wf(),
        ensures
            self@.dom().finite(),
            map_sum(self@) == self.total(),
            forall|a: AccountId| self@.dom().contains(a) ==> self@[a] > 0,
            self.total() <= u128::MAX,
    {
        lemma_map_of_listing(self.listing());
    }

    /// In a consistent ledger nobody holds more than the total, and every
    /// account in the map holds something.
    pub proof fn lemma_balance_within_total(&self, account: AccountId)
        requires
            self.wf(),
        ensures
            balance(self@, account) <= self.total(),
            self@.dom().contains(account) ==> self@[account] > 0,
            self.total() <= u128::MAX,
    {
        if listed(self.listing(), account) {
            let i = position(self.listing(), account);
            lemma_position(self.listing(), i);
            lemma_sum_bounds_each(self.listing(), i);
        }
    }

    /// A ledger without holders.
    pub fn new() -> (ledger: ShareLedger)
        ensures
            ledger.wf(),
            ledger@ =~= Map::<AccountId, nat>::empty(),
            ledger.total() == 0,
    {
        ShareLedger { entries: Vec::new(), total_shares: 0 }
    }

    /// The number of shares issued and not redeemed.
    pub fn total_shares(&self) -> (total: u128)
        ensures
            total == self.total(),
    {
        self.total_shares
    }

    fn find(&self, account: AccountId) -> (at: Option<usize>)
        ensures
            match at {
                Some(i) => i < self.listing().len() && self.listing()[i as int].account == account,
                None => !listed(self.listing(), account),
            },
    {
        let mut i: usize = 0;
        while i < self.entries.len()
            invariant
                i <= self.entries.len(),
                forall|j: int| 0 <= j < i ==> (#[trigger] self.entries@[j]).account != account,
            decreases self.entries.len() - i,
        {
            if self.entries[i].account == account {
                return Some(i);
            }
            i = i + 1;
        }
        None
    }

    /// The shares that `account` holds; zero if it holds none.
    pub fn balance_of(&self, account: AccountId) -> (shares: u128)
        requires
            self.wf(),
        ensures
            shares == balance(self@, account),
    {
        match self.find(account) {
            Some(i) => {
                proof {
                    lemma_position(self.listing(), i as int);
                }
                self.entries[i].shares
            },
            None => 0,
        }
    }

    /// The lines of the ledger, for a caller that stores them.
    pub fn entries(&self) -> (lines: Vec<ShareEntry>)
        ensures
            lines@ == self.listing(),
    {
        let mut lines: Vec<ShareEntry> = Vec::new();
        let mut i: usize = 0;
        while i < self.entries.len()
            invariant
                i <= self.entries.len(),
                lines@ == self.entries@.take(i as int),
            decreases self.entries.len() - i,
        {
            lines.push(self.entries[i]);
            assert(lines@ =~= self.entries@.take(i + 1));
            i = i + 1;
        }
        assert(self.entries@.take(i as int) =~= self.entries@);
        lines
    }

    /// A ledger with the given lines, if they make a consistent ledger: no
    /// account twice, no empty line, and a total within 128 bits.
    pub fn from_entries(lines: Vec<ShareEntry>) -> (r: Option<ShareLedger>)
        ensures
            match r {
                Some(ledger) => ledger.wf() && ledger.listing() == lines@,
                None => !(distinct(lines@) && positive(lines@) && seq_sum(lines@) <= u128::MAX),
            },
    {
        let mut total: u128 = 0;
        let mut i: usize = 0;
        while i < lines.len()
            invariant
                i <= lines.len(),
                distinct(lines@.take(i as int)),
                positive(lines@.take(i as int)),
                seq_sum(lines@.take(i as int)) == total,
            decreases lines.len() - i,
        {
            let line = lines[i];
            if line.shares == 0 {
                return None;
            }
            let mut j: usize = 0;
            while j < i
                invariant
                    j <= i,
                    i < lines.len(),
                    line == lines@[i as int],
                    forall|k: int| 0 <= k < j ==> (#[trigger] lines@[k]).account != line.account,
                decreases i - j,
            {
                if lines[j].account == line.account {
                    return None;
                }
                j = j + 1;
            }
            proof {
                lemma_sum_prefix(lines@, i as int);
            }
            total = match total.checked_add(line.shares) {
                Some(sum) => sum,
                None => {
                    proof {
                        lemma_sum_prefix(lines@, i + 1);
                    }
                    return None;
                },
            };
            proof {
                let longer = lines@.take(i + 1);
                assert forall|a: int, b: int| 0 <= a < b < longer.len() implies (
                #[trigger] longer[a]).account != (#[trigger] longer[b]).account by {
                    if b < i {
                        assert(lines@.take(i as int)[a].account != lines@.take(i as int)[b].account);
                    } else {
                        assert(lines@[a].account != line.account);
                    }
                }
                assert forall|a: int| 0 <= a < longer.len() implies (#[trigger] longer[a]).shares
                    > 0 by {
                    if a < i {
                        assert(lines@.take(i as int)[a].shares > 0);
                    }
                }
            }
            i = i + 1;
        }
        assert(lines@.take(i as int) =~= lines@);
        Some(ShareLedger { entries: lines, total_shares: total })
    }

    /// What [`ShareLedger::mint`] would issue, without issuing it.
    pub fn quote_mint(&self, amount_a: u128, amount_b: u128, reserves_before: &ReservePair) -> (r:
        Result<MintReceipt, PoolError>)
        ensures
            match spec_quote_mint(amount_a as nat, amount_b as nat, reserves_before@, self.total()) {
                Ok(m) => r is Ok && r->Ok_0@ == m,
                Err(e) => r == Err::<MintReceipt, PoolError>(e),
            },
    {
        let total = self.total_shares;
        if total == 0 {
            if amount_a == 0 || amount_b == 0 {
                return Err(PoolError::PoolEmpty);
            }
            return Ok(
                MintReceipt {
                    shares_minted: amount_a,
                    amount_used_a: amount_a,
                    amount_used_b: amount_b,
                },
            );
        }
        let by_a = match mul_div(amount_a, total, reserves_before.reserve_a) {
            Ok(v) => v,
            Err(e) => {
                return Err(e);
            },
        };
        let by_b = match mul_div(amount_b, total, reserves_before.reserve_b) {
            Ok(v) => v,
            Err(e) => {
                return Err(e);
            },
        };
        let shares = if by_a <= by_b {
            by_a
        } else {
            by_b
        };
        if shares > u128::MAX - total {
            return Err(PoolError::ArithmeticOverflow);
        }
        proof {
            lemma_used_is_bounded(
                shares as nat,
                amount_a as nat,
                reserves_before.reserve_a as nat,
                total as nat,
            );
            lemma_used_is_bounded(
                shares as nat,
                amount_b as nat,
                reserves_before.reserve_b as nat,
                total as nat,
            );
        }
        let used_a = match mul_div(shares, reserves_before.reserve_a, total) {
            Ok(v) => v,
            Err(e) => {
                return Err(e);
            },
        };
        let used_b = match mul_div(shares, reserves_before.reserve_b, total) {
            Ok(v) => v,
            Err(e) => {
                return Err(e);
            },
        };
        Ok(MintReceipt { shares_minted: shares, amount_used_a: used_a, amount_used_b: used_b })
    }

    fn credit(&mut self, account: AccountId, shares: u128)
        requires
            old(self).wf(),
            shares > 0,
            old(self).total() + shares <= u128::MAX,
        ensures
            final(self).wf(),
            final(self)@ == credited(old(self)@, account, shares as nat),
            final(self).total() == old(self).total() + shares,
    {
        match self.find(account) {
            Some(i) => {
                let held = self.entries[i].shares;
                proof {
                    lemma_position(self.listing(), i as int);
                    lemma_sum_bounds_each(self.listing(), i as int);
                    lemma_update_entry(
                        self.listing(),
                        i as int,
                        ShareEntry { account, shares: (held + shares) as u128 },
                    );
                    lemma_sum_update(
                        self.listing(),
                        i as int,
                        ShareEntry { account, shares: (held + shares) as u128 },
                    );
                }
                self.entries.set(i, ShareEntry { account, shares: held + shares });
            },
            None => {
                proof {
                    lemma_push_entry(self.listing(), ShareEntry { account, shares });
                }
                self.entries.push(ShareEntry { account, shares });
            },
        }
        self.total_shares = self.total_shares + shares;
    }

    fn debit(&mut self, account: AccountId, shares: u128)
        requires
            old(self).wf(),
            shares > 0,
            shares <= balance(old(self)@, account),
        ensures
            final(self).wf(),
            final(self)@ == debited(old(self)@, account, shares as nat),
            final(self).total() == old(self).total() - shares,
    {
        match self.find(account) {
            Some(i) => {
                let held = self.entries[i].shares;
                proof {
                    lemma_position(self.listing(), i as int);
                    lemma_sum_bounds_each(self.listing(), i as int);
                }
                if held == shares {
                    proof {
                        lemma_remove_entry(self.listing(), i as int);
                        lemma_sum_remove(self.listing(), i as int);
                    }
                    let _ = self.entries.remove(i);
                } else {
                    proof {
                        lemma_update_entry(
                            self.listing(),
                            i as int,
                            ShareEntry { account, shares: (held - shares) as u128 },
                        );
                        lemma_sum_update(
                            self.listing(),
                            i as int,
                            ShareEntry { account, shares: (held - shares) as u128 },
                        );
                    }
                    self.entries.set(i, ShareEntry { account, shares: held - shares });
                }
                self.total_shares = self.total_shares - shares;
            },
            None => {
                assert(false);
            },
        }
    }

    /// Issues shares to `account` for a deposit of `(amount_a, amount_b)` made
    /// while the pool held `reserves_before`. Nothing is written on failure.
    pub fn mint(
        &mut self,
        account: AccountId,
        amount_a: u128,
        amount_b: u128,
        reserves_before: &ReservePair,
    ) -> (r: Result<MintReceipt, PoolError>)
        requires
            old(self).wf(),
        ensures
            final(self).wf(),
            match spec_quote_mint(
                amount_a as nat,
                amount_b as nat,
                reserves_before@,
                old(self).total(),
            ) {
                Ok(m) => {
                    &&& r is Ok
                    &&& r->Ok_0@ == m
                    &&& final(self)@ == credited(old(self)@, account, m.shares)
                    &&& final(self).total() == old(self).total() + m.shares
                },
                Err(e) => r == Err::<MintReceipt, PoolError>(e) && *final(self) == *old(self),
            },
    {
        let receipt = match self.quote_mint(amount_a, amount_b, reserves_before) {
            Ok(receipt) => receipt,
            Err(e) => {
                return Err(e);
            },
        };
        if receipt.shares_minted > 0 {
            self.credit(account, receipt.shares_minted);
        }
        Ok(receipt)
    }

    /// What [`ShareLedger::burn`] would pay out, without redeeming anything.
    pub fn quote_burn(&self, account: AccountId, share_amount: u128, reserves: &ReservePair) -> (r:
        Result<(u128, u128), PoolError>)
        requires
            self.wf(),
        ensures
            match spec_quote_burn(
                balance(self@, account),
                share_amount as nat,
                reserves@,
                self.total(),
            ) {
                Ok(out) => r is Ok && r->Ok_0.0 == out.0 && r->Ok_0.1 == out.1,
                Err(e) => r == Err::<(u128, u128), PoolError>(e),
            },
    {
        let total = self.total_shares;
        if total == 0 {
            return Err(PoolError::PoolEmpty);
        }
        let held = self.balance_of(account);
        if share_amount > held {
            return Err(PoolError::InsufficientShares);
        }
        proof {
            self.lemma_balance_within_total(account);
            lemma_part_is_bounded(share_amount as nat, reserves.reserve_a as nat, total as nat);
            lemma_part_is_bounded(share_amount as nat, reserves.reserve_b as nat, total as nat);
        }
        let out_a = match mul_div(share_amount, reserves.reserve_a, total) {
            Ok(v) => v,
            Err(e) => {
                return Err(e);
            },
        };
        let out_b = match mul_div(share_amount, reserves.reserve_b, total) {
            Ok(v) => v,
            Err(e) => {
                return Err(e);
            },
        };
        Ok((out_a, out_b))
    }

    /// Redeems `share_amount` shares of `account` against `reserves` and
    /// returns what they pay out of each asset. Nothing is written on failure.
    pub fn burn(&mut self, account: AccountId, share_amount: u128, reserves: &ReservePair) -> (r:
        Result<(u128, u128), PoolError>)
        requires
            old(self).wf(),
        ensures
            final(self).wf(),
            match spec_quote_burn(
                balance(old(self)@, account),
                share_amount as nat,
                reserves@,
                old(self).total(),
            ) {
                Ok(out) => {
                    &&& r is Ok
                    &&& r->Ok_0.0 == out.0
                    &&& r->Ok_0.1 == out.1
                    &&& final(self)@ == debited(old(self)@, account, share_amount as nat)
                    &&& final(self).total() == old(self).total() - share_amount
                },
                Err(e) => r == Err::<(u128, u128), PoolError>(e) && *final(self) == *old(self),
            },
    {
        let out = match self.quote_burn(account, share_amount, reserves) {
            Ok(out) => out,
            Err(e) => {
                return Err(e);
            },
        };
        if share_amount > 0 {
            self.debit(account, share_amount);
        }
        Ok(out)
    }
}

} // verus!
