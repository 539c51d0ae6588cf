//! The Pi Coin: minting under a supply cap and a peg, and transfer of coins.
//!
//! A coin is known by its identifier, the SHA3-512 digest of a text that
//! names the coin followed by the digits of π. What the price oracle and the
//! proof service say comes from outside and is handed in.

use vstd::prelude::*;
use vstd::utf8::encode_utf8;
use num_bigint::BigUint;
use sha3::Digest;
use sha3::Sha3_512;
use crate::address::Address;

verus! {

/// The largest supply, in whole coins.
pub const SUPPLY_CAP: u64 = 100_000_000_000;

/// The value of one coin in dollars, and the only price at which coins are
/// minted.
pub const PI_VALUE: u64 = 314_159;

/// The digits of π that go into every coin identifier, without the point.
pub const PI_DIGITS: &'static str = "3141592653589793238462643383279502884197169399375105820974944592307816406286208998628034825342117067982148086513282306647093844609550582231725359408128481117450284102701938521105559644622948954930381964428810975665933446128475648233786783165271201909145648566923460348610454326648213393607260249141273724587006606315588174881520920962829254091715364367892590360011330530548820466521384146951941511609433057270365759591953092186117381932611793105118548074462379962749567351885752724891227938183011949129833673362440656643086021394946395224737190702179860943702770539217176293176752384674818467669405132000568127145263560827785771342757789609173637178721468440901224953430146549585371050792279689258923542019956112129021960864034418159813629774771309960518707211349999998372978049951059731732816096318595024459455346908302642522308253344685035261931188171010003137838752886587533208381420617177669147303598253490428755468731159562863882353787593751957781857780532171226806613001927876611195909216420198938095257201065485863278865936153381827968230301952035301852968995773622599413891249721775283479131515574857242454150695950829533116861727855889075098381754637464939319255060400927701671139009848824012858361603563707660104710181942955596198946767837449448255379774726847104047534646208046684259069491293313677028989152104752162056966024058038150193511253382430035587640247496473263914199272604269922796782354781636009341721641219924586315030286182974555706749838505494588586926995690927210797509302955321165344987202755960236303847296645274069295412268540516664502937940327502163952879026353791039945603459639219691038342095901346051401385941741075285584479456556579502120321850412960351963695764486909662645103633893037975358649274716586053548724135246641586864284904834110150330873758218676303536951027225095359112572036279960545856969440776644827568192077159353029533148198891722699716303550764725715607856584295302262055849092220485491695671685403967517855802783489161537966444118938196283229039073890771294629224514499740713789698947840586790275131833791756827555318965991342335387630314498222202369116663602628212652997560323684256314697192814810756775807275025871276473171215722106446142168875549106949584096515920725904846140582988380928305963087290774464150465441561640625";

/// Why the coin contract refuses a mint or a transfer.
#[derive(Clone, Copy, Debug, PartialEq, Eq, Structural)]
pub enum CoinError {
    /// The mint would pass the supply cap.
    SupplyCapExceeded,
    /// The source of the coin is not among the allowed ones.
    InvalidSource,
    /// The price is off the peg.
    PegViolated,
    /// No coin has this identifier.
    UnknownCoin,
    /// The sender does not own the coin, or the coin holds less.
    InvalidTransfer,
    /// The proof of the coin did not hold.
    FakeCoin,
}

/// A coin.
pub struct PiCoin {
    pub amount: u64,
    pub owner: Address,
    pub source: String,
    pub verified: bool,
    /// The proof of uniqueness that the proof service issued for the coin.
    pub proof: Vec<u8>,
}

/// A coin under its identifier.
pub struct CoinRecord {
    pub id: [u8; 64],
    pub coin: PiCoin,
}

/// The coin contract.
pub struct PiCoinContract {
    pub total_supply: u64,
    pub pi_value: u64,
    pub allowed_sources: Vec<String>,
    pub current_supply: u64,
    /// The coins, each identifier once.
    pub coins: Vec<CoinRecord>,
}

/// The SHA3-512 digest of a byte string, 64 bytes long.
pub uninterp spec fn sha3_512_digest(input: Seq<u8>) -> Seq<u8>;

/// Whether `text` is a decimal numeral as it is printed: one digit or more,
/// and no leading zero before further digits.
pub open spec fn is_decimal_numeral(text: Seq<char>) -> bool {
    &&& text.len() > 0
    &&& forall|i: int| 0 <= i < text.len() ==> '0' <= #[trigger] text[i] <= '9'
    &&& text.len() > 1 ==> text[0] != '0'
}

/// `sha3::Sha3_512::digest`: the digest of `input`. The contract names the
/// digest; it claims nothing of its bytes.
#[verifier::external_body]
fn sha3_512(input: &[u8]) -> (digest: [u8; 64])
    ensures
        digest@ == sha3_512_digest(input@),
{
    Sha3_512::digest(input).into()
}

/// `num_bigint::BigUint::parse_bytes` in radix ten, and `to_string` of the
/// number it gives. A numeral of decimal digits always parses, and a number
/// prints as its digits without leading zeros: a numeral that has none comes
/// back as it went in. Other texts are left out: some of them do not parse.
#[verifier::external_body]
fn reprint_decimal(numeral: &str) -> (text: String)
    requires
        is_decimal_numeral(numeral@),
    ensures
        text@ == numeral@,
{
    BigUint::parse_bytes(numeral.as_bytes(), 10).unwrap().to_string()
}

/// Whether `text` is a decimal numeral as it is printed.
pub fn is_numeral(text: &str) -> (yes: bool)
    ensures
        yes == is_decimal_numeral(text@),
{
    if !text.is_ascii() {
        proof {
            if is_decimal_numeral(text@) {
                assert forall|i: int| 0 <= i < text@.len() implies '\0' <= #[trigger] text@[i]
                    <= '\u{7f}' by {
                    assert('0' <= text@[i] <= '9');
                }
            }
        }
        return false;
    }
    let n = text.unicode_len();
    if n == 0 {
        return false;
    }
    if n > 1 && text.get_ascii(0) == 48u8 {
        assert(text@[0] == '0');
        return false;
    }
    let mut i: usize = 0;
    while i < n
        invariant
            i <= n,
            n == text@.len(),
            text.is_ascii(),
            forall|k: int| 0 <= k < i ==> '0' <= #[trigger] text@[k] <= '9',
        decreases n - i,
    {
        let b = text.get_ascii(i);
        if b < 48u8 || b > 57u8 {
            assert(!('0' <= text@[i as int] <= '9'));
            return false;
        }
        assert('0' <= text@[i as int] <= '9');
        i = i + 1;
    }
    true
}

/// The digits of π, in high precision, as one numeral without the point.
/// The digits pass through an unbounded integer, which gives them back as
/// they are; `digits` does not shorten them.
pub fn generate_pi_digits(digits: usize) -> (text: String)
    ensures
        text@ == PI_DIGITS@,
{
    if is_numeral(PI_DIGITS) {
        reprint_decimal(PI_DIGITS)
    } else {
        String::from_str(PI_DIGITS)
    }
}

/// The identifier that `data` gets: the SHA3-512 digest of `data` followed
/// by `pi_digits`, both as UTF-8.
pub fn pi_based_hash(data: &str, pi_digits: &str) -> (hash: [u8; 64])
    ensures
        hash@ == sha3_512_digest(encode_utf8(data@ + pi_digits@)),
{
    let mut combined = String::from_str(data);
    combined.append(pi_digits);
    sha3_512(combined.as_str().as_bytes())
}

/// Whether `list` holds `text`.
pub open spec fn spec_holds(list: Seq<String>, text: Seq<char>) -> bool {
    exists|i: int| 0 <= i < list.len() && (#[trigger] list[i])@ == text
}

/// Whether some record of `coins` has the identifier `id`.
pub open spec fn spec_known(coins: Seq<CoinRecord>, id: Seq<u8>) -> bool {
    exists|i: int| 0 <= i < coins.len() && (#[trigger] coins[i]).id@ == id
}

/// The first record of `coins` with the identifier `id`.
pub open spec fn spec_index(coins: Seq<CoinRecord>, id: Seq<u8>) -> int {
    choose|i: int|
        0 <= i < coins.len() && (#[trigger] coins[i]).id@ == id && forall|j: int|
            0 <= j < i ==> (#[trigger] coins[j]).id@ != id
}

/// What a mint is refused for, if it is refused: the cap first, then the
/// source, then the peg.
pub open spec fn spec_mint_refusal(
    contract: PiCoinContract,
    amount: u64,
    source: Seq<char>,
    current_price: u64,
) -> Option<CoinError> {
    if contract.current_supply + amount > contract.total_supply {
        Some(CoinError::SupplyCapExceeded)
    } else if !spec_holds(contract.allowed_sources@, source) {
        Some(CoinError::InvalidSource)
    } else if current_price != PI_VALUE {
        Some(CoinError::PegViolated)
    } else {
        None
    }
}

/// What a transfer is refused for, if it is refused: an unknown coin first,
/// then a wrong owner or too small a coin, then a proof that did not hold.
pub open spec fn spec_transfer_refusal(
    contract: PiCoinContract,
    from: Address,
    amount: u64,
    coin_id: Seq<u8>,
    proof_valid: bool,
) -> Option<CoinError> {
    if !spec_known(contract.coins@, coin_id) {
        Some(CoinError::UnknownCoin)
    } else {
        let coin = contract.coins@[spec_index(contract.coins@, coin_id)].coin;
        if coin.owner != from || coin.amount < amount {
            Some(CoinError::InvalidTransfer)
        } else if !proof_valid {
            Some(CoinError::FakeCoin)
        } else {
            None
        }
    }
}

/// The dollar value of `amount` coins at `pi_value` each; zero if it does
/// not fit in 64 bits.
pub open spec fn spec_usd_value(amount: u64, pi_value: u64) -> u64 {
    if amount * pi_value <= u64::MAX {
        (amount * pi_value) as u64
    } else {
        0
    }
}

fn same_id(x: &[u8; 64], y: &[u8; 64]) -> (same: bool)
    ensures
        same == (x@ == y@),
{
    let mut i: usize = 0;
    while i < 64
        invariant
            i <= 64,
            forall|k: int| 0 <= k < i ==> x@[k] == y@[k],
        decreases 64 - i,
    {
        if x[i] != y[i] {
            return false;
        }
        i = i + 1;
    }
    assert(x@ =~= y@);
    true
}

impl PiCoinContract {
    /// Whether `other` has the cap, the peg and the allowed sources of
    /// `self`.
    pub open spec fn same_rules(&self, other: &PiCoinContract) -> bool {
        &&& self.total_supply == other.total_supply
        &&& self.pi_value == other.pi_value
        &&& self.allowed_sources == other.allowed_sources
    }

    /// A contract without coins, for coins from mining, rewards and
    /// peer-to-peer trade.
    pub fn init() -> (contract: PiCoinContract)
        ensures
            contract.total_supply == SUPPLY_CAP,
            contract.pi_value == PI_VALUE,
            contract.allowed_sources@.len() == 3,
            contract.allowed_sources@[0]@ == "mining"@,
            contract.allowed_sources@[1]@ == "rewards"@,
            contract.allowed_sources@[2]@ == "p2p"@,
            contract.current_supply == 0,
            contract.coins@.len() == 0,
    {
        let mut allowed_sources: Vec<String> = Vec::new();
        allowed_sources.push(String::from_str("mining"));
        allowed_sources.push(String::from_str("rewards"));
        allowed_sources.push(String::from_str("p2p"));
        PiCoinContract {
            total_supply: SUPPLY_CAP,
            pi_value: PI_VALUE,
            allowed_sources,
            current_supply: 0,
            coins: Vec::new(),
        }
    }

    /// Whether coins may come from `source`.
    pub fn is_allowed_source(&self, source: &String) -> (yes: bool)
        ensures
            yes == spec_holds(self.allowed_sources@, source@),
    {
        let mut i: usize = 0;
        while i < self.allowed_sources.len()
            invariant
                i <= self.allowed_sources.len(),
                forall|k: int| 0 <= k < i ==> (#[trigger] self.allowed_sources@[k])@ != source@,
            decreases self.allowed_sources.len() - i,
        {
            if self.allowed_sources[i] == *source {
                return true;
            }
            i = i + 1;
        }
        false
    }

    /// The place of the coin `id` among the records, if it is known.
    pub fn find_coin(&self, id: &[u8; 64]) -> (at: Option<usize>)
        ensures
            match at {
                Some(i) => {
                    &&& i < self.coins@.len()
                    &&& self.coins@[i as int].id@ == id@
                    &&& spec_known(self.coins@, id@)
                    &&& i == spec_index(self.coins@, id@)
                },
                None => !spec_known(self.coins@, id@),
            },
    {
        let mut i: usize = 0;
        while i < self.coins.len()
            invariant
                i <= self.coins.len(),
                forall|k: int| 0 <= k < i ==> (#[trigger] self.coins@[k]).id@ != id@,
            decreases self.coins.len() - i,
        {
            if same_id(&self.coins[i].id, id) {
                let ghost found = i as int;
                assert(0 <= found < self.coins@.len() && self.coins@[found].id@ == id@);
                assert(forall|j: int| 0 <= j < found ==> (#[trigger] self.coins@[j]).id@ != id@);
                let ghost chosen = spec_index(self.coins@, id@);
                assert(chosen == found) by {
                    if chosen < found {
                        assert(self.coins@[chosen].id@ != id@);
                    } else if found < chosen {
                        assert(self.coins@[found].id@ != id@);
                    }
                }
                return Some(i);
            }
            i = i + 1;
        }
        None
    }

    /// The identifier of the coin that `id_data` names.
    pub fn coin_id(id_data: &str) -> (id: [u8; 64])
        ensures
            id@ == sha3_512_digest(encode_utf8(id_data@ + PI_DIGITS@)),
    {
        let pi_digits = generate_pi_digits(100);
        pi_based_hash(id_data, pi_digits.as_str())
    }

    /// Whether a mint of `amount` from `source` at `current_price` would be
    /// refused, and why.
    pub fn check_mint(&self, amount: u64, source: &String, current_price: u64) -> (refusal: Option<
        CoinError,
    >)
        ensures
            refusal == spec_mint_refusal(*self, amount, source@, current_price),
    {
        let room = match self.current_supply.checked_add(amount) {
            Some(supply) => supply <= self.total_supply,
            None => false,
        };
        if !room {
            return Some(CoinError::SupplyCapExceeded);
        }
        if !self.is_allowed_source(source) {
            return Some(CoinError::InvalidSource);
        }
        if current_price != PI_VALUE {
            return Some(CoinError::PegViolated);
        }
        None
    }

    /// Mints `amount` coins from `source` for `to`, under the identifier
    /// `id` and with the proof that the proof service issued for it, and
    /// returns the place of the coin among the records. The coin takes the
    /// place of a coin with the same identifier. The mint must be one that
    /// [`PiCoinContract::check_mint`] does not refuse.
    pub fn mint(
        &mut self,
        to: Address,
        amount: u64,
        source: String,
        current_price: u64,
        id: [u8; 64],
        proof: Vec<u8>,
    ) -> (at: usize)
        requires
            spec_mint_refusal(*old(self), amount, source@, current_price) is None,
        ensures
            final(self).same_rules(old(self)),
            final(self).current_supply == old(self).current_supply + amount,
            final(self).current_supply <= final(self).total_supply,
            at < final(self).coins@.len(),
            at == if spec_known(old(self).coins@, id@) {
                spec_index(old(self).coins@, id@)
            } else {
                old(self).coins@.len() as int
            },
            final(self).coins@.len() == if spec_known(old(self).coins@, id@) {
                old(self).coins@.len()
            } else {
                old(self).coins@.len() + 1
            },
            forall|k: int|
                0 <= k < old(self).coins@.len() && k != at ==> final(self).coins@[k]
                    == old(self).coins@[k],
            final(self).coins@[at as int].id == id,
            final(self).coins@[at as int].coin.amount == amount,
            final(self).coins@[at as int].coin.owner == to,
            final(self).coins@[at as int].coin.source == source,
            final(self).coins@[at as int].coin.verified,
            final(self).coins@[at as int].coin.proof == proof,
    {
        let record = CoinRecord {
            id,
            coin: PiCoin { amount, owner: to, source, verified: true, proof },
        };
        let at = match self.find_coin(&id) {
            Some(i) => {
                self.coins.set(i, record);
                i
            },
            None => {
                self.coins.push(record);
                self.coins.len() - 1
            },
        };
        self.current_supply = self.current_supply + amount;
        at
    }

    /// Whether a transfer of `amount` of the coin `coin_id` by `from` would
    /// be refused, and why. `proof_valid` is what the proof service said of
    /// the coin's proof.
    pub fn check_transfer(&self, from: Address, amount: u64, coin_id: &[u8; 64], proof_valid: bool)
        -> (refusal: Option<CoinError>)
        ensures
            refusal == spec_transfer_refusal(*self, from, amount, coin_id@, proof_valid),
    {
        let at = match self.find_coin(coin_id) {
            Some(i) => i,
            None => {
                return Some(CoinError::UnknownCoin);
            },
        };
        if self.coins[at].coin.owner != from || self.coins[at].coin.amount < amount {
            return Some(CoinError::InvalidTransfer);
        }
        if !proof_valid {
            return Some(CoinError::FakeCoin);
        }
        None
    }

    /// Hands `amount` of the coin `coin_id` from `from` to `to`: the coin
    /// keeps what is left of its amount and gets `to` as its owner. The
    /// transfer must be one that [`PiCoinContract::check_transfer`] does
    /// not refuse.
    pub fn transfer(
        &mut self,
        from: Address,
        to: Address,
        amount: u64,
        coin_id: [u8; 64],
        proof_valid: bool,
    )
        requires
            spec_transfer_refusal(*old(self), from, amount, coin_id@, proof_valid) is None,
        ensures
            final(self).same_rules(old(self)),
            final(self).current_supply == old(self).current_supply,
            final(self).coins@.len() == old(self).coins@.len(),
            ({
                let at = spec_index(old(self).coins@, coin_id@);
                let coin = old(self).coins@[at].coin;
                &&& forall|k: int|
                    0 <= k < old(self).coins@.len() && k != at ==> final(self).coins@[k]
                        == old(self).coins@[k]
                &&& final(self).coins@[at].id == coin_id
                &&& final(self).coins@[at].coin.amount == coin.amount - amount
                &&& final(self).coins@[at].coin.owner == to
                &&& final(self).coins@[at].coin.source == coin.source
                &&& final(self).coins@[at].coin.verified == coin.verified
                &&& final(self).coins@[at].coin.proof == coin.proof
            }),
    {
        assert(spec_known(self.coins@, coin_id@));
        let at = match self.find_coin(&coin_id) {
            Some(i) => i,
            None => 0,
        };
        assert(at == spec_index(self.coins@, coin_id@));
        assert(self.coins@[at as int].coin.owner == from);
        assert(self.coins@[at as int].coin.amount >= amount);
        let mut record = self.coins.remove(at);
        record.coin.amount = record.coin.amount - amount;
        record.coin.owner = to;
        self.coins.insert(at, record);
    }

    /// The coin `coin_id`, if it is known.
    pub fn get_coin(&self, coin_id: &[u8; 64]) -> (coin: Option<&PiCoin>)
        ensures
            match coin {
                Some(c) => spec_known(self.coins@, coin_id@) && *c == self.coins@[spec_index(
                    self.coins@,
                    coin_id@,
                )].coin,
                None => !spec_known(self.coins@, coin_id@),
            },
    {
        match self.find_coin(coin_id) {
            Some(i) => Some(&self.coins[i].coin),
            None => None,
        }
    }

    /// The dollar value of `amount` coins; zero if it does not fit in 64
    /// bits.
    pub fn get_usd_value(&self, amount: u64) -> (value: u64)
        ensures
            value == spec_usd_value(amount, self.pi_value),
    {
        match amount.checked_mul(self.pi_value) {
            Some(value) => value,
            None => 0,
        }
    }
}

} // verus!
