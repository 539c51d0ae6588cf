//! Agents that decide on their own.
//!
//! A decision weighs the volatility and the stability that a caller reports
//! with the weights of three models, adds a constant drawn from the digits
//! of π, and rejects when the score passes a threshold.

use vstd::prelude::*;

verus! {

/// The number of decimals of the double-precision number nearest to π,
/// `3.141592653589793115997963468544185161590576171875`.
pub const PI_FRACTION_DIGITS: usize = 48;

/// The decimals of the double-precision number nearest to π, one digit per
/// element.
pub open spec fn pi_fraction() -> Seq<u8> {
    seq![
        1u8, 4u8, 1u8, 5u8, 9u8, 2u8, 6u8, 5u8, 3u8, 5u8, 8u8, 9u8,
        7u8, 9u8, 3u8, 1u8, 1u8, 5u8, 9u8, 9u8, 7u8, 9u8, 6u8, 3u8,
        4u8, 6u8, 8u8, 5u8, 4u8, 4u8, 1u8, 8u8, 5u8, 1u8, 6u8, 1u8,
        5u8, 9u8, 0u8, 5u8, 7u8, 6u8, 1u8, 7u8, 1u8, 8u8, 7u8, 5u8,
    ]
}

/// Whether cutting the decimals `f` after `n` of them rounds up: the rest
/// is more than half a unit of the last kept digit, or exactly half and the
/// last kept digit is odd. Before the first decimal the last kept digit is
/// the 3 before the point.
pub open spec fn rounds_up(f: Seq<u8>, n: int) -> bool
    recommends
        0 <= n < f.len(),
{
    f[n] > 5 || (f[n] == 5 && ((exists|j: int| n < j < f.len() && f[j] != 0) || n == 0 || f[n - 1]
        % 2 == 1))
}

/// The digits `s` with one added at the last place, the carry running as far
/// to the front as there are nines.
pub open spec fn incremented(s: Seq<u8>) -> Seq<u8>
    decreases s.len(),
{
    if s.len() == 0 {
        s
    } else if s.last() < 9 {
        s.drop_last().push((s.last() + 1) as u8)
    } else {
        incremented(s.drop_last()).push(0u8)
    }
}

/// The first `n` decimals of π as the double-precision number has them,
/// rounded half to even at the `n`-th; past the last decimal, zeros.
pub open spec fn rounded_fraction(n: nat) -> Seq<u8> {
    let f = pi_fraction();
    if n >= f.len() {
        f + Seq::new((n - f.len()) as nat, |i: int| 0u8)
    } else if rounds_up(f, n as int) {
        incremented(f.take(n as int))
    } else {
        f.take(n as int)
    }
}

/// The character of a decimal digit.
pub open spec fn digit_char(d: u8) -> char
    recommends
        d <= 9,
{
    "0123456789"@[d as int]
}

/// The text of π with `n` decimals: `3`, and for `n > 0` a point and the
/// rounded decimals. The first decimal is 1, so rounding never reaches the
/// digit before the point.
pub open spec fn pi_text(n: nat) -> Seq<char> {
    if n == 0 {
        seq!['3']
    } else {
        seq!['3', '.'] + rounded_fraction(n).map_values(|d: u8| digit_char(d))
    }
}

fn fraction_digits() -> (f: Vec<u8>)
    ensures
        f@ == pi_fraction(),
{
    let f: Vec<u8> = vec![
        1u8, 4u8, 1u8, 5u8, 9u8, 2u8, 6u8, 5u8, 3u8, 5u8, 8u8, 9u8,
        7u8, 9u8, 3u8, 1u8, 1u8, 5u8, 9u8, 9u8, 7u8, 9u8, 6u8, 3u8,
        4u8, 6u8, 8u8, 5u8, 4u8, 4u8, 1u8, 8u8, 5u8, 1u8, 6u8, 1u8,
        5u8, 9u8, 0u8, 5u8, 7u8, 6u8, 1u8, 7u8, 1u8, 8u8, 7u8, 5u8,
    ];
    assert(f@ =~= pi_fraction());
    f
}

fn cut_rounds_up(f: &Vec<u8>, n: usize) -> (up: bool)
    requires
        n < f.len(),
    ensures
        up == rounds_up(f@, n as int),
{
    if f[n] > 5 {
        return true;
    }
    if f[n] < 5 {
        return false;
    }
    if n == 0 || f[n - 1] % 2 == 1 {
        return true;
    }
    let mut j: usize = n + 1;
    while j < f.len()
        invariant
            n < j <= f.len(),
            f@[n as int] == 5,
            forall|k: int| n < k < j ==> f@[k] == 0,
        decreases f.len() - j,
    {
        if f[j] != 0 {
            assert(n < j < f@.len() && f@[j as int] != 0);
            return true;
        }
        j = j + 1;
    }
    false
}

fn increment_digits(kept: &mut Vec<u8>)
    requires
        forall|i: int| 0 <= i < old(kept)@.len() ==> old(kept)@[i] <= 9,
    ensures
        final(kept)@ == incremented(old(kept)@),
        forall|i: int| 0 <= i < final(kept)@.len() ==> final(kept)@[i] <= 9,
{
    let ghost orig = kept@;
    let n = kept.len();
    let mut j: usize = n;
    assert(orig.take(n as int) =~= orig);
    assert(orig.take(n as int) + Seq::new(0nat, |i: int| 0u8) =~= orig);
    let mut carried: bool = true;
    while carried && j > 0
        invariant
            j <= n,
            n == orig.len(),
            kept@.len() == n,
            forall|i: int| 0 <= i < n ==> orig[i] <= 9,
            forall|i: int| 0 <= i < n ==> kept@[i] <= 9,
            carried ==> kept@ == orig.take(j as int) + Seq::new((n - j) as nat, |i: int| 0u8),
            carried ==> incremented(orig) == incremented(orig.take(j as int)) + Seq::new(
                (n - j) as nat,
                |i: int| 0u8,
            ),
            !carried ==> kept@ == incremented(orig),
        decreases j + (if carried { 1int } else { 0int }),
    {
        j = j - 1;
        let d = kept[j];
        assert(d == orig[j as int]);
        assert(orig.take(j + 1).drop_last() =~= orig.take(j as int));
        assert(orig.take(j + 1).last() == orig[j as int]);
        if d < 9 {
            kept.set(j, d + 1);
            carried = false;
            assert(kept@ =~= orig.take(j as int).push((d + 1) as u8) + Seq::new(
                (n - j - 1) as nat,
                |i: int| 0u8,
            ));
        } else {
            kept.set(j, 0);
            assert(kept@ =~= orig.take(j as int) + Seq::new((n - j) as nat, |i: int| 0u8));
            assert(incremented(orig.take(j as int)).push(0u8) + Seq::new(
                (n - j - 1) as nat,
                |i: int| 0u8,
            ) =~= incremented(orig.take(j as int)) + Seq::new((n - j) as nat, |i: int| 0u8));
        }
    }
    proof {
        if carried {
            assert(orig.take(0) =~= Seq::<u8>::empty());
        }
    }
}

/// The text of π, as double precision has it, with `digits` decimals:
/// `"3"` for none, `"3.14159"` for five. The last decimal is rounded, half
/// to even; past the 48th decimal the text goes on with zeros.
pub fn generate_pi_digits(digits: usize) -> (text: String)
    ensures
        text@ == pi_text(digits as nat),
{
    let f = fraction_digits();
    let mut kept: Vec<u8> = Vec::new();
    let copied: usize = if digits < PI_FRACTION_DIGITS {
        digits
    } else {
        PI_FRACTION_DIGITS
    };
    let mut i: usize = 0;
    while i < copied
        invariant
            i <= copied <= 48,
            f@ == pi_fraction(),
            kept@ == f@.take(i as int),
        decreases copied - i,
    {
        kept.push(f[i]);
        assert(kept@ =~= f@.take(i + 1));
        i = i + 1;
    }
    if digits < PI_FRACTION_DIGITS {
        if cut_rounds_up(&f, digits) {
            increment_digits(&mut kept);
        }
    } else {
        assert(f@.take(48) =~= f@);
        while i < digits
            invariant
                48 <= i <= digits,
                f@ == pi_fraction(),
                kept@ == f@ + Seq::new((i - 48) as nat, |k: int| 0u8),
            decreases digits - i,
        {
            kept.push(0);
            assert(kept@ =~= f@ + Seq::new((i + 1 - 48) as nat, |k: int| 0u8));
            i = i + 1;
        }
    }
    assert(kept@ == rounded_fraction(digits as nat));
    assert(forall|k: int| 0 <= k < kept@.len() ==> kept@[k] <= 9);
    let mut text = String::from_str("3");
    proof {
        reveal_strlit("3");
        reveal_strlit(".");
        reveal_strlit("0123456789");
    }
    assert(text@ =~= seq!['3']);
    if digits == 0 {
        return text;
    }
    text.append(".");
    assert(text@ =~= seq!['3', '.']);
    let numerals = "0123456789";
    let mut k: usize = 0;
    while k < kept.len()
        invariant
            k <= kept.len(),
            numerals@ == "0123456789"@,
            numerals.is_ascii(),
            numerals@.len() == 10,
            forall|m: int| 0 <= m < kept@.len() ==> kept@[m] <= 9,
            text@ == seq!['3', '.'] + kept@.take(k as int).map_values(|d: u8| digit_char(d)),
        decreases kept.len() - k,
    {
        let d = kept[k] as usize;
        let numeral = numerals.substring_ascii(d, d + 1);
        text.append(numeral);
        assert(numeral@ =~= seq![digit_char(kept@[k as int])]);
        assert(kept@.take(k + 1).map_values(|d: u8| digit_char(d)) =~= kept@.take(
            k as int,
        ).map_values(|d: u8| digit_char(d)).push(digit_char(kept@[k as int])));
        k = k + 1;
    }
    assert(kept@.take(k as int) =~= kept@);
    text
}

/// What an agent decides to do.
#[derive(Clone, Copy, Debug, PartialEq, Eq, Structural)]
pub enum Action {
    Reject,
    Evolve,
    Optimize,
}

/// What a decision is about.
#[derive(Clone, Copy, Debug, PartialEq, Eq, Structural)]
pub enum Target {
    VolatileAsset,
    Model,
}

/// A decision of an agent.
#[derive(Clone, Copy, Debug, PartialEq, Eq, Structural)]
pub struct AiDecision {
    pub action: Action,
    pub target: Target,
    /// Confidence in percent.
    pub confidence: u32,
    pub executed: bool,
}

/// An agent and whether it may decide.
pub struct Agent {
    pub name: String,
    pub active: bool,
}

/// The contract of the agents.
pub struct HyperAutonomousAiContract {
    pub agents: Vec<Agent>,
    pub isolation_forest_weight: u32,
    pub bayesian_ridge_weight: u32,
    pub neural_net_weight: u32,
    pub rejection_threshold: u32,
    pub evolution_threshold: u32,
    pub decision_log: Vec<AiDecision>,
}

/// The confidence above which a decision is executed at once.
pub const EXECUTION_CONFIDENCE: u32 = 90;

/// The confidence of a rejection.
pub const REJECTION_CONFIDENCE: u32 = 95;

/// The confidence of an optimization.
pub const OPTIMIZATION_CONFIDENCE: u32 = 80;

/// The volatility assumed when none is reported.
pub const DEFAULT_VOLATILITY: u64 = 0;

/// The stability assumed when none is reported.
pub const DEFAULT_STABILITY: u64 = 100;

/// What optimizing adds to the weight of the neural net.
pub const OPTIMIZATION_STEP: u32 = 5;

/// The cap on a weight that learning raises.
pub const WEIGHT_CAP: u32 = 100;

/// The value of a character as a decimal digit; zero for any other
/// character.
pub open spec fn char_digit(c: char) -> nat {
    if '0' <= c <= '9' {
        (c as u32 - '0' as u32) as nat
    } else {
        0
    }
}

/// The sum of the decimal digits in `s`.
pub open spec fn spec_digit_sum(s: Seq<char>) -> nat
    decreases s.len(),
{
    if s.len() == 0 {
        0
    } else {
        spec_digit_sum(s.drop_last()) + char_digit(s.last())
    }
}

/// The constant that the digits of π add to a score: the last digit of the
/// digit sum of π with five decimals.
pub open spec fn spec_pi_boost() -> nat {
    spec_digit_sum(pi_text(5)) % 10
}

/// The constant of π is 3: the digits of `3.14159` add up to 23.
pub proof fn lemma_pi_boost_is_three()
    ensures
        spec_digit_sum(pi_text(5)) == 23,
        spec_pi_boost() == 3,
{
    reveal_strlit("0123456789");
    let f = pi_fraction();
    assert(!rounds_up(f, 5));
    let kept = rounded_fraction(5);
    assert(kept =~= seq![1u8, 4u8, 1u8, 5u8, 9u8]);
    let t = pi_text(5);
    assert(t =~= seq!['3', '.', '1', '4', '1', '5', '9']);
    reveal_with_fuel(spec_digit_sum, 8);
    assert(t.drop_last() =~= seq!['3', '.', '1', '4', '1', '5']);
    assert(t.drop_last().drop_last() =~= seq!['3', '.', '1', '4', '1']);
    assert(t.drop_last().drop_last().drop_last() =~= seq!['3', '.', '1', '4']);
    assert(t.drop_last().drop_last().drop_last().drop_last() =~= seq!['3', '.', '1']);
    assert(t.drop_last().drop_last().drop_last().drop_last().drop_last() =~= seq!['3', '.']);
    assert(t.drop_last().drop_last().drop_last().drop_last().drop_last().drop_last() =~= seq![
        '3',
    ]);
    assert(spec_digit_sum(t) == 23);
}

/// Whether some agent named `name` is active.
pub open spec fn spec_active(agents: Seq<Agent>, name: Seq<char>) -> bool {
    exists|i: int| 0 <= i < agents.len() && (#[trigger] agents[i]).name@ == name && agents[i].active
}

/// A reading, or `default` where none is reported.
pub open spec fn reading_or(reading: Option<u64>, default: u64) -> nat {
    match reading {
        Some(value) => value as nat,
        None => default as nat,
    }
}

/// The decision on a score: reject what passes the threshold and execute
/// that at once, optimize otherwise.
pub open spec fn spec_decision(total_score: nat, threshold: nat) -> AiDecision {
    if total_score > threshold {
        AiDecision {
            action: Action::Reject,
            target: Target::VolatileAsset,
            confidence: REJECTION_CONFIDENCE,
            executed: REJECTION_CONFIDENCE > EXECUTION_CONFIDENCE,
        }
    } else {
        AiDecision {
            action: Action::Optimize,
            target: Target::Model,
            confidence: OPTIMIZATION_CONFIDENCE,
            executed: OPTIMIZATION_CONFIDENCE > EXECUTION_CONFIDENCE,
        }
    }
}

/// A weight after learning from a reading: raised by a tenth of the
/// reading's lower 32 bits, up to the cap.
pub open spec fn spec_learned(weight: nat, reading: nat) -> nat {
    let raised = weight + (reading % 0x1_0000_0000) / 10;
    if raised <= 100 {
        raised
    } else {
        100
    }
}

/// The digit sum of a part of a text is no more than that of the whole.
pub proof fn lemma_digit_sum_grows(s: Seq<char>, n: int)
    requires
        0 <= n <= s.len(),
    ensures
        spec_digit_sum(s.take(n)) <= spec_digit_sum(s),
    decreases s.len() - n,
{
    if n < s.len() {
        assert(s.take(n + 1).drop_last() =~= s.take(n));
        lemma_digit_sum_grows(s, n + 1);
    } else {
        assert(s.take(n) =~= s);
    }
}

/// The sum of the decimal digits in `text`, which must fit in 32 bits.
pub fn digit_sum(text: &str) -> (sum: u32)
    requires
        spec_digit_sum(text@) <= u32::MAX,
    ensures
        sum == spec_digit_sum(text@),
{
    let n = text.unicode_len();
    let mut sum: u32 = 0;
    let mut i: usize = 0;
    while i < n
        invariant
            i <= n,
            n == text@.len(),
            spec_digit_sum(text@) <= u32::MAX,
            sum == spec_digit_sum(text@.take(i as int)),
        decreases n - i,
    {
        let c = text.get_char(i);
        proof {
            assert(text@.take(i + 1).drop_last() =~= text@.take(i as int));
            lemma_digit_sum_grows(text@, i + 1);
        }
        if c >= '0' && c <= '9' {
            sum = sum + (c as u32 - '0' as u32);
        }
        i = i + 1;
    }
    assert(text@.take(n as int) =~= text@);
    sum
}

/// The constant that the digits of π add to a score.
pub fn pi_boost() -> (boost: u64)
    ensures
        boost == spec_pi_boost(),
        boost == 3,
{
    let text = generate_pi_digits(5);
    proof {
        lemma_pi_boost_is_three();
    }
    (digit_sum(text.as_str()) % 10) as u64
}

impl HyperAutonomousAiContract {
    /// Whether `other` has the agents, weights and thresholds of `self`.
    pub open spec fn same_models(&self, other: &HyperAutonomousAiContract) -> bool {
        &&& self.agents == other.agents
        &&& self.isolation_forest_weight == other.isolation_forest_weight
        &&& self.bayesian_ridge_weight == other.bayesian_ridge_weight
        &&& self.neural_net_weight == other.neural_net_weight
        &&& self.rejection_threshold == other.rejection_threshold
        &&& self.evolution_threshold == other.evolution_threshold
    }

    /// The weighted sum of a report, a hundred times its score: the models'
    /// weights on the volatility, the stability and the constant of π.
    pub open spec fn weighted_sum(&self, volatility: Option<u64>, stability: Option<u64>) -> nat {
        (self.isolation_forest_weight * reading_or(volatility, DEFAULT_VOLATILITY)
            + self.bayesian_ridge_weight * reading_or(stability, DEFAULT_STABILITY)
            + self.neural_net_weight * spec_pi_boost()) as nat
    }

    /// A contract with its three agents active, the weights 40, 30 and 30,
    /// the thresholds 5 and 10, and an empty log.
    pub fn init() -> (contract: HyperAutonomousAiContract)
        ensures
            contract.agents@.len() == 3,
            contract.agents@[0].name@ == "rejection_agent"@ && contract.agents@[0].active,
            contract.agents@[1].name@ == "evolution_agent"@ && contract.agents@[1].active,
            contract.agents@[2].name@ == "optimization_agent"@ && contract.agents@[2].active,
            contract.isolation_forest_weight == 40,
            contract.bayesian_ridge_weight == 30,
            contract.neural_net_weight == 30,
            contract.rejection_threshold == 5,
            contract.evolution_threshold == 10,
            contract.decision_log@.len() == 0,
    {
        let mut agents: Vec<Agent> = Vec::new();
        agents.push(Agent { name: String::from_str("rejection_agent"), active: true });
        agents.push(Agent { name: String::from_str("evolution_agent"), active: true });
        agents.push(Agent { name: String::from_str("optimization_agent"), active: true });
        HyperAutonomousAiContract {
            agents,
            isolation_forest_weight: 40,
            bayesian_ridge_weight: 30,
            neural_net_weight: 30,
            rejection_threshold: 5,
            evolution_threshold: 10,
            decision_log: Vec::new(),
        }
    }

    /// Whether some agent named `name` is active.
    pub fn is_active(&self, name: &String) -> (yes: bool)
        ensures
            yes == spec_active(self.agents@, name@),
    {
        let mut i: usize = 0;
        while i < self.agents.len()
            invariant
                i <= self.agents.len(),
                forall|k: int|
                    0 <= k < i ==> !((#[trigger] self.agents@[k]).name@ == name@
                        && self.agents@[k].active),
            decreases self.agents.len() - i,
        {
            if self.agents[i].active && self.agents[i].name == *name {
                return true;
            }
            i = i + 1;
        }
        false
    }

    /// Whether the weighted sum of a report fits in 64 bits, so that
    /// [`HyperAutonomousAiContract::make_decision`] can score it.
    pub fn score_fits(&self, volatility: Option<u64>, stability: Option<u64>) -> (fits: bool)
        ensures
            fits == (self.weighted_sum(volatility, stability) <= u64::MAX),
    {
        let volatility: u64 = match volatility {
            Some(v) => v,
            None => DEFAULT_VOLATILITY,
        };
        let stability: u64 = match stability {
            Some(s) => s,
            None => DEFAULT_STABILITY,
        };
        let boost = pi_boost();
        let isolation = self.isolation_forest_weight as u64;
        let bayesian = self.bayesian_ridge_weight as u64;
        let neural = self.neural_net_weight as u64;
        assert(isolation * volatility >= 0 && bayesian * stability >= 0) by (nonlinear_arith)
            requires
                isolation >= 0,
                volatility >= 0,
                bayesian >= 0,
                stability >= 0,
        ;
        let by_volatility = match isolation.checked_mul(volatility) {
            Some(v) => v,
            None => {
                return false;
            },
        };
        let by_stability = match bayesian.checked_mul(stability) {
            Some(v) => v,
            None => {
                return false;
            },
        };
        let both = match by_volatility.checked_add(by_stability) {
            Some(v) => v,
            None => {
                return false;
            },
        };
        both.checked_add(neural * boost).is_some()
    }

    /// Lets the agent `agent`, which must be active, decide on a report of
    /// volatility and stability, and logs the decision. A rejection is
    /// marked as executed: the caller is to reject the volatile asset.
    pub fn make_decision(&mut self, agent: &String, volatility: Option<u64>, stability: Option<u64>)
        -> (decision: AiDecision)
        requires
            spec_active(old(self).agents@, agent@),
            old(self).weighted_sum(volatility, stability) <= u64::MAX,
        ensures
            final(self).same_models(old(self)),
            decision == spec_decision(
                old(self).weighted_sum(volatility, stability) / 100,
                old(self).rejection_threshold as nat,
            ),
            final(self).decision_log@ == old(self).decision_log@.push(decision),
    {
        let volatility: u64 = match volatility {
            Some(v) => v,
            None => DEFAULT_VOLATILITY,
        };
        let stability: u64 = match stability {
            Some(s) => s,
            None => DEFAULT_STABILITY,
        };
        let boost = pi_boost();
        let isolation = self.isolation_forest_weight as u64;
        let bayesian = self.bayesian_ridge_weight as u64;
        let neural = self.neural_net_weight as u64;
        assert(isolation * volatility >= 0 && bayesian * stability >= 0) by (nonlinear_arith)
            requires
                isolation >= 0,
                volatility >= 0,
                bayesian >= 0,
                stability >= 0,
        ;
        let total_score: u64 = (isolation * volatility + bayesian * stability + neural * boost)
            / 100;
        let (action, target, confidence) = if total_score > self.rejection_threshold as u64 {
            (Action::Reject, Target::VolatileAsset, REJECTION_CONFIDENCE)
        } else {
            (Action::Optimize, Target::Model, OPTIMIZATION_CONFIDENCE)
        };
        let decision = AiDecision {
            action,
            target,
            confidence,
            executed: confidence > EXECUTION_CONFIDENCE,
        };
        self.decision_log.push(decision);
        decision
    }

    /// Carries out a decision. Optimizing raises the weight of the neural
    /// net. Rejecting is for the caller to carry out: the result says whether
    /// a rejection of the decision's target is due.
    pub fn execute_decision(&mut self, decision: AiDecision) -> (reject_due: bool)
        requires
            decision.action == Action::Optimize ==> old(self).neural_net_weight
                + OPTIMIZATION_STEP <= u32::MAX,
        ensures
            reject_due == (decision.action == Action::Reject),
            final(self).agents == old(self).agents,
            final(self).isolation_forest_weight == old(self).isolation_forest_weight,
            final(self).bayesian_ridge_weight == old(self).bayesian_ridge_weight,
            final(self).rejection_threshold == old(self).rejection_threshold,
            final(self).evolution_threshold == old(self).evolution_threshold,
            final(self).decision_log == old(self).decision_log,
            final(self).neural_net_weight == if decision.action == Action::Optimize {
                old(self).neural_net_weight + OPTIMIZATION_STEP
            } else {
                old(self).neural_net_weight as int
            },
    {
        match decision.action {
            Action::Reject => true,
            Action::Optimize => {
                self.neural_net_weight = self.neural_net_weight + OPTIMIZATION_STEP;
                false
            },
            Action::Evolve => false,
        }
    }

    /// Whether the weights can be raised by a report without passing 32
    /// bits on the way, so that [`HyperAutonomousAiContract::learn`] can
    /// take it.
    pub fn can_learn(&self, volatility: Option<u64>, stability: Option<u64>) -> (yes: bool)
        ensures
            yes == (self.isolation_forest_weight + (reading_or(volatility, DEFAULT_VOLATILITY)
                % 0x1_0000_0000) / 10 <= u32::MAX && self.bayesian_ridge_weight + (reading_or(
                stability,
                DEFAULT_STABILITY,
            ) % 0x1_0000_0000) / 10 <= u32::MAX),
    {
        let volatility: u64 = match volatility {
            Some(v) => v,
            None => DEFAULT_VOLATILITY,
        };
        let stability: u64 = match stability {
            Some(s) => s,
            None => DEFAULT_STABILITY,
        };
        let by_volatility: u32 = ((volatility % 0x1_0000_0000) as u32) / 10;
        let by_stability: u32 = ((stability % 0x1_0000_0000) as u32) / 10;
        self.isolation_forest_weight.checked_add(by_volatility).is_some()
            && self.bayesian_ridge_weight.checked_add(by_stability).is_some()
    }

    /// Learns from a report: raises the weight of the isolation forest with
    /// the volatility and that of the Bayesian ridge with the stability.
    pub fn learn(&mut self, volatility: Option<u64>, stability: Option<u64>)
        requires
            old(self).isolation_forest_weight + (reading_or(volatility, DEFAULT_VOLATILITY)
                % 0x1_0000_0000) / 10 <= u32::MAX,
            old(self).bayesian_ridge_weight + (reading_or(stability, DEFAULT_STABILITY)
                % 0x1_0000_0000) / 10 <= u32::MAX,
        ensures
            final(self).isolation_forest_weight == spec_learned(
                old(self).isolation_forest_weight as nat,
                reading_or(volatility, DEFAULT_VOLATILITY),
            ),
            final(self).bayesian_ridge_weight == spec_learned(
                old(self).bayesian_ridge_weight as nat,
                reading_or(stability, DEFAULT_STABILITY),
            ),
            final(self).agents == old(self).agents,
            final(self).neural_net_weight == old(self).neural_net_weight,
            final(self).rejection_threshold == old(self).rejection_threshold,
            final(self).evolution_threshold == old(self).evolution_threshold,
            final(self).decision_log == old(self).decision_log,
    {
        let volatility: u64 = match volatility {
            Some(v) => v,
            None => DEFAULT_VOLATILITY,
        };
        let stability: u64 = match stability {
            Some(s) => s,
            None => DEFAULT_STABILITY,
        };
        let by_volatility: u32 = ((volatility % 0x1_0000_0000) as u32) / 10;
        let by_stability: u32 = ((stability % 0x1_0000_0000) as u32) / 10;
        let isolation = self.isolation_forest_weight + by_volatility;
        let bayesian = self.bayesian_ridge_weight + by_stability;
        self.isolation_forest_weight = if isolation <= WEIGHT_CAP {
            isolation
        } else {
            WEIGHT_CAP
        };
        self.bayesian_ridge_weight = if bayesian <= WEIGHT_CAP {
            bayesian
        } else {
            WEIGHT_CAP
        };
    }

    /// The decisions made so far, oldest first.
    pub fn get_decision_log(&self) -> (log: &Vec<AiDecision>)
        ensures
            log == self.decision_log,
    {
        &self.decision_log
    }
}

} // verus!
