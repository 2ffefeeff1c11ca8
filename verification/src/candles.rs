//! The price rules that a candle must keep before it may reach the engine.
//!
//! A candle's prices are numbers of the caller's own type, which this
//! module never sees. What it takes is how they compare, and what it
//! decides is whether the candle is accepted and, if not, which rule is
//! reported.

use vstd::prelude::*;
use vstd::string::StringExecFns;
use crate::error::{Error, ErrorView};

verus! {

/// How the four prices of one candle compare with each other.
///
/// Each field holds the outcome of one of the comparisons that a valid
/// candle passes. A comparison with a price that does not compare at all,
/// such as a number that is not a number, is `false`: such a candle keeps
/// no rule that the price takes part in.
#[derive(Debug, Clone, Copy, PartialEq, Eq, Structural)]
pub struct PriceOrder {
    /// `high >= low`
    pub high_not_below_low: bool,
    /// `low <= close`
    pub close_not_below_low: bool,
    /// `close <= high`
    pub close_not_above_high: bool,
    /// `low <= open`
    pub open_not_below_low: bool,
    /// `open <= high`
    pub open_not_above_high: bool,
}

/// A rule on the prices of a candle.
#[derive(Debug, Clone, Copy, PartialEq, Eq, Structural)]
pub enum PriceRule {
    /// The high price is not below the low price.
    HighNotBelowLow,
    /// The close price lies between the low and the high price.
    CloseInRange,
    /// The open price lies between the low and the high price.
    OpenInRange,
}

impl PriceRule {
    /// The reason reported when the rule is not kept.
    pub open spec fn reason(self) -> Seq<char> {
        match self {
            PriceRule::HighNotBelowLow => {
                "a high price must be greater or equal than a low price"@
            },
            PriceRule::CloseInRange => "a close price must be between a low and a high price"@,
            PriceRule::OpenInRange => "an open price must be between a low and a high price"@,
        }
    }
}

impl PriceOrder {
    /// Whether the given rule is kept.
    pub open spec fn keeps(self, rule: PriceRule) -> bool {
        match rule {
            PriceRule::HighNotBelowLow => self.high_not_below_low,
            PriceRule::CloseInRange => self.close_not_below_low && self.close_not_above_high,
            PriceRule::OpenInRange => self.open_not_below_low && self.open_not_above_high,
        }
    }

    /// Whether the prices keep every rule: `high >= low`,
    /// `low <= close <= high` and `low <= open <= high`.
    pub open spec fn consistent(self) -> bool {
        forall|rule: PriceRule| self.keeps(rule)
    }

    /// The rule that is reported: of the rules that are not kept, the one
    /// checked first. The high price is checked first, then the close
    /// price, then the open price.
    pub open spec fn first_broken(self) -> Option<PriceRule> {
        if !self.keeps(PriceRule::HighNotBelowLow) {
            Some(PriceRule::HighNotBelowLow)
        } else if !self.keeps(PriceRule::CloseInRange) {
            Some(PriceRule::CloseInRange)
        } else if !self.keeps(PriceRule::OpenInRange) {
            Some(PriceRule::OpenInRange)
        } else {
            None
        }
    }

    /// Accepts the candle if its prices keep every rule, and otherwise
    /// rejects it with the reason of the first rule that is not kept.
    pub fn validate(&self) -> (checked: Result<(), Error>)
        ensures
            checked is Ok <==> self.consistent(),
            match self.first_broken() {
                None => checked is Ok,
                Some(rule) => checked matches Err(e) && e@ == ErrorView::InvalidCandle(
                    rule.reason(),
                ),
            },
    {
        proof {
            self.lemma_validation();
        }
        if !self.high_not_below_low {
            return Err(
                Error::InvalidCandle(
                    String::from_str("a high price must be greater or equal than a low price"),
                ),
            );
        }
        if !(self.close_not_below_low && self.close_not_above_high) {
            return Err(
                Error::InvalidCandle(
                    String::from_str("a close price must be between a low and a high price"),
                ),
            );
        }
        if !(self.open_not_below_low && self.open_not_above_high) {
            return Err(
                Error::InvalidCandle(
                    String::from_str("an open price must be between a low and a high price"),
                ),
            );
        }
        Ok(())
    }

    /// What is reported for every candle. A candle is consistent exactly
    /// when all five comparisons hold, and then nothing is reported. A high
    /// price below the low price is reported whatever else holds; with the
    /// high price in order, a close price out of range is reported; with
    /// both in order, an open price out of range is.
    pub proof fn lemma_validation(self)
        ensures
            self.consistent() <==> self.high_not_below_low && self.close_not_below_low
                && self.close_not_above_high && self.open_not_below_low
                && self.open_not_above_high,
            self.consistent() <==> self.first_broken() is None,
            !self.high_not_below_low ==> self.first_broken() == Some(PriceRule::HighNotBelowLow),
            self.high_not_below_low && !(self.close_not_below_low && self.close_not_above_high)
                ==> self.first_broken() == Some(PriceRule::CloseInRange),
            self.high_not_below_low && self.close_not_below_low && self.close_not_above_high && !(
            self.open_not_below_low && self.open_not_above_high) ==> self.first_broken() == Some(
                PriceRule::OpenInRange,
            ),
            self.first_broken() matches Some(rule) ==> !self.keeps(rule),
    {
        if self.first_broken() is None {
            assert forall|rule: PriceRule| self.keeps(rule) by {
                match rule {
                    PriceRule::HighNotBelowLow => {},
                    PriceRule::CloseInRange => {},
                    PriceRule::OpenInRange => {},
                }
            }
        } else {
            assert(!self.keeps(self.first_broken()->0));
        }
    }
}

/// Whether `k` is the place of the first candle that does not keep every
/// rule.
pub open spec fn is_first_inconsistent(orders: Seq<PriceOrder>, k: int) -> bool {
    &&& 0 <= k < orders.len()
    &&& !orders[k].consistent()
    &&& forall|j: int| 0 <= j < k ==> (#[trigger] orders[j]).consistent()
}

/// Accepts a series if every candle of it keeps every rule. A single
/// candle that does not rejects the whole series, with the reason that
/// the first such candle is rejected with.
pub fn validate_all(orders: &Vec<PriceOrder>) -> (checked: Result<(), Error>)
    ensures
        checked is Ok <==> forall|i: int|
            0 <= i < orders@.len() ==> (#[trigger] orders@[i]).consistent(),
        checked matches Err(e) ==> exists|k: int|
            #![trigger orders@[k]]
            is_first_inconsistent(orders@, k) && orders@[k].first_broken() is Some && e@
                == ErrorView::InvalidCandle(orders@[k].first_broken()->0.reason()),
{
    let mut i: usize = 0;
    while i < orders.len()
        invariant
            i <= orders@.len(),
            forall|j: int| 0 <= j < i ==> (#[trigger] orders@[j]).consistent(),
        decreases orders@.len() - i,
    {
        match orders[i].validate() {
            Ok(()) => {},
            Err(e) => {
                proof {
                    orders@[i as int].lemma_validation();
                    assert(is_first_inconsistent(orders@, i as int));
                }
                return Err(e);
            },
        }
        i = i + 1;
    }
    Ok(())
}

} // verus!
