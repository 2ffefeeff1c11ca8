//! Quality scores and the signals that carry them.

use vstd::prelude::*;

verus! {

/// The highest score a [`Quality`] can hold.
pub const MAX_QUALITY: u8 = 100;

/// The score that a raw strength is stored as: zero stays zero, anything
/// above the maximum is capped at it.
pub open spec fn clamp_score(score: u8) -> int {
    if score > MAX_QUALITY {
        MAX_QUALITY as int
    } else {
        score as int
    }
}

/// Pattern quality score.
///
/// Every value built by this library holds a score between 1 and 100,
/// inclusive. A score of 0 means "nothing detected" and has no `Quality`.
#[derive(Debug, Clone, Copy, PartialEq, Eq, Structural, PartialOrd, Ord)]
pub struct Quality(u8);

impl Quality {
    /// The score as a mathematical integer.
    pub closed spec fn view(&self) -> int {
        self.0 as int
    }

    #[verifier::type_invariant]
    spec fn in_range(self) -> bool {
        1 <= self.0 <= MAX_QUALITY
    }

    /// Builds a quality from a raw score: absent for 0, capped at 100.
    pub fn try_new(score: u8) -> (quality: Option<Self>)
        ensures
            score == 0 <==> quality is None,
            quality matches Some(q) ==> q@ == clamp_score(score) && 1 <= q@ <= MAX_QUALITY,
    {
        if score > 0 {
            if score > MAX_QUALITY {
                Some(Self(MAX_QUALITY))
            } else {
                Some(Self(score))
            }
        } else {
            None
        }
    }

    /// Returns the inner score.
    pub fn value(&self) -> (score: u8)
        ensures
            score as int == self@,
            1 <= score <= MAX_QUALITY,
    {
        proof {
            use_type_invariant(self);
        }
        self.0
    }

    /// Two qualities with the same score are the same quality.
    pub proof fn lemma_view_injective(a: Quality, b: Quality)
        requires
            a@ == b@,
        ensures
            a == b,
    {
    }
}

/// A signal indicating a detected candlestick pattern.
#[derive(Debug, Clone, Copy, PartialEq, Eq, Structural)]
pub struct Signal {
    /// The quality score of the signal, from 1 to 100.
    pub quality: Quality,
}

/// What a raw score means as a signal slot: `None` for 0, otherwise the
/// capped score.
pub open spec fn is_signal_of(slot: Option<Signal>, score: u8) -> bool {
    match slot {
        None => score == 0,
        Some(signal) => score != 0 && signal.quality@ == clamp_score(score),
    }
}

impl Signal {
    /// Wraps a quality.
    pub fn new(quality: Quality) -> (signal: Self)
        ensures
            signal.quality == quality,
    {
        Self { quality }
    }

    /// Builds a signal from a raw score: absent for 0, capped at 100.
    pub fn try_from_quality(score: u8) -> (signal: Option<Self>)
        ensures
            is_signal_of(signal, score),
    {
        match Quality::try_new(score) {
            Some(quality) => Some(Self::new(quality)),
            None => None,
        }
    }

    /// A slot is determined by the score it was made from.
    pub proof fn lemma_slot_unique(a: Option<Signal>, b: Option<Signal>, score: u8)
        requires
            is_signal_of(a, score),
            is_signal_of(b, score),
        ensures
            a == b,
    {
        if a is Some {
            Quality::lemma_view_injective(a->0.quality, b->0.quality);
        }
    }
}

} // verus!
