//! Tunable thresholds of the pattern-recognition engine, and the sequence
//! of updates that installs them.

use vstd::prelude::*;

verus! {

/// A threshold of the engine that can be tuned.
#[derive(Debug, Clone, Copy, PartialEq, Eq, Structural)]
pub enum CandleSetting {
    /// A candle body counts as long.
    BodyLong,
    /// A candle body counts as very long.
    BodyVeryLong,
    /// A candle body counts as short.
    BodyShort,
    /// A candle body counts as a doji.
    BodyDoji,
    /// A shadow counts as long.
    ShadowLong,
    /// A shadow counts as very long.
    ShadowVeryLong,
    /// A shadow counts as short.
    ShadowShort,
    /// A shadow counts as very short.
    ShadowVeryShort,
    /// Two prices count as near each other.
    Near,
    /// Two prices count as far from each other.
    Far,
    /// Two prices count as equal.
    Equal,
}

/// The part of a candle that a threshold is measured against.
#[derive(Debug, Clone, Copy, PartialEq, Eq, Structural)]
pub enum RangeKind {
    /// The distance between open and close.
    RealBody,
    /// The distance between high and low.
    HighLow,
}

/// Which of the two penetration factors a reversal pattern takes.
#[derive(Debug, Clone, Copy, PartialEq, Eq, Structural)]
pub enum Penetration {
    /// The factor of the morning-star and evening-star patterns.
    Star,
    /// The factor of the piercing and dark-cloud-cover patterns.
    Piercing,
}

/// The two penetration factors that the reversal patterns are called with.
#[derive(Debug, Clone, Copy, PartialEq)]
pub struct PenetrationFactors<F> {
    /// The factor of the morning-star and evening-star patterns.
    pub star: F,
    /// The factor of the piercing and dark-cloud-cover patterns.
    pub piercing: F,
}

impl<F> PenetrationFactors<F> {
    /// The factor of the given kind.
    pub open spec fn of(self, kind: Penetration) -> F {
        match kind {
            Penetration::Star => self.star,
            Penetration::Piercing => self.piercing,
        }
    }
}

/// How many thresholds the engine is given when it is set up.
pub const SETTING_COUNT: usize = 11;

impl CandleSetting {
    /// The range that the threshold is compared with.
    pub open spec fn range(self) -> RangeKind {
        match self {
            CandleSetting::BodyDoji
            | CandleSetting::ShadowShort
            | CandleSetting::ShadowVeryShort => RangeKind::HighLow,
            _ => RangeKind::RealBody,
        }
    }

    /// The threshold installed at position `i`, for `0 <= i < 11`.
    pub open spec fn at(i: int) -> CandleSetting {
        if i == 0 {
            CandleSetting::BodyLong
        } else if i == 1 {
            CandleSetting::BodyVeryLong
        } else if i == 2 {
            CandleSetting::BodyShort
        } else if i == 3 {
            CandleSetting::BodyDoji
        } else if i == 4 {
            CandleSetting::ShadowLong
        } else if i == 5 {
            CandleSetting::ShadowVeryLong
        } else if i == 6 {
            CandleSetting::ShadowShort
        } else if i == 7 {
            CandleSetting::ShadowVeryShort
        } else if i == 8 {
            CandleSetting::Near
        } else if i == 9 {
            CandleSetting::Far
        } else {
            CandleSetting::Equal
        }
    }

    /// Returns the range that the threshold is compared with.
    pub fn range_kind(self) -> (range: RangeKind)
        ensures
            range == self.range(),
    {
        match self {
            CandleSetting::BodyLong => RangeKind::RealBody,
            CandleSetting::BodyVeryLong => RangeKind::RealBody,
            CandleSetting::BodyShort => RangeKind::RealBody,
            CandleSetting::BodyDoji => RangeKind::HighLow,
            CandleSetting::ShadowLong => RangeKind::RealBody,
            CandleSetting::ShadowVeryLong => RangeKind::RealBody,
            CandleSetting::ShadowShort => RangeKind::HighLow,
            CandleSetting::ShadowVeryShort => RangeKind::HighLow,
            CandleSetting::Near => RangeKind::RealBody,
            CandleSetting::Far => RangeKind::RealBody,
            CandleSetting::Equal => RangeKind::RealBody,
        }
    }
}

/// Configuration parameters for the pattern recognition algorithms.
///
/// The factors are carried, never computed with, so the type is generic
/// in the number type `F` that the engine takes them in.
#[derive(Debug, Clone, Copy, PartialEq)]
pub struct Settings<F> {
    /// The lookback period for calculating average candle component sizes.
    pub period: i32,
    /// Factor for a candle body to be considered "long".
    pub body_long_factor: F,
    /// Factor for a candle body to be considered "very long".
    pub body_very_long_factor: F,
    /// Factor for a candle body to be considered "short".
    pub body_short_factor: F,
    /// Factor for a candle body to be considered a "doji".
    pub body_doji_factor: F,
    /// Factor for a candle shadow to be considered "long".
    pub shadow_long_factor: F,
    /// Factor for a candle shadow to be considered "very long".
    pub shadow_very_long_factor: F,
    /// Factor for a candle shadow to be considered "short".
    pub shadow_short_factor: F,
    /// Factor for a candle shadow to be considered "very short".
    pub shadow_very_short_factor: F,
    /// Factor for two prices to be considered "near" each other.
    pub near_factor: F,
    /// Factor for two prices to be considered "far" from each other.
    pub far_factor: F,
    /// Factor for two prices to be considered "equal".
    pub equal_factor: F,
    /// Penetration factor for the morning-star and evening-star patterns.
    pub star_penetration_factor: F,
    /// Penetration factor for the dark-cloud-cover and piercing patterns.
    pub piercing_penetration_factor: F,
}

/// One update of the engine: compare `setting` with the average `range`
/// of the last `period` candles, multiplied by `factor`.
#[derive(Debug, Clone, Copy, PartialEq)]
pub struct SettingUpdate<F> {
    /// The threshold that is set.
    pub setting: CandleSetting,
    /// The range it is measured against.
    pub range: RangeKind,
    /// The number of candles averaged over.
    pub period: i32,
    /// The multiplier.
    pub factor: F,
}

impl<F: Copy> Settings<F> {
    /// The factor that belongs to a threshold.
    pub open spec fn factor_of(self, setting: CandleSetting) -> F {
        match setting {
            CandleSetting::BodyLong => self.body_long_factor,
            CandleSetting::BodyVeryLong => self.body_very_long_factor,
            CandleSetting::BodyShort => self.body_short_factor,
            CandleSetting::BodyDoji => self.body_doji_factor,
            CandleSetting::ShadowLong => self.shadow_long_factor,
            CandleSetting::ShadowVeryLong => self.shadow_very_long_factor,
            CandleSetting::ShadowShort => self.shadow_short_factor,
            CandleSetting::ShadowVeryShort => self.shadow_very_short_factor,
            CandleSetting::Near => self.near_factor,
            CandleSetting::Far => self.far_factor,
            CandleSetting::Equal => self.equal_factor,
        }
    }

    /// The penetration factor of the given kind.
    pub open spec fn penetration_of(self, kind: Penetration) -> F {
        match kind {
            Penetration::Star => self.star_penetration_factor,
            Penetration::Piercing => self.piercing_penetration_factor,
        }
    }

    /// The penetration factors that these settings hold.
    pub open spec fn penetration_factors(self) -> PenetrationFactors<F> {
        PenetrationFactors {
            star: self.star_penetration_factor,
            piercing: self.piercing_penetration_factor,
        }
    }

    /// The update that installs one threshold from these settings.
    pub open spec fn update_of(self, setting: CandleSetting) -> SettingUpdate<F> {
        SettingUpdate {
            setting,
            range: setting.range(),
            period: self.period,
            factor: self.factor_of(setting),
        }
    }

    /// The updates that install these settings, in the order they are made.
    pub open spec fn updates(self) -> Seq<SettingUpdate<F>> {
        Seq::new(SETTING_COUNT as nat, |i: int| self.update_of(CandleSetting::at(i)))
    }

    /// Every threshold is installed by exactly one update, which carries
    /// the period and the threshold's own factor.
    pub proof fn lemma_every_threshold_updated_once(self, setting: CandleSetting)
        ensures
            exists|i: int|
                0 <= i < self.updates().len() && #[trigger] self.updates()[i] == self.update_of(
                    setting,
                ),
            forall|i: int, j: int|
                0 <= i < j < self.updates().len() ==> (#[trigger] self.updates()[i]).setting != (
                #[trigger] self.updates()[j]).setting,
    {
        let i: int = match setting {
            CandleSetting::BodyLong => 0,
            CandleSetting::BodyVeryLong => 1,
            CandleSetting::BodyShort => 2,
            CandleSetting::BodyDoji => 3,
            CandleSetting::ShadowLong => 4,
            CandleSetting::ShadowVeryLong => 5,
            CandleSetting::ShadowShort => 6,
            CandleSetting::ShadowVeryShort => 7,
            CandleSetting::Near => 8,
            CandleSetting::Far => 9,
            CandleSetting::Equal => 10,
        };
        assert(self.updates()[i] == self.update_of(setting));
    }

    /// Returns the penetration factor of the given kind.
    pub fn penetration(&self, kind: Penetration) -> (factor: F)
        ensures
            factor == self.penetration_of(kind),
    {
        match kind {
            Penetration::Star => self.star_penetration_factor,
            Penetration::Piercing => self.piercing_penetration_factor,
        }
    }

    /// Returns the update that installs one threshold from these settings.
    pub fn update(&self, setting: CandleSetting) -> (update: SettingUpdate<F>)
        ensures
            update == self.update_of(setting),
    {
        let factor = match setting {
            CandleSetting::BodyLong => self.body_long_factor,
            CandleSetting::BodyVeryLong => self.body_very_long_factor,
            CandleSetting::BodyShort => self.body_short_factor,
            CandleSetting::BodyDoji => self.body_doji_factor,
            CandleSetting::ShadowLong => self.shadow_long_factor,
            CandleSetting::ShadowVeryLong => self.shadow_very_long_factor,
            CandleSetting::ShadowShort => self.shadow_short_factor,
            CandleSetting::ShadowVeryShort => self.shadow_very_short_factor,
            CandleSetting::Near => self.near_factor,
            CandleSetting::Far => self.far_factor,
            CandleSetting::Equal => self.equal_factor,
        };
        SettingUpdate { setting, range: setting.range_kind(), period: self.period, factor }
    }

    /// Applies these settings: lists the updates that push every
    /// threshold into the engine, bodies first, then shadows, then price
    /// comparisons, all with the same period, and gives the two
    /// penetration factors that come into force with them, the star
    /// factor as the star factor and the piercing factor as the piercing
    /// factor. The settings themselves are left as they are.
    pub fn apply_settings(&self) -> (applied: (Vec<SettingUpdate<F>>, PenetrationFactors<F>))
        ensures
            applied.0@ == self.updates(),
            applied.1 == self.penetration_factors(),
    {
        let mut updates: Vec<SettingUpdate<F>> = Vec::new();
        updates.push(self.update(CandleSetting::BodyLong));
        updates.push(self.update(CandleSetting::BodyVeryLong));
        updates.push(self.update(CandleSetting::BodyShort));
        updates.push(self.update(CandleSetting::BodyDoji));

        updates.push(self.update(CandleSetting::ShadowLong));
        updates.push(self.update(CandleSetting::ShadowVeryLong));
        updates.push(self.update(CandleSetting::ShadowShort));
        updates.push(self.update(CandleSetting::ShadowVeryShort));

        updates.push(self.update(CandleSetting::Near));
        updates.push(self.update(CandleSetting::Far));
        updates.push(self.update(CandleSetting::Equal));
        assert(updates@ =~= self.updates());

        let penetration = PenetrationFactors {
            star: self.star_penetration_factor,
            piercing: self.piercing_penetration_factor,
        };
        (updates, penetration)
    }
}

/// A factor written as a whole number of hundredths: `Hundredths(25)` is
/// the factor 0.25.
#[derive(Debug, Clone, Copy, PartialEq, Eq, Structural)]
pub struct Hundredths(pub u32);

impl Settings<Hundredths> {
    /// The balanced default values. They are tuned for general use and
    /// differ in places from the engine's own defaults.
    pub open spec fn balanced() -> Self {
        Settings {
            period: 10,
            body_doji_factor: Hundredths(10),
            shadow_short_factor: Hundredths(10),
            equal_factor: Hundredths(25),
            body_long_factor: Hundredths(100),
            body_very_long_factor: Hundredths(300),
            body_short_factor: Hundredths(100),
            shadow_long_factor: Hundredths(100),
            shadow_very_long_factor: Hundredths(200),
            shadow_very_short_factor: Hundredths(5),
            near_factor: Hundredths(20),
            far_factor: Hundredths(60),
            star_penetration_factor: Hundredths(30),
            piercing_penetration_factor: Hundredths(50),
        }
    }
}

impl Default for Settings<Hundredths> {
    /// Creates `Settings` with balanced default values.
    fn default() -> (settings: Self)
        ensures
            settings == Self::balanced(),
    {
        Self {
            period: 10,
            body_doji_factor: Hundredths(10),
            shadow_short_factor: Hundredths(10),
            equal_factor: Hundredths(25),
            body_long_factor: Hundredths(100),
            body_very_long_factor: Hundredths(300),
            body_short_factor: Hundredths(100),
            shadow_long_factor: Hundredths(100),
            shadow_very_long_factor: Hundredths(200),
            shadow_very_short_factor: Hundredths(5),
            near_factor: Hundredths(20),
            far_factor: Hundredths(60),
            star_penetration_factor: Hundredths(30),
            piercing_penetration_factor: Hundredths(50),
        }
    }
}

} // verus!
