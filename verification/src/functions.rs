//! The dispatch table from patterns to calculation primitives, and the
//! directional filter that splits a two-sided primitive into one-sided
//! signals.

use vstd::prelude::*;
use crate::patterns::Pattern;
use crate::settings::Penetration;

verus! {

/// A calculation of the engine. Each takes a range of candles as four
/// parallel price arrays and writes one integer per candle of its output
/// window.
#[derive(Debug, Clone, Copy, PartialEq, Eq, Structural)]
pub enum EngineFunction {
    /// Hammer.
    Hammer,
    /// Inverted hammer.
    InvertedHammer,
    /// Three advancing white soldiers.
    ThreeWhiteSoldiers,
    /// Piercing pattern.
    Piercing,
    /// Dragonfly doji.
    DragonflyDoji,
    /// Hanging man.
    HangingMan,
    /// Shooting star.
    ShootingStar,
    /// Three black crows.
    ThreeBlackCrows,
    /// Gravestone doji.
    GravestoneDoji,
    /// Doji.
    Doji,
    /// Spinning top.
    SpinningTop,
    /// Morning star; takes a penetration factor.
    MorningStar,
    /// Evening star; takes a penetration factor.
    EveningStar,
    /// Dark cloud cover; takes a penetration factor.
    DarkCloudCover,
    /// Engulfing pattern; positive when bullish, negative when bearish.
    Engulfing,
    /// Harami pattern; positive when bullish, negative when bearish.
    Harami,
    /// Harami cross pattern; positive when bullish, negative when bearish.
    HaramiCross,
    /// Marubozu; positive when bullish, negative when bearish.
    Marubozu,
    /// Long line candle; positive when bullish, negative when bearish.
    LongLine,
    /// Short line candle; positive when bullish, negative when bearish.
    ShortLine,
    /// Kicking; positive when bullish, negative when bearish.
    Kicking,
}

/// The side of a two-sided primitive that a pattern keeps.
#[derive(Debug, Clone, Copy, PartialEq, Eq, Structural)]
pub enum Filter {
    /// Keep positive values.
    Bullish,
    /// Keep negative values.
    Bearish,
}

/// How a pattern is computed.
#[derive(Debug, Clone, Copy, PartialEq, Eq, Structural)]
pub enum Primitive {
    /// The engine function is called as it is.
    Direct(EngineFunction),
    /// The engine function is called with the configured penetration
    /// factor of the given kind.
    PenetrationAdapted(EngineFunction, Penetration),
    /// The engine function is called and its output collapsed to one side.
    DirectionalFilter(EngineFunction, Filter),
}

/// The status that an engine call ends with.
#[derive(Debug)]
pub enum RetCode {
    /// The call succeeded and its output can be read.
    Success,
    /// The call failed; the text is the engine's description of why.
    Failure(String),
}

impl EngineFunction {
    /// The penetration factor that the function takes, if it takes one.
    pub open spec fn penetration(self) -> Option<Penetration> {
        match self {
            EngineFunction::MorningStar | EngineFunction::EveningStar => Some(Penetration::Star),
            EngineFunction::DarkCloudCover => Some(Penetration::Piercing),
            _ => None,
        }
    }

    /// Whether the sign of the function's output tells bullish from bearish.
    pub open spec fn two_sided(self) -> bool {
        match self {
            EngineFunction::Engulfing
            | EngineFunction::Harami
            | EngineFunction::HaramiCross
            | EngineFunction::Marubozu
            | EngineFunction::LongLine
            | EngineFunction::ShortLine
            | EngineFunction::Kicking => true,
            _ => false,
        }
    }
}

impl Pattern {
    /// The engine function that computes the pattern.
    pub open spec fn engine_function(self) -> EngineFunction {
        match self {
            Pattern::Hammer => EngineFunction::Hammer,
            Pattern::InvertedHammer => EngineFunction::InvertedHammer,
            Pattern::ThreeWhiteSoldiers => EngineFunction::ThreeWhiteSoldiers,
            Pattern::MorningStar => EngineFunction::MorningStar,
            Pattern::PiercingLine => EngineFunction::Piercing,
            Pattern::DragonFly => EngineFunction::DragonflyDoji,
            Pattern::HangingMan => EngineFunction::HangingMan,
            Pattern::ShootingStar => EngineFunction::ShootingStar,
            Pattern::ThreeBlackCrows => EngineFunction::ThreeBlackCrows,
            Pattern::EveningStar => EngineFunction::EveningStar,
            Pattern::DarkCloudCover => EngineFunction::DarkCloudCover,
            Pattern::Gravestone => EngineFunction::GravestoneDoji,
            Pattern::Doji => EngineFunction::Doji,
            Pattern::SpinningTop => EngineFunction::SpinningTop,
            Pattern::BullishEngulfing | Pattern::BearishEngulfing => EngineFunction::Engulfing,
            Pattern::BullishHarami | Pattern::BearishHarami => EngineFunction::Harami,
            Pattern::BullishHaramiCross | Pattern::BearishHaramiCross => {
                EngineFunction::HaramiCross
            },
            Pattern::BullishMarubozu | Pattern::BearishMarubozu => EngineFunction::Marubozu,
            Pattern::BullishLongLine | Pattern::BearishLongLine => EngineFunction::LongLine,
            Pattern::BullishShortLine | Pattern::BearishShortLine => EngineFunction::ShortLine,
            Pattern::BullishKicking | Pattern::BearishKicking => EngineFunction::Kicking,
        }
    }

    /// The side that the pattern keeps, if it is one half of a two-sided
    /// primitive.
    pub open spec fn side(self) -> Option<Filter> {
        match self {
            Pattern::BullishEngulfing
            | Pattern::BullishHarami
            | Pattern::BullishHaramiCross
            | Pattern::BullishMarubozu
            | Pattern::BullishLongLine
            | Pattern::BullishShortLine
            | Pattern::BullishKicking => Some(Filter::Bullish),
            Pattern::BearishEngulfing
            | Pattern::BearishHarami
            | Pattern::BearishHaramiCross
            | Pattern::BearishMarubozu
            | Pattern::BearishLongLine
            | Pattern::BearishShortLine
            | Pattern::BearishKicking => Some(Filter::Bearish),
            _ => None,
        }
    }

    /// The primitive that the pattern is dispatched to: filtered where the
    /// pattern is one side of a two-sided function, given a penetration
    /// factor where the function takes one, direct otherwise.
    pub open spec fn primitive(self) -> Primitive {
        let function = self.engine_function();
        match self.side() {
            Some(filter) => Primitive::DirectionalFilter(function, filter),
            None => match function.penetration() {
                Some(kind) => Primitive::PenetrationAdapted(function, kind),
                None => Primitive::Direct(function),
            },
        }
    }

    /// Looks up the calculation primitive of a pattern.
    pub fn ta_lib_function(&self) -> (primitive: Primitive)
        ensures
            primitive == self.primitive(),
            primitive.well_formed(),
    {
        match self {
            Pattern::Hammer => Primitive::Direct(EngineFunction::Hammer),
            Pattern::InvertedHammer => Primitive::Direct(EngineFunction::InvertedHammer),
            Pattern::ThreeWhiteSoldiers => Primitive::Direct(EngineFunction::ThreeWhiteSoldiers),
            Pattern::PiercingLine => Primitive::Direct(EngineFunction::Piercing),
            Pattern::DragonFly => Primitive::Direct(EngineFunction::DragonflyDoji),

            Pattern::HangingMan => Primitive::Direct(EngineFunction::HangingMan),
            Pattern::ShootingStar => Primitive::Direct(EngineFunction::ShootingStar),
            Pattern::ThreeBlackCrows => Primitive::Direct(EngineFunction::ThreeBlackCrows),
            Pattern::Gravestone => Primitive::Direct(EngineFunction::GravestoneDoji),

            Pattern::Doji => Primitive::Direct(EngineFunction::Doji),
            Pattern::SpinningTop => Primitive::Direct(EngineFunction::SpinningTop),

            Pattern::MorningStar => {
                Primitive::PenetrationAdapted(EngineFunction::MorningStar, Penetration::Star)
            },
            Pattern::EveningStar => {
                Primitive::PenetrationAdapted(EngineFunction::EveningStar, Penetration::Star)
            },
            Pattern::DarkCloudCover => {
                Primitive::PenetrationAdapted(EngineFunction::DarkCloudCover, Penetration::Piercing)
            },

            Pattern::BullishEngulfing => bullish(EngineFunction::Engulfing),
            Pattern::BearishEngulfing => bearish(EngineFunction::Engulfing),

            Pattern::BullishHarami => bullish(EngineFunction::Harami),
            Pattern::BearishHarami => bearish(EngineFunction::Harami),

            Pattern::BullishHaramiCross => bullish(EngineFunction::HaramiCross),
            Pattern::BearishHaramiCross => bearish(EngineFunction::HaramiCross),

            Pattern::BullishMarubozu => bullish(EngineFunction::Marubozu),
            Pattern::BearishMarubozu => bearish(EngineFunction::Marubozu),

            Pattern::BullishLongLine => bullish(EngineFunction::LongLine),
            Pattern::BearishLongLine => bearish(EngineFunction::LongLine),

            Pattern::BullishShortLine => bullish(EngineFunction::ShortLine),
            Pattern::BearishShortLine => bearish(EngineFunction::ShortLine),

            Pattern::BullishKicking => bullish(EngineFunction::Kicking),
            Pattern::BearishKicking => bearish(EngineFunction::Kicking),
        }
    }
}

/// The bullish view of a two-sided function.
fn bullish(function: EngineFunction) -> (primitive: Primitive)
    ensures
        primitive == Primitive::DirectionalFilter(function, Filter::Bullish),
{
    Primitive::DirectionalFilter(function, Filter::Bullish)
}

/// The bearish view of a two-sided function.
fn bearish(function: EngineFunction) -> (primitive: Primitive)
    ensures
        primitive == Primitive::DirectionalFilter(function, Filter::Bearish),
{
    Primitive::DirectionalFilter(function, Filter::Bearish)
}

impl Primitive {
    /// The engine function behind the primitive.
    pub open spec fn function(self) -> EngineFunction {
        match self {
            Primitive::Direct(function) => function,
            Primitive::PenetrationAdapted(function, _) => function,
            Primitive::DirectionalFilter(function, _) => function,
        }
    }

    /// A primitive is well formed when its shape fits its engine function:
    /// a penetration factor is injected exactly where the function takes
    /// one, and of that kind; only two-sided functions are filtered.
    pub open spec fn well_formed(self) -> bool {
        match self {
            Primitive::Direct(function) => function.penetration() is None && !function.two_sided(),
            Primitive::PenetrationAdapted(function, kind) => function.penetration() == Some(kind),
            Primitive::DirectionalFilter(function, _) => function.two_sided(),
        }
    }

    /// Returns the engine function behind the primitive.
    pub fn engine_function(&self) -> (function: EngineFunction)
        ensures
            function == self.function(),
    {
        match self {
            Primitive::Direct(function) => *function,
            Primitive::PenetrationAdapted(function, _) => *function,
            Primitive::DirectionalFilter(function, _) => *function,
        }
    }
}

/// What the filter makes of one raw value: 100 where the value lies on the
/// filter's side of zero, 0 elsewhere.
pub open spec fn filtered(filter: Filter, value: i32) -> i32 {
    match filter {
        Filter::Bullish => if value > 0 { 100i32 } else { 0i32 },
        Filter::Bearish => if value < 0 { 100i32 } else { 0i32 },
    }
}

/// A buffer whose first `count` values are filtered and whose other values
/// are kept. A `count` below 1 filters nothing; one beyond the buffer
/// filters all of it.
pub open spec fn filter_window(filter: Filter, values: Seq<i32>, count: int) -> Seq<i32> {
    Seq::new(
        values.len(),
        |i: int| if i < count { filtered(filter, values[i]) } else { values[i] },
    )
}

/// Collapses the output of a two-sided engine function to one side.
///
/// Where the call succeeded, each of the first `out_nb_element` values of
/// `out_integer` becomes 100 if it lies on the side of `filter_type`, else
/// 0; the rest of the buffer is left alone. Where the call failed the
/// buffer is not touched.
pub fn filter_wrapper(
    filter_type: Filter,
    ret_code: &RetCode,
    out_nb_element: i32,
    out_integer: &mut Vec<i32>,
)
    ensures
        *ret_code is Success ==> final(out_integer)@ == filter_window(
            filter_type,
            old(out_integer)@,
            out_nb_element as int,
        ),
        !(*ret_code is Success) ==> final(out_integer)@ == old(out_integer)@,
{
    match ret_code {
        RetCode::Success => {
            let len = out_integer.len();
            let window: usize = if out_nb_element <= 0 {
                0
            } else if (out_nb_element as usize) < len {
                out_nb_element as usize
            } else {
                len
            };
            let mut i: usize = 0;
            while i < window
                invariant
                    i <= window <= len,
                    len == out_integer@.len(),
                    out_integer@.len() == old(out_integer)@.len(),
                    forall|j: int|
                        0 <= j < i ==> out_integer@[j] == filtered(filter_type, old(out_integer)@[j]),
                    forall|j: int| i <= j < len ==> out_integer@[j] == old(out_integer)@[j],
                decreases window - i,
            {
                let value = out_integer[i];
                let kept: i32 = match filter_type {
                    Filter::Bullish => if value > 0 { 100 } else { 0 },
                    Filter::Bearish => if value < 0 { 100 } else { 0 },
                };
                out_integer.set(i, kept);
                i = i + 1;
            }
            assert(out_integer@ =~= filter_window(
                filter_type,
                old(out_integer)@,
                out_nb_element as int,
            ));
        },
        RetCode::Failure(_) => {},
    }
}

impl Primitive {
    /// What the primitive leaves in the output buffer of its engine
    /// function: the buffer as the engine wrote it, or, where the primitive
    /// filters and the call succeeded, its filtered window.
    pub open spec fn output(self, success: bool, values: Seq<i32>, count: int) -> Seq<i32> {
        match self {
            Primitive::DirectionalFilter(_, filter) if success => filter_window(
                filter,
                values,
                count,
            ),
            _ => values,
        }
    }

    /// Rewrites the output buffer of the primitive's engine function into
    /// the output of the primitive itself.
    pub fn post_process(&self, ret_code: &RetCode, out_nb_element: i32, out_integer: &mut Vec<i32>)
        ensures
            final(out_integer)@ == self.output(
                *ret_code is Success,
                old(out_integer)@,
                out_nb_element as int,
            ),
    {
        match self {
            Primitive::DirectionalFilter(_, filter) => {
                filter_wrapper(*filter, ret_code, out_nb_element, out_integer)
            },
            _ => {},
        }
    }
}

} // verus!
