//! Candlestick pattern signals: the verified core around a native
//! pattern-recognition engine.
//!
//! The engine itself computes, for a series of candles, one integer per
//! candle of a window that starts after its warm-up. This library holds
//! what surrounds such a call: the rules a candle must keep to be let in,
//! the settings and in which order they are installed, the table from
//! patterns to engine functions, the filter that splits a two-sided
//! function into a bullish and a bearish pattern, and the expansion of the
//! engine's window into one optional [`Signal`] per candle.

pub mod candles;
pub mod config;
pub mod engine;
pub mod error;
pub mod functions;
pub mod patterns;
pub mod settings;
pub mod signal;

pub use crate::error::Error;
pub use crate::patterns::Pattern;
pub use crate::settings::Settings;
pub use crate::signal::{Quality, Signal};
