//! Around one call of the engine: the range it is asked for, what its
//! status means, and how the window it computed becomes one slot per
//! candle.

use vstd::prelude::*;
use vstd::string::StringExecFns;
use crate::error::{Error, ErrorView};
use crate::functions::{Primitive, RetCode};
use crate::signal::{is_signal_of, Signal};

verus! {

/// The largest number of candles whose last index the engine can take.
pub const MAX_CANDLES: usize = 0x8000_0000;

/// The text of the error that an engine failure with the given
/// description is reported as.
pub open spec fn failure_text(description: Seq<char>) -> Seq<char> {
    "TA-Lib error: "@ + description
}

/// Turns the status of an engine call into a result: a failure becomes a
/// calculation error that carries the engine's description.
pub fn map_error(res: RetCode) -> (mapped: Result<(), Error>)
    ensures
        match res {
            RetCode::Success => mapped is Ok,
            RetCode::Failure(description) => mapped matches Err(e) && e@
                == ErrorView::CalculationError(failure_text(description@)),
        },
{
    match res {
        RetCode::Success => Ok(()),
        RetCode::Failure(description) => Err(
            Error::CalculationError(String::from_str("TA-Lib error: ").concat(description.as_str())),
        ),
    }
}

/// Whether the engine's window of `count` values, starting at candle
/// `begin_index`, is one that can be copied: it holds something, all of
/// it was computed, and it lies within the series.
pub open spec fn window_fits(begin_index: int, count: int, computed: int, input_length: int) -> bool {
    &&& 0 < count <= computed
    &&& 0 <= begin_index
    &&& begin_index + count <= input_length
}

/// The raw value of every candle: the value that the engine computed for
/// it where the candle lies in a window that fits, and 0 everywhere else.
pub open spec fn dense(
    begin_index: int,
    count: int,
    compact_values: Seq<i32>,
    input_length: nat,
) -> Seq<i32> {
    Seq::new(
        input_length,
        |i: int|
            if window_fits(begin_index, count, compact_values.len() as int, input_length as int)
                && begin_index <= i < begin_index + count {
                compact_values[i - begin_index]
            } else {
                0i32
            },
    )
}

/// The score that a raw value is read as: its lowest eight bits.
pub open spec fn low_byte(value: i32) -> u8 {
    (value as int % 256) as u8
}

/// Whether `signals` holds, for every raw value, the slot that the value
/// stands for: no signal where its score is 0, else a signal of that
/// score, capped at 100.
pub open spec fn signals_of(signals: Seq<Option<Signal>>, values: Seq<i32>) -> bool {
    &&& signals.len() == values.len()
    &&& forall|i: int|
        0 <= i < values.len() ==> is_signal_of(#[trigger] signals[i], low_byte(values[i]))
}

/// The slots are determined by the raw values they stand for.
pub proof fn lemma_signals_unique(a: Seq<Option<Signal>>, b: Seq<Option<Signal>>, values: Seq<i32>)
    requires
        signals_of(a, values),
        signals_of(b, values),
    ensures
        a == b,
{
    assert forall|i: int| 0 <= i < values.len() implies a[i] == b[i] by {
        Signal::lemma_slot_unique(a[i], b[i], low_byte(values[i]));
    }
    assert(a =~= b);
}

/// A detection strength from 1 to 100 is reported as a signal of exactly
/// that quality, and a strength of 0 as no signal.
pub proof fn lemma_strength_is_kept(signals: Seq<Option<Signal>>, values: Seq<i32>, i: int)
    requires
        signals_of(signals, values),
        0 <= i < values.len(),
        0 <= values[i] <= 100,
    ensures
        values[i] == 0 ==> signals[i] is None,
        values[i] != 0 ==> (signals[i] matches Some(signal) && signal.quality@ == values[i]),
{
    assert(is_signal_of(signals[i], low_byte(values[i])));
}

fn score_of(value: i32) -> (score: u8)
    ensures
        score == low_byte(value),
{
    assert(value as u8 == (value as int % 256)) by (bit_vector);
    #[verifier::truncate]
    (value as u8)
}

/// Expands the window that the engine computed into one slot per candle.
///
/// The engine reports `count` values, the first of which belongs to the
/// candle at `begin_index`. Each of them is placed at its candle, all
/// other candles get no signal. A window that does not fit the series is
/// not copied at all.
pub fn reconstruct(
    begin_index: i32,
    count: i32,
    compact_values: &Vec<i32>,
    input_length: usize,
) -> (signals: Vec<Option<Signal>>)
    ensures
        signals@.len() == input_length,
        signals_of(
            signals@,
            dense(begin_index as int, count as int, compact_values@, input_length as nat),
        ),
{
    let fits = count > 0 && begin_index >= 0 && count as usize <= compact_values.len()
        && begin_index as usize <= input_length && count as usize <= input_length
        - begin_index as usize;
    let start: usize = if fits {
        begin_index as usize
    } else {
        0
    };
    let end: usize = if fits {
        begin_index as usize + count as usize
    } else {
        0
    };
    let ghost values = dense(begin_index as int, count as int, compact_values@, input_length as nat);
    let mut signals: Vec<Option<Signal>> = Vec::new();
    let mut i: usize = 0;
    while i < input_length
        invariant
            i <= input_length,
            signals@.len() == i,
            fits == window_fits(
                begin_index as int,
                count as int,
                compact_values@.len() as int,
                input_length as int,
            ),
            fits ==> start == begin_index && end == begin_index + count,
            values == dense(begin_index as int, count as int, compact_values@, input_length as nat),
            forall|j: int| 0 <= j < i ==> is_signal_of(#[trigger] signals@[j], low_byte(values[j])),
        decreases input_length - i,
    {
        let value: i32 = if fits && start <= i && i < end {
            compact_values[i - start]
        } else {
            0
        };
        signals.push(Signal::try_from_quality(score_of(value)));
        i = i + 1;
    }
    signals
}

/// Turns the output of a successful engine call into one slot per candle.
/// The output buffer has one place per candle, of which the engine filled
/// the first `out_nb_element`, for the candles from `out_beg_idx` on.
pub fn map_ok(out_beg_idx: i32, out_nb_element: i32, out_arr: Vec<i32>) -> (mapped: Result<
    Vec<Option<Signal>>,
    Error,
>)
    ensures
        mapped matches Ok(signals) && signals@.len() == out_arr@.len() && signals_of(
            signals@,
            dense(out_beg_idx as int, out_nb_element as int, out_arr@, out_arr@.len()),
        ),
{
    let input_length = out_arr.len();
    Ok(reconstruct(out_beg_idx, out_nb_element, &out_arr, input_length))
}

/// One call of the engine: what it is asked for, and where it leaves its
/// answer.
///
/// The engine is handed the range and the four price arrays of the
/// series. It writes the values it computed to the front of
/// `out_integer`, their number to `out_nb_element`, and the index of the
/// candle that the first of them belongs to to `out_beg_idx`.
#[derive(Debug)]
pub struct EngineCall {
    /// The primitive that is called.
    pub primitive: Primitive,
    /// Index of the first candle to compute.
    pub start_idx: i32,
    /// Index of the last candle to compute; -1 for an empty series, which
    /// the engine refuses.
    pub end_idx: i32,
    /// Index of the candle that the first computed value belongs to.
    pub out_beg_idx: i32,
    /// Number of computed values.
    pub out_nb_element: i32,
    /// The output buffer, with one place per candle.
    pub out_integer: Vec<i32>,
}

impl EngineCall {
    /// The raw value of every candle once the engine has answered with
    /// success: the primitive's output, taken from the window to the
    /// candles it belongs to.
    pub open spec fn values(self) -> Seq<i32> {
        dense(
            self.out_beg_idx as int,
            self.out_nb_element as int,
            self.primitive.output(true, self.out_integer@, self.out_nb_element as int),
            self.out_integer@.len(),
        )
    }

    /// Prepares a call of `primitive` on a series of `len` candles: the
    /// range from the first candle to the last, an empty window, and an
    /// output buffer of `len` zeros. Returns `None` where the index of the
    /// last candle does not fit the engine's 32-bit indices.
    pub fn new(primitive: Primitive, len: usize) -> (prepared: Option<Self>)
        ensures
            len <= MAX_CANDLES <==> prepared is Some,
            prepared matches Some(call) ==> {
                &&& call.primitive == primitive
                &&& call.start_idx == 0
                &&& call.end_idx == len - 1
                &&& call.out_beg_idx == 0
                &&& call.out_nb_element == 0
                &&& call.out_integer@ == Seq::new(len as nat, |i: int| 0i32)
            },
    {
        if len > MAX_CANDLES {
            return None;
        }
        let end_idx: i32 = if len == 0 {
            -1
        } else {
            (len - 1) as i32
        };
        let out_integer: Vec<i32> = vec![0; len];
        assert(out_integer@ =~= Seq::new(len as nat, |i: int| 0i32));
        Some(
            EngineCall {
                primitive,
                start_idx: 0,
                end_idx,
                out_beg_idx: 0,
                out_nb_element: 0,
                out_integer,
            },
        )
    }

    /// Finishes the call once the engine has run and returned `ret_code`.
    ///
    /// A failure is reported as a calculation error, and the buffer is not
    /// read. On success the primitive's filter, if it has one, is applied
    /// to the window, and the window is expanded into one slot for each
    /// place of the buffer, that is, for each candle of the series.
    pub fn finish(self, ret_code: RetCode) -> (finished: Result<Vec<Option<Signal>>, Error>)
        ensures
            match ret_code {
                RetCode::Success => finished matches Ok(signals) && signals@.len()
                    == self.out_integer@.len() && signals_of(signals@, self.values()),
                RetCode::Failure(description) => finished matches Err(e) && e@
                    == ErrorView::CalculationError(failure_text(description@)),
            },
    {
        let mut out_arr = self.out_integer;
        self.primitive.post_process(&ret_code, self.out_nb_element, &mut out_arr);
        match map_error(ret_code) {
            Err(e) => Err(e),
            Ok(()) => map_ok(self.out_beg_idx, self.out_nb_element, out_arr),
        }
    }
}

} // verus!
