//! Error type of the library.

use vstd::prelude::*;
use vstd::string::StringExecFns;

verus! {

/// An enum representing all possible errors in the library.
#[derive(Debug)]
pub enum Error {
    /// An error from the underlying calculation engine.
    CalculationError(String),
    /// An attempt was made to configure the library more than once.
    AlreadyConfigured,
    /// Provided candle data was invalid (e.g., `high < low`).
    InvalidCandle(String),
}

/// What an [`Error`] says, with its text as a sequence of characters.
pub enum ErrorView {
    /// The engine reported a failure; the text describes it.
    CalculationError(Seq<char>),
    /// Configuration was attempted more than once.
    AlreadyConfigured,
    /// A candle broke a price rule; the text names the rule.
    InvalidCandle(Seq<char>),
}

impl View for Error {
    type V = ErrorView;

    open spec fn view(&self) -> ErrorView {
        match self {
            Error::CalculationError(reason) => ErrorView::CalculationError(reason@),
            Error::AlreadyConfigured => ErrorView::AlreadyConfigured,
            Error::InvalidCandle(reason) => ErrorView::InvalidCandle(reason@),
        }
    }
}

impl ErrorView {
    /// The text that the error is displayed as.
    pub open spec fn text(self) -> Seq<char> {
        match self {
            ErrorView::CalculationError(reason) => "Calculation error: "@ + reason,
            ErrorView::AlreadyConfigured => "Already Configured"@,
            ErrorView::InvalidCandle(reason) => "Invalid Candle: "@ + reason,
        }
    }
}

impl Error {
    /// Renders the error as text: the kind of error, then its reason.
    pub fn to_string(&self) -> (text: String)
        ensures
            text@ == self@.text(),
    {
        match self {
            Error::CalculationError(reason) => {
                String::from_str("Calculation error: ").concat(reason.as_str())
            },
            Error::AlreadyConfigured => String::from_str("Already Configured"),
            Error::InvalidCandle(reason) => {
                String::from_str("Invalid Candle: ").concat(reason.as_str())
            },
        }
    }
}

} // verus!
