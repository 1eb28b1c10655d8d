//! What a caller may ask to have printed of a search's result.

use vstd::prelude::*;

verus! {

/// What is printed of a collection.
#[derive(Clone, Copy, Debug, PartialEq, Eq, Structural)]
pub enum PrintMode {
    /// Only the sum of the prices.
    Prices,
    /// The name of each card, one to a line.
    Names,
    /// The whole collection, then the sum of the prices.
    Full,
}

/// A selector that names no print mode.
#[derive(Clone, Copy, Debug, PartialEq, Eq, Structural)]
pub enum UsageError {
    UnknownPrintMode,
}

/// The print mode that a selector names: `prices`, `names` or `full`; without
/// a selector, the full print.
pub open spec fn print_mode_of(selector: Option<Seq<char>>) -> Result<PrintMode, UsageError> {
    match selector {
        None => Ok(PrintMode::Full),
        Some(word) => if word == "prices"@ {
            Ok(PrintMode::Prices)
        } else if word == "names"@ {
            Ok(PrintMode::Names)
        } else if word == "full"@ {
            Ok(PrintMode::Full)
        } else {
            Err(UsageError::UnknownPrintMode)
        },
    }
}

/// Reads the print mode from the selector that the caller gave, if any.
pub fn select_print_mode(selector: &Option<String>) -> (r: Result<PrintMode, UsageError>)
    ensures
        r == print_mode_of(selector.deep_view()),
{
    match selector {
        None => Ok(PrintMode::Full),
        Some(word) => {
            let prices = String::from_str("prices");
            let names = String::from_str("names");
            let full = String::from_str("full");
            if *word == prices {
                Ok(PrintMode::Prices)
            } else if *word == names {
                Ok(PrintMode::Names)
            } else if *word == full {
                Ok(PrintMode::Full)
            } else {
                Err(UsageError::UnknownPrintMode)
            }
        },
    }
}

} // verus!
