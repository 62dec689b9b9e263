//! Board-level bring-up errors.

use vstd::prelude::*;

use crate::display::DisplayInitError;

verus! {

/// Errors that can occur during board initialization.
#[derive(Debug, Clone, Copy, PartialEq, Eq, Structural)]
#[non_exhaustive]
pub enum BoardInitError {
    /// HCLK frequency could not be determined from the RCC clock tree.
    /// This should never happen after a valid `config_180()` / `config_168()` call.
    HclkUnavailable,
    /// Display initialization failed.
    Display(DisplayInitError),
}

impl From<DisplayInitError> for BoardInitError {
    fn from(e: DisplayInitError) -> (r: Self)
        ensures
            r == BoardInitError::Display(e),
    {
        BoardInitError::Display(e)
    }
}

impl vstd::std_specs::convert::FromSpecImpl<DisplayInitError> for BoardInitError {
    open spec fn obeys_from_spec() -> bool {
        true
    }

    open spec fn from_spec(e: DisplayInitError) -> Self {
        BoardInitError::Display(e)
    }
}

/// Clock that drives the SDRAM controller: the HCLK frequency in Hz when the
/// clock tree reports one, else [`BoardInitError::HclkUnavailable`].
pub fn sdram_source_clock_hz(hclk_hz: Option<u32>) -> (r: Result<u32, BoardInitError>)
    ensures
        r == match hclk_hz {
            Some(f) => Ok::<u32, BoardInitError>(f),
            None => Err(BoardInitError::HclkUnavailable),
        },
{
    match hclk_hz {
        Some(f) => Ok(f),
        None => Err(BoardInitError::HclkUnavailable),
    }
}

} // verus!
