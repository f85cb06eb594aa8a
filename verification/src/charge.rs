//! The battery's charge state and the labels it goes by.

use vstd::prelude::*;
use vstd::string::*;
use crate::error::{Failure, ParseError};
use crate::text::{chars_of, same_text};

verus! {

/// State of the charge process.
#[derive(Debug, Clone, Copy, PartialEq, Eq)]
pub enum ChargeState {
    /// The state is not known.
    Unknown,
    /// The battery is charging.
    Charging,
    /// The battery is discharging.
    Discharging,
    /// The battery is neither charging nor discharging.
    NotCharging,
    /// The battery is full.
    Full,
}

impl ChargeState {
    /// The state that the operating system reports under `label`. The
    /// label has to match one of the five exactly, letter for letter.
    pub open spec fn from_label(label: Seq<char>) -> Option<ChargeState> {
        if label == "Charging"@ {
            Some(ChargeState::Charging)
        } else if label == "Discharging"@ {
            Some(ChargeState::Discharging)
        } else if label == "Full"@ {
            Some(ChargeState::Full)
        } else if label == "Not charging"@ {
            Some(ChargeState::NotCharging)
        } else if label == "Unknown"@ {
            Some(ChargeState::Unknown)
        } else {
            None
        }
    }

    /// The text under which the state is shown and logged.
    pub open spec fn label(self) -> Seq<char> {
        match self {
            ChargeState::Unknown => "unknown"@,
            ChargeState::Charging => "charging"@,
            ChargeState::Discharging => "discharging"@,
            ChargeState::NotCharging => "not_charging"@,
            ChargeState::Full => "full"@,
        }
    }

    /// What is said of a label that names no state.
    pub open spec fn complaint(label: Seq<char>) -> Seq<char> {
        "failed to parse \""@ + label
            + "\", expected either \"Charging\", \"Discharging\", \"Full\", \"Not charging\", or \"Unknown\""@
    }

    /// The text under which the state is shown and logged.
    pub fn as_str(&self) -> (label: &'static str)
        ensures
            label@ == self.label(),
    {
        match self {
            ChargeState::Unknown => "unknown",
            ChargeState::Charging => "charging",
            ChargeState::Discharging => "discharging",
            ChargeState::NotCharging => "not_charging",
            ChargeState::Full => "full",
        }
    }

    /// The state's label as an owned text.
    pub fn to_string(&self) -> (out: String)
        ensures
            out@ == self.label(),
    {
        String::from_str(self.as_str())
    }
}

impl TryFrom<&str> for ChargeState {
    type Error = ParseError;

    /// Reads a state from the label that the operating system reports. A
    /// text that is none of the five labels is a `ValueError` that cites it.
    fn try_from(value: &str) -> (r: Result<ChargeState, ParseError>)
        ensures
            match ChargeState::from_label(value@) {
                Some(state) => r == Ok::<ChargeState, ParseError>(state),
                None => r matches Err(e) && e@ == Failure::ValueError(
                    ChargeState::complaint(value@),
                ),
            },
    {
        let label = chars_of(value);
        if same_text(&label, "Charging") {
            Ok(ChargeState::Charging)
        } else if same_text(&label, "Discharging") {
            Ok(ChargeState::Discharging)
        } else if same_text(&label, "Full") {
            Ok(ChargeState::Full)
        } else if same_text(&label, "Not charging") {
            Ok(ChargeState::NotCharging)
        } else if same_text(&label, "Unknown") {
            Ok(ChargeState::Unknown)
        } else {
            let mut reason = String::from_str("failed to parse \"");
            reason.append(value);
            reason.append(
                "\", expected either \"Charging\", \"Discharging\", \"Full\", \"Not charging\", or \"Unknown\"",
            );
            Err(ParseError::ValueError(reason))
        }
    }
}

/// The conversion's result holds a `String` where it fails, so it is stated
/// over views, by the contract of `try_from` itself, and not as a value.
impl vstd::std_specs::convert::TryFromSpecImpl<&str> for ChargeState {
    open spec fn obeys_try_from_spec() -> bool {
        false
    }

    open spec fn try_from_spec(value: &str) -> Result<ChargeState, ParseError> {
        arbitrary()
    }
}

} // verus!
