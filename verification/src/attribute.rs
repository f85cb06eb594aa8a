//! The attributes that a status text is read for, and what each accepts.

use vstd::prelude::*;
use vstd::string::*;
use crate::charge::ChargeState;
use crate::decimal::natural_of;
use crate::error::{Failure, ParseError};
use crate::extract::extraction;
use crate::quantity::Quantity;

verus! {

/// An attribute of the power supply, in the order in which a status text
/// is read for them.
#[derive(Debug, Clone, Copy, PartialEq, Eq)]
pub enum Attribute {
    /// Instantaneous power draw, in microwatts. Not every battery reports it.
    PowerNow,
    /// State of charge, in percent.
    Capacity,
    /// Voltage, in microvolts.
    VoltageNow,
    /// Energy left, in microwatt-hours.
    EnergyNow,
    /// Charge state, as a label.
    Status,
}

impl Attribute {
    /// The name under which the operating system exports the attribute.
    pub open spec fn key(self) -> Seq<char> {
        match self {
            Attribute::PowerNow => "POWER_SUPPLY_POWER_NOW"@,
            Attribute::Capacity => "POWER_SUPPLY_CAPACITY"@,
            Attribute::VoltageNow => "POWER_SUPPLY_VOLTAGE_NOW"@,
            Attribute::EnergyNow => "POWER_SUPPLY_ENERGY_NOW"@,
            Attribute::Status => "POWER_SUPPLY_STATUS"@,
        }
    }

    /// The attribute's place in the order of reading, from zero.
    pub open spec fn rank(self) -> int {
        match self {
            Attribute::PowerNow => 0,
            Attribute::Capacity => 1,
            Attribute::VoltageNow => 2,
            Attribute::EnergyNow => 3,
            Attribute::Status => 4,
        }
    }

    /// A text without the attribute cannot be read.
    pub open spec fn required(self) -> bool {
        !(self is PowerNow)
    }

    /// The attribute's value is a number.
    pub open spec fn numeric(self) -> bool {
        !(self is Status)
    }

    /// `raw` converts to the attribute's type: for the capacity a numeral
    /// without sign that a `usize` holds, for the charge state one of its
    /// labels, for the others a numeral with sign whose magnitude a `u64`
    /// holds.
    pub open spec fn accepts(self, raw: Seq<char>) -> bool {
        match self {
            Attribute::Capacity => natural_of(raw) matches Some(v) && v <= usize::MAX,
            Attribute::Status => ChargeState::from_label(raw) is Some,
            _ => Quantity::of_micro_text(raw) is Some,
        }
    }

    /// What the attribute expects of a value, as the end of a complaint.
    pub open spec fn expectation(self) -> Seq<char> {
        match self {
            Attribute::Status => ", expected either \"Charging\", \"Discharging\", \"Full\", \"Not charging\", or \"Unknown\""@,
            _ => " as a number"@,
        }
    }

    /// What is said of a raw value that the attribute does not accept: the
    /// value, the attribute's name, and what was expected.
    pub open spec fn complaint(self, raw: Seq<char>) -> Seq<char> {
        "failed to parse \""@ + raw + "\" for \""@ + self.key() + "\""@ + self.expectation()
    }

    /// The failure in which reading this attribute alone from `text` ends,
    /// if it fails. A required attribute whose name no line holds is not
    /// found; the power may be absent. A line that is read for the
    /// attribute and declares nothing is a value error, and so is a
    /// declared value that does not convert.
    pub open spec fn failure_in(self, text: Seq<char>) -> Option<Failure> {
        match extraction(text, self.key()) {
            Err(failure) => if failure is AttributeNotFound && !self.required() {
                None
            } else {
                Some(failure)
            },
            Ok(raw) => if self.accepts(raw) {
                None
            } else {
                Some(Failure::ValueError(self.complaint(raw)))
            },
        }
    }

    /// The name under which the operating system exports the attribute.
    pub fn name(self) -> (name: &'static str)
        ensures
            name@ == self.key(),
    {
        match self {
            Attribute::PowerNow => "POWER_SUPPLY_POWER_NOW",
            Attribute::Capacity => "POWER_SUPPLY_CAPACITY",
            Attribute::VoltageNow => "POWER_SUPPLY_VOLTAGE_NOW",
            Attribute::EnergyNow => "POWER_SUPPLY_ENERGY_NOW",
            Attribute::Status => "POWER_SUPPLY_STATUS",
        }
    }

    /// What the attribute expects of a value, as the end of a complaint.
    fn expectation_text(self) -> (end: &'static str)
        ensures
            end@ == self.expectation(),
    {
        match self {
            Attribute::Status => ", expected either \"Charging\", \"Discharging\", \"Full\", \"Not charging\", or \"Unknown\"",
            _ => " as a number",
        }
    }

    /// The error for a raw value that the attribute does not accept.
    pub fn value_error(self, raw: &str) -> (e: ParseError)
        ensures
            e@ == Failure::ValueError(self.complaint(raw@)),
    {
        let mut reason = String::from_str("failed to parse \"");
        reason.append(raw);
        reason.append("\" for \"");
        reason.append(self.name());
        reason.append("\"");
        reason.append(self.expectation_text());
        ParseError::ValueError(reason)
    }
}

} // verus!
