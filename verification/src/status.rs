//! The battery status record: read from a status text, shown, and logged.

use vstd::prelude::*;
use vstd::string::*;
use crate::attribute::Attribute;
use crate::charge::ChargeState;
use crate::clock::seconds_since_epoch;
use crate::decimal::{append_decimal, decimal_text, natural_of, read_natural};
use crate::error::{Failure, ParseError};
use crate::extract::{attribute_value, extract_value_for, extraction};
use crate::quantity::Quantity;

verus! {

/// One reading of the battery. A record is either complete or does not
/// exist: it comes from a status text in which every required attribute
/// was found and converted.
#[derive(Debug, Clone, Copy, PartialEq, Eq)]
pub struct BatteryStatus {
    /// When the record was made, in seconds since the Unix epoch.
    pub moment: u64,
    /// The charge state.
    pub charge_state: ChargeState,
    /// Voltage, in volts.
    pub voltage: Quantity,
    /// Energy left, in watt-hours.
    pub energy: Quantity,
    /// Instantaneous power draw, in watts, where the battery reports it.
    pub consumption: Option<Quantity>,
    /// State of charge, in percent. Expected within 0 to 100; not enforced.
    pub capacity: usize,
}

impl BatteryStatus {
    /// The first failure met when `text` is read for the attributes in
    /// their order, or `None` where every one of them reads.
    pub open spec fn first_failure(text: Seq<char>) -> Option<Failure> {
        if Attribute::PowerNow.failure_in(text) is Some {
            Attribute::PowerNow.failure_in(text)
        } else if Attribute::Capacity.failure_in(text) is Some {
            Attribute::Capacity.failure_in(text)
        } else if Attribute::VoltageNow.failure_in(text) is Some {
            Attribute::VoltageNow.failure_in(text)
        } else if Attribute::EnergyNow.failure_in(text) is Some {
            Attribute::EnergyNow.failure_in(text)
        } else {
            Attribute::Status.failure_in(text)
        }
    }

    /// The quantity that `text` declares for `attribute`, converted from
    /// micro-units to the base unit.
    pub open spec fn quantity_in(text: Seq<char>, attribute: Attribute) -> Option<Quantity> {
        match attribute_value(text, attribute.key()) {
            Some(raw) => Quantity::of_micro_text(raw),
            None => None,
        }
    }

    /// The record that a text without failure holds, made at `moment`.
    pub open spec fn assembled(text: Seq<char>, moment: u64) -> BatteryStatus {
        BatteryStatus {
            moment,
            charge_state: ChargeState::from_label(
                attribute_value(text, Attribute::Status.key()).unwrap(),
            ).unwrap(),
            voltage: Self::quantity_in(text, Attribute::VoltageNow).unwrap(),
            energy: Self::quantity_in(text, Attribute::EnergyNow).unwrap(),
            consumption: Self::quantity_in(text, Attribute::PowerNow),
            capacity: natural_of(
                attribute_value(text, Attribute::Capacity.key()).unwrap(),
            ).unwrap() as usize,
        }
    }

    /// What reading `text` at `moment` comes to: the first failure, or the
    /// complete record.
    pub open spec fn outcome(text: Seq<char>, moment: u64) -> Result<BatteryStatus, Failure> {
        match Self::first_failure(text) {
            Some(failure) => Err(failure),
            None => Ok(Self::assembled(text, moment)),
        }
    }

    /// The line for the log: moment, charge state, voltage, energy, power
    /// where there is one, and capacity, separated by a comma and a blank
    /// and ended by a line feed.
    pub open spec fn csv_line(self) -> Seq<char> {
        let power = match self.consumption {
            Some(watts) => watts.text() + ", "@,
            None => Seq::empty(),
        };
        decimal_text(self.moment as nat) + ", "@ + self.charge_state.label() + ", "@
            + self.voltage.text() + ", "@ + self.energy.text() + ", "@ + power + decimal_text(
            self.capacity as nat,
        ) + "\n"@
    }

    /// The line for a person: capacity, energy, voltage, and power where
    /// there is one, each with its unit.
    pub open spec fn summary(self) -> Seq<char> {
        let power = match self.consumption {
            Some(watts) => ", "@ + watts.text() + "W"@,
            None => Seq::empty(),
        };
        "SoC: "@ + decimal_text(self.capacity as nat) + "%, "@ + self.energy.text() + "Wh, "@
            + self.voltage.text() + "V"@ + power
    }

    /// Reads `text` for a quantity. `Ok(None)` where no line holds the
    /// attribute's name.
    fn read_quantity(text: &str, attribute: Attribute) -> (r: Result<Option<Quantity>, ParseError>)
        requires
            attribute is PowerNow || attribute is VoltageNow || attribute is EnergyNow,
        ensures
            match extraction(text@, attribute.key()) {
                Err(Failure::AttributeNotFound(_)) => r == Ok::<Option<Quantity>, ParseError>(None),
                Err(failure) => r matches Err(e) && e@ == failure,
                Ok(raw) => match Quantity::of_micro_text(raw) {
                    Some(quantity) => r == Ok::<Option<Quantity>, ParseError>(Some(quantity)),
                    None => r matches Err(e) && e@ == Failure::ValueError(
                        attribute.complaint(raw),
                    ),
                },
            },
    {
        match extract_value_for(attribute.name(), text) {
            Ok(raw) => match Quantity::from_micro_text(raw) {
                Some(quantity) => Ok(Some(quantity)),
                None => Err(attribute.value_error(raw)),
            },
            Err(ParseError::AttributeNotFound(_)) => Ok(None),
            Err(e) => Err(e),
        }
    }

    /// Reads a status text into a record made at `moment`.
    ///
    /// The attributes are read in their order: power, which may be absent,
    /// then capacity, voltage, energy and charge state. The first one that
    /// is missing, or whose line declares nothing, or whose value does not
    /// convert, ends the reading with its error.
    pub fn parse(text: &str, moment: u64) -> (r: Result<BatteryStatus, ParseError>)
        ensures
            match BatteryStatus::outcome(text@, moment) {
                Ok(status) => r == Ok::<BatteryStatus, ParseError>(status),
                Err(failure) => r matches Err(e) && e@ == failure,
            },
    {
        let consumption = match Self::read_quantity(text, Attribute::PowerNow) {
            Ok(watts) => watts,
            Err(e) => {
                return Err(e);
            },
        };
        let capacity: usize = match extract_value_for(Attribute::Capacity.name(), text) {
            Ok(raw) => match read_natural(raw) {
                Some(percent) => percent,
                None => {
                    return Err(Attribute::Capacity.value_error(raw));
                },
            },
            Err(e) => {
                return Err(e);
            },
        };
        let voltage = match Self::read_quantity(text, Attribute::VoltageNow) {
            Ok(Some(volts)) => volts,
            Ok(None) => {
                return Err(
                    ParseError::AttributeNotFound(
                        String::from_str(Attribute::VoltageNow.name()),
                    ),
                );
            },
            Err(e) => {
                return Err(e);
            },
        };
        let energy = match Self::read_quantity(text, Attribute::EnergyNow) {
            Ok(Some(watt_hours)) => watt_hours,
            Ok(None) => {
                return Err(
                    ParseError::AttributeNotFound(String::from_str(Attribute::EnergyNow.name())),
                );
            },
            Err(e) => {
                return Err(e);
            },
        };
        let charge_state = match extract_value_for(Attribute::Status.name(), text) {
            Ok(raw) => match ChargeState::try_from(raw) {
                Ok(state) => state,
                Err(_) => {
                    return Err(Attribute::Status.value_error(raw));
                },
            },
            Err(e) => {
                return Err(e);
            },
        };
        Ok(BatteryStatus { moment, consumption, capacity, voltage, energy, charge_state })
    }

    /// Return a CSV formatted string.
    pub fn to_csv(&self) -> (line: String)
        ensures
            line@ == self.csv_line(),
    {
        let mut line = String::new();
        append_decimal(&mut line, self.moment);
        line.append(", ");
        line.append(self.charge_state.as_str());
        line.append(", ");
        self.voltage.append_to(&mut line);
        line.append(", ");
        self.energy.append_to(&mut line);
        line.append(", ");
        match self.consumption {
            Some(watts) => {
                watts.append_to(&mut line);
                line.append(", ");
            },
            None => {},
        }
        append_decimal(&mut line, self.capacity as u64);
        line.append("\n");
        assert(line@ =~= self.csv_line());
        line
    }

    /// The record as one line for a person.
    pub fn to_string(&self) -> (line: String)
        ensures
            line@ == self.summary(),
    {
        let mut line = String::from_str("SoC: ");
        append_decimal(&mut line, self.capacity as u64);
        line.append("%, ");
        self.energy.append_to(&mut line);
        line.append("Wh, ");
        self.voltage.append_to(&mut line);
        line.append("V");
        match self.consumption {
            Some(watts) => {
                line.append(", ");
                watts.append_to(&mut line);
                line.append("W");
            },
            None => {},
        }
        assert(line@ =~= self.summary());
        line
    }
}

impl TryFrom<String> for BatteryStatus {
    type Error = ParseError;

    /// Reads a status text into a record made now, by the system clock.
    /// Where the clock stands before the Unix epoch, the moment is zero.
    ///
    /// Whether and how the reading fails depends on the text alone; only
    /// the record's moment comes from the clock.
    fn try_from(value: String) -> (r: Result<BatteryStatus, ParseError>)
        ensures
            match BatteryStatus::first_failure(value@) {
                Some(failure) => r matches Err(e) && e@ == failure,
                None => r matches Ok(status) && status == BatteryStatus::assembled(
                    value@,
                    status.moment,
                ),
            },
    {
        BatteryStatus::parse(value.as_str(), seconds_since_epoch())
    }
}

/// The record's moment is read from the clock, so the conversion's result
/// is no function of the text: the contract of `try_from` states it.
impl vstd::std_specs::convert::TryFromSpecImpl<String> for BatteryStatus {
    open spec fn obeys_try_from_spec() -> bool {
        false
    }

    open spec fn try_from_spec(value: String) -> Result<BatteryStatus, ParseError> {
        arbitrary()
    }
}

} // verus!
