//! What holds of every status text, proved from the definitions.

use vstd::prelude::*;
use vstd::string::*;
use crate::attribute::Attribute;
use crate::charge::ChargeState;
use crate::decimal::{integer_of, natural_of};
use crate::error::Failure;
use crate::extract::{
    attribute_value, declared_value, lemma_separator_complaint_cites_line, line_of,
    separator_complaint,
};
use crate::quantity::Quantity;
use crate::status::BatteryStatus;
use crate::text::{contains, occurs_at};

verus! {

/// No attribute that is read before `attribute` fails on `text`.
pub open spec fn reads_up_to(text: Seq<char>, attribute: Attribute) -> bool {
    forall|earlier: Attribute|
        earlier.rank() < attribute.rank() ==> (#[trigger] earlier.failure_in(text)) is None
}

/// A text that declares every required attribute with a value that
/// converts, and that either holds the power's name in no line or declares
/// the power with a value that converts,
/// reads into a record whose every field is the converted value: the
/// capacity is the number written, each quantity has the sign written and
/// as many millionths of its base unit as the text gives micro-units, and
/// the charge state is the one that goes by the label.
pub proof fn lemma_complete_text_reads(
    text: Seq<char>,
    moment: u64,
    capacity: Seq<char>,
    voltage: Seq<char>,
    energy: Seq<char>,
    status: Seq<char>,
    power: Option<Seq<char>>,
)
    requires
        attribute_value(text, Attribute::Capacity.key()) == Some(capacity),
        attribute_value(text, Attribute::VoltageNow.key()) == Some(voltage),
        attribute_value(text, Attribute::EnergyNow.key()) == Some(energy),
        attribute_value(text, Attribute::Status.key()) == Some(status),
        match power {
            Some(raw) => attribute_value(text, Attribute::PowerNow.key()) == Some(raw),
            None => line_of(text, Attribute::PowerNow.key()) is None,
        },
        Attribute::Capacity.accepts(capacity),
        Attribute::VoltageNow.accepts(voltage),
        Attribute::EnergyNow.accepts(energy),
        Attribute::Status.accepts(status),
        power matches Some(raw) ==> Attribute::PowerNow.accepts(raw),
    ensures
        BatteryStatus::outcome(text, moment) matches Ok(record) && {
            &&& record.moment == moment
            &&& Some(record.capacity as nat) == natural_of(capacity)
            &&& Some((record.voltage.negative, record.voltage.micro as nat)) == integer_of(voltage)
            &&& Some((record.energy.negative, record.energy.micro as nat)) == integer_of(energy)
            &&& Some(record.charge_state) == ChargeState::from_label(status)
            &&& match power {
                Some(raw) => record.consumption matches Some(watts) && Some(
                    (watts.negative, watts.micro as nat),
                ) == integer_of(raw),
                None => record.consumption is None,
            }
        },
{
}

/// Reading ends with the failure of the first attribute, in the order of
/// reading, that fails.
pub proof fn lemma_first_failure_is_reported(
    text: Seq<char>,
    moment: u64,
    attribute: Attribute,
    failure: Failure,
)
    requires
        attribute.failure_in(text) == Some(failure),
        reads_up_to(text, attribute),
    ensures
        BatteryStatus::outcome(text, moment) == Err::<BatteryStatus, Failure>(failure),
{
    assert(Attribute::PowerNow.rank() == 0);
    assert(Attribute::Capacity.rank() == 1);
    assert(Attribute::VoltageNow.rank() == 2);
    assert(Attribute::EnergyNow.rank() == 3);
}

/// A text that lacks a required attribute, holding its name in no line, and
/// in which the attributes read before that one read, fails with
/// `AttributeNotFound` naming exactly the attribute that it lacks.
pub proof fn lemma_missing_attribute_is_named(text: Seq<char>, moment: u64, attribute: Attribute)
    requires
        attribute.required(),
        line_of(text, attribute.key()) is None,
        reads_up_to(text, attribute),
    ensures
        BatteryStatus::outcome(text, moment) == Err::<BatteryStatus, Failure>(
            Failure::AttributeNotFound(attribute.key()),
        ),
{
    lemma_first_failure_is_reported(
        text,
        moment,
        attribute,
        Failure::AttributeNotFound(attribute.key()),
    );
}

/// A text that lacks any required attribute does not read, whatever else
/// it holds.
pub proof fn lemma_missing_attribute_fails(text: Seq<char>, moment: u64, attribute: Attribute)
    requires
        attribute.required(),
        line_of(text, attribute.key()) is None,
    ensures
        BatteryStatus::outcome(text, moment) is Err,
{
}

/// Reading fails with `AttributeNotFound` only for a required attribute
/// whose name stands in no line of the text.
pub proof fn lemma_not_found_means_absent(text: Seq<char>, moment: u64, name: Seq<char>)
    requires
        BatteryStatus::outcome(text, moment) == Err::<BatteryStatus, Failure>(
            Failure::AttributeNotFound(name),
        ),
    ensures
        exists|attribute: Attribute|
            #![trigger attribute.key()]
            attribute.required() && attribute.key() == name,
        line_of(text, name) is None,
{
    let found = Failure::AttributeNotFound(name);
    if Attribute::PowerNow.failure_in(text) is Some {
        assert(Attribute::PowerNow.failure_in(text) == Some(found));
        assert(false);
    } else if Attribute::Capacity.failure_in(text) is Some {
        assert(Attribute::Capacity.failure_in(text) == Some(found));
        assert(Attribute::Capacity.required() && Attribute::Capacity.key() == name);
    } else if Attribute::VoltageNow.failure_in(text) is Some {
        assert(Attribute::VoltageNow.failure_in(text) == Some(found));
        assert(Attribute::VoltageNow.required() && Attribute::VoltageNow.key() == name);
    } else if Attribute::EnergyNow.failure_in(text) is Some {
        assert(Attribute::EnergyNow.failure_in(text) == Some(found));
        assert(Attribute::EnergyNow.required() && Attribute::EnergyNow.key() == name);
    } else {
        assert(Attribute::Status.failure_in(text) == Some(found));
        assert(Attribute::Status.required() && Attribute::Status.key() == name);
    }
}

/// A text in which the line read for an attribute, the power included,
/// has no `=`, and in which the attributes read before that one read,
/// fails with a `ValueError` whose message cites the line.
pub proof fn lemma_line_without_value_is_cited(
    text: Seq<char>,
    moment: u64,
    attribute: Attribute,
    line: Seq<char>,
)
    requires
        line_of(text, attribute.key()) == Some(line),
        declared_value(line) is None,
        reads_up_to(text, attribute),
    ensures
        BatteryStatus::outcome(text, moment) matches Err(Failure::ValueError(reason)) && contains(
            reason,
            line,
        ),
{
    lemma_separator_complaint_cites_line(line, attribute.key());
    lemma_first_failure_is_reported(
        text,
        moment,
        attribute,
        Failure::ValueError(separator_complaint(line, attribute.key())),
    );
}

/// The message for a value that an attribute does not accept cites the
/// value.
pub proof fn lemma_complaint_cites_value(attribute: Attribute, raw: Seq<char>)
    ensures
        contains(attribute.complaint(raw), raw),
{
    let at: int = "failed to parse \""@.len() as int;
    let whole = attribute.complaint(raw);
    assert(whole.subrange(at, at + raw.len()) =~= raw);
    assert(occurs_at(whole, raw, at));
}

/// A text in which a numeric attribute's value is no numeral, and in which
/// the attributes read before that one read, fails with a `ValueError`
/// whose message cites the value.
pub proof fn lemma_bad_number_is_cited(
    text: Seq<char>,
    moment: u64,
    attribute: Attribute,
    raw: Seq<char>,
)
    requires
        attribute.numeric(),
        attribute_value(text, attribute.key()) == Some(raw),
        integer_of(raw) is None,
        reads_up_to(text, attribute),
    ensures
        BatteryStatus::outcome(text, moment) matches Err(Failure::ValueError(reason)) && contains(
            reason,
            raw,
        ),
{
    lemma_complaint_cites_value(attribute, raw);
    lemma_first_failure_is_reported(
        text,
        moment,
        attribute,
        Failure::ValueError(attribute.complaint(raw)),
    );
}

/// A text whose status is none of the five labels, and in which the other
/// attributes read, fails with a `ValueError` whose message cites the
/// label.
pub proof fn lemma_unknown_label_is_cited(text: Seq<char>, moment: u64, label: Seq<char>)
    requires
        attribute_value(text, Attribute::Status.key()) == Some(label),
        ChargeState::from_label(label) is None,
        reads_up_to(text, Attribute::Status),
    ensures
        BatteryStatus::outcome(text, moment) matches Err(Failure::ValueError(reason)) && contains(
            reason,
            label,
        ),
{
    lemma_complaint_cites_value(Attribute::Status, label);
    lemma_first_failure_is_reported(
        text,
        moment,
        Attribute::Status,
        Failure::ValueError(Attribute::Status.complaint(label)),
    );
}

/// Reading one text twice comes to the same: both readings fail with the
/// same failure, or both give a record, and the two records are equal in
/// every field but the moment.
pub proof fn lemma_reading_twice_agrees(text: Seq<char>, first: u64, second: u64)
    ensures
        match (BatteryStatus::outcome(text, first), BatteryStatus::outcome(text, second)) {
            (Ok(a), Ok(b)) => a == (BatteryStatus { moment: first, ..b }) && b.moment == second,
            (Err(e), Err(f)) => e == f,
            _ => false,
        },
{
}

} // verus!
