use battery_status::clock::moment_of;
use battery_status::{Attribute, BatteryStatus, ChargeState, ParseError, Quantity};

const COMPLETE: &str = "POWER_SUPPLY_STATUS=Charging\nPOWER_SUPPLY_VOLTAGE_NOW=12000000\nPOWER_SUPPLY_ENERGY_NOW=45000000\nPOWER_SUPPLY_CAPACITY=80\n";

const WITH_POWER: &str = "POWER_SUPPLY_NAME=BAT0\nPOWER_SUPPLY_STATUS=Discharging\nPOWER_SUPPLY_PRESENT=1\nPOWER_SUPPLY_VOLTAGE_NOW=11400000\nPOWER_SUPPLY_POWER_NOW=5500000\nPOWER_SUPPLY_ENERGY_NOW=57030000\nPOWER_SUPPLY_CAPACITY=97\nPOWER_SUPPLY_CAPACITY_LEVEL=Normal\n";

fn without_line(text: &str, key: &str) -> String {
    let mut out = String::new();
    for line in text.lines() {
        if !line.starts_with(&format!("{}=", key)) {
            out.push_str(line);
            out.push('\n');
        }
    }
    out
}

fn with_value(text: &str, key: &str, value: &str) -> String {
    let mut out = String::new();
    for line in text.lines() {
        if line.starts_with(&format!("{}=", key)) {
            out.push_str(&format!("{}={}", key, value));
        } else {
            out.push_str(line);
        }
        out.push('\n');
    }
    out
}

fn volts(q: &Quantity) -> f32 {
    (q.whole() as f64 + q.fraction() as f64 / 1_000_000.0) as f32
}

#[test]
fn a_complete_text_reads_into_a_record() {
    let status = BatteryStatus::parse(COMPLETE, 1700000000).unwrap();
    assert_eq!(status.moment, 1700000000);
    assert_eq!(status.charge_state, ChargeState::Charging);
    assert_eq!(volts(&status.voltage), 12.0);
    assert_eq!(volts(&status.energy), 45.0);
    assert_eq!(status.consumption, None);
    assert_eq!(status.capacity, 80);
    assert_eq!(
        status,
        BatteryStatus {
            moment: 1700000000,
            charge_state: ChargeState::Charging,
            voltage: Quantity { negative: false, micro: 12_000_000 },
            energy: Quantity { negative: false, micro: 45_000_000 },
            consumption: None,
            capacity: 80,
        }
    );
}

#[test]
fn a_text_with_power_reads_into_a_record_with_power() {
    let status = BatteryStatus::parse(WITH_POWER, 7).unwrap();
    assert_eq!(status.charge_state, ChargeState::Discharging);
    assert!((volts(&status.voltage) - 11.4).abs() < 1e-5);
    assert!((volts(&status.energy) - 57.03).abs() < 1e-4);
    assert_eq!(status.consumption.map(|watts| volts(&watts)), Some(5.5));
    assert_eq!(status.capacity, 97);
}

#[test]
fn a_text_without_capacity_names_the_capacity() {
    let text = without_line(COMPLETE, "POWER_SUPPLY_CAPACITY");
    assert_eq!(
        BatteryStatus::parse(&text, 0),
        Err(ParseError::AttributeNotFound("POWER_SUPPLY_CAPACITY".to_string()))
    );
}

#[test]
fn each_missing_required_attribute_is_named() {
    for key in ["POWER_SUPPLY_CAPACITY", "POWER_SUPPLY_VOLTAGE_NOW", "POWER_SUPPLY_ENERGY_NOW", "POWER_SUPPLY_STATUS"] {
        for text in [COMPLETE, &without_line(WITH_POWER, "POWER_SUPPLY_CAPACITY_LEVEL")] {
            assert_eq!(
                BatteryStatus::parse(&without_line(text, key), 0),
                Err(ParseError::AttributeNotFound(key.to_string()))
            );
        }
    }
}

#[test]
fn the_empty_text_lacks_the_first_required_attribute() {
    assert_eq!(
        BatteryStatus::parse("", 0),
        Err(ParseError::AttributeNotFound("POWER_SUPPLY_CAPACITY".to_string()))
    );
}

#[test]
fn an_unknown_status_is_a_value_error_citing_it() {
    let text = with_value(COMPLETE, "POWER_SUPPLY_STATUS", "Idle");
    match BatteryStatus::parse(&text, 0) {
        Err(ParseError::ValueError(reason)) => {
            assert!(reason.contains("\"Idle\""));
            assert!(reason.contains("\"POWER_SUPPLY_STATUS\""));
            assert_eq!(
                reason,
                "failed to parse \"Idle\" for \"POWER_SUPPLY_STATUS\", expected either \"Charging\", \"Discharging\", \"Full\", \"Not charging\", or \"Unknown\""
            );
        }
        other => panic!("{:?}", other),
    }
}

#[test]
fn a_line_that_declares_nothing_is_a_value_error_for_every_attribute() {
    for key in ["POWER_SUPPLY_POWER_NOW", "POWER_SUPPLY_CAPACITY", "POWER_SUPPLY_VOLTAGE_NOW",
        "POWER_SUPPLY_ENERGY_NOW", "POWER_SUPPLY_STATUS"]
    {
        let text = without_line(WITH_POWER, "POWER_SUPPLY_CAPACITY_LEVEL");
        let text = text.replace(&format!("{}=", key), &format!("{} ", key));
        match BatteryStatus::parse(&text, 0) {
            Err(ParseError::ValueError(reason)) => {
                assert!(reason.starts_with(&format!("failed to parse \"{} ", key)));
                assert!(reason.ends_with(&format!(
                    "\" for \"{}\", expected the form KEY=VALUE",
                    key
                )));
            }
            other => panic!("{:?}", other),
        }
    }
}

#[test]
fn a_power_line_that_declares_nothing_is_not_taken_for_no_power() {
    let text = format!("POWER_SUPPLY_POWER_NOW\n{}", COMPLETE);
    assert_eq!(
        BatteryStatus::parse(&text, 0),
        Err(ParseError::ValueError(
            "failed to parse \"POWER_SUPPLY_POWER_NOW\" for \"POWER_SUPPLY_POWER_NOW\", expected the form KEY=VALUE"
                .to_string()
        ))
    );
    assert_eq!(BatteryStatus::parse(COMPLETE, 0).unwrap().consumption, None);
}

#[test]
fn a_value_that_is_no_number_is_a_value_error_citing_it() {
    for key in ["POWER_SUPPLY_POWER_NOW", "POWER_SUPPLY_CAPACITY", "POWER_SUPPLY_VOLTAGE_NOW", "POWER_SUPPLY_ENERGY_NOW"] {
        for raw in ["abc", "", "twelve volts", "1.2.3", "0x10"] {
            let text = with_value(WITH_POWER, key, raw);
            assert_eq!(
                BatteryStatus::parse(&text, 0),
                Err(ParseError::ValueError(format!(
                    "failed to parse \"{}\" for \"{}\" as a number",
                    raw, key
                )))
            );
        }
    }
}

#[test]
fn a_capacity_with_a_minus_sign_is_a_value_error() {
    let text = with_value(COMPLETE, "POWER_SUPPLY_CAPACITY", "-1");
    assert_eq!(
        BatteryStatus::parse(&text, 0),
        Err(ParseError::ValueError(
            "failed to parse \"-1\" for \"POWER_SUPPLY_CAPACITY\" as a number".to_string()
        ))
    );
}

#[test]
fn a_capacity_beyond_a_hundred_is_kept_as_it_is() {
    let text = with_value(COMPLETE, "POWER_SUPPLY_CAPACITY", "250");
    assert_eq!(BatteryStatus::parse(&text, 0).unwrap().capacity, 250);
}

#[test]
fn the_first_failure_in_the_order_of_reading_is_reported() {
    let text = with_value(&without_line(WITH_POWER, "POWER_SUPPLY_CAPACITY"), "POWER_SUPPLY_POWER_NOW", "n/a");
    let text = without_line(&text, "POWER_SUPPLY_CAPACITY_LEVEL");
    assert_eq!(
        BatteryStatus::parse(&text, 0),
        Err(ParseError::ValueError(
            "failed to parse \"n/a\" for \"POWER_SUPPLY_POWER_NOW\" as a number".to_string()
        ))
    );
    let text = with_value(&without_line(COMPLETE, "POWER_SUPPLY_ENERGY_NOW"), "POWER_SUPPLY_STATUS", "Idle");
    assert_eq!(
        BatteryStatus::parse(&text, 0),
        Err(ParseError::AttributeNotFound("POWER_SUPPLY_ENERGY_NOW".to_string()))
    );
    let text = with_value(&without_line(COMPLETE, "POWER_SUPPLY_ENERGY_NOW"), "POWER_SUPPLY_VOLTAGE_NOW", "?");
    assert_eq!(
        BatteryStatus::parse(&text, 0),
        Err(ParseError::ValueError(
            "failed to parse \"?\" for \"POWER_SUPPLY_VOLTAGE_NOW\" as a number".to_string()
        ))
    );
}

#[test]
fn a_longer_key_that_comes_first_is_taken_for_the_shorter() {
    let text = "POWER_SUPPLY_CAPACITY_LEVEL=Normal\nPOWER_SUPPLY_STATUS=Full\nPOWER_SUPPLY_VOLTAGE_NOW=1\nPOWER_SUPPLY_ENERGY_NOW=2\nPOWER_SUPPLY_CAPACITY=80\n";
    assert_eq!(
        BatteryStatus::parse(text, 0),
        Err(ParseError::ValueError(
            "failed to parse \"Normal\" for \"POWER_SUPPLY_CAPACITY\" as a number".to_string()
        ))
    );
}

#[test]
fn reading_twice_gives_the_same_but_for_the_moment() {
    for text in [COMPLETE, WITH_POWER] {
        let first = BatteryStatus::parse(text, 1).unwrap();
        let second = BatteryStatus::parse(text, 2).unwrap();
        assert_ne!(first, second);
        assert_eq!(first, BatteryStatus { moment: 1, ..second });
        assert_eq!(BatteryStatus::parse(text, 1), Ok(first));
    }
    let broken = without_line(COMPLETE, "POWER_SUPPLY_STATUS");
    assert_eq!(BatteryStatus::parse(&broken, 1), BatteryStatus::parse(&broken, 2));
}

#[test]
fn a_record_is_made_at_the_clock_s_time() {
    let status = BatteryStatus::try_from(COMPLETE.to_string()).unwrap();
    assert!(status.moment > 1_000_000_000);
    assert!(status.moment < 100_000_000_000);
    assert_eq!(BatteryStatus { moment: 0, ..status }, BatteryStatus::parse(COMPLETE, 0).unwrap());
    let again: BatteryStatus = COMPLETE.to_string().try_into().unwrap();
    assert!(again.moment >= status.moment);
    assert_eq!(BatteryStatus { moment: status.moment, ..again }, status);
}

#[test]
fn a_clock_before_the_epoch_reads_as_zero() {
    assert_eq!(moment_of(None), 0);
    assert_eq!(moment_of(Some(1700000000)), 1700000000);
    assert_eq!(moment_of(Some(0)), 0);
    assert_eq!(moment_of(Some(u64::MAX)), u64::MAX);
}

#[test]
fn a_failure_does_not_depend_on_the_clock() {
    let text = without_line(COMPLETE, "POWER_SUPPLY_CAPACITY");
    assert_eq!(
        BatteryStatus::try_from(text),
        Err(ParseError::AttributeNotFound("POWER_SUPPLY_CAPACITY".to_string()))
    );
    let text = with_value(COMPLETE, "POWER_SUPPLY_STATUS", "Idle");
    assert_eq!(BatteryStatus::try_from(text.clone()), BatteryStatus::parse(&text, 0));
}

#[test]
fn the_log_line_of_a_record_without_power() {
    let status = BatteryStatus::parse(COMPLETE, 1700000000).unwrap();
    assert_eq!(status.to_csv(), "1700000000, charging, 12, 45, 80\n");
}

#[test]
fn the_log_line_of_a_record_with_power() {
    let status = BatteryStatus::parse(WITH_POWER, 1700000000).unwrap();
    assert_eq!(status.to_csv(), "1700000000, discharging, 11.4, 57.03, 5.5, 97\n");
}

#[test]
fn the_log_line_of_a_full_battery_says_full() {
    let text = with_value(COMPLETE, "POWER_SUPPLY_STATUS", "Full");
    assert_eq!(BatteryStatus::parse(&text, 0).unwrap().to_csv(), "0, full, 12, 45, 80\n");
    let text = with_value(COMPLETE, "POWER_SUPPLY_STATUS", "Not charging");
    assert_eq!(BatteryStatus::parse(&text, 9).unwrap().to_csv(), "9, not_charging, 12, 45, 80\n");
    let text = with_value(COMPLETE, "POWER_SUPPLY_STATUS", "Unknown");
    assert_eq!(BatteryStatus::parse(&text, 10).unwrap().to_csv(), "10, unknown, 12, 45, 80\n");
}

#[test]
fn the_summary_of_a_record() {
    let status = BatteryStatus::parse(COMPLETE, 0).unwrap();
    assert_eq!(status.to_string(), "SoC: 80%, 45Wh, 12V");
    let status = BatteryStatus::parse(WITH_POWER, 0).unwrap();
    assert_eq!(status.to_string(), "SoC: 97%, 57.03Wh, 11.4V, 5.5W");
}

#[test]
fn a_record_with_extreme_fields_is_rendered() {
    let status = BatteryStatus {
        moment: u64::MAX,
        charge_state: ChargeState::Unknown,
        voltage: Quantity { negative: true, micro: 1 },
        energy: Quantity { negative: false, micro: u64::MAX },
        consumption: Some(Quantity { negative: false, micro: 0 }),
        capacity: 0,
    };
    assert_eq!(
        status.to_csv(),
        "18446744073709551615, unknown, -0.000001, 18446744073709.551615, 0, 0\n"
    );
    assert_eq!(status.to_string(), "SoC: 0%, 18446744073709.551615Wh, -0.000001V, 0W");
}

#[test]
fn text_with_carriage_returns_reads_the_same() {
    let text = COMPLETE.replace('\n', "\r\n");
    assert_eq!(BatteryStatus::parse(&text, 5), BatteryStatus::parse(COMPLETE, 5));
}

#[test]
fn the_errors_are_rendered_as_sentences() {
    assert_eq!(
        ParseError::AttributeNotFound("POWER_SUPPLY_CAPACITY".to_string()).to_string(),
        "error while parsing: attribute \"POWER_SUPPLY_CAPACITY\" not found"
    );
    assert_eq!(
        ParseError::ValueError("failed to parse \"x\"".to_string()).to_string(),
        "error while parsing: failed to parse \"x\""
    );
}

#[test]
fn the_attributes_go_by_their_exported_names() {
    assert_eq!(Attribute::PowerNow.name(), "POWER_SUPPLY_POWER_NOW");
    assert_eq!(Attribute::Capacity.name(), "POWER_SUPPLY_CAPACITY");
    assert_eq!(Attribute::VoltageNow.name(), "POWER_SUPPLY_VOLTAGE_NOW");
    assert_eq!(Attribute::EnergyNow.name(), "POWER_SUPPLY_ENERGY_NOW");
    assert_eq!(Attribute::Status.name(), "POWER_SUPPLY_STATUS");
    assert_eq!(
        Attribute::EnergyNow.value_error("x"),
        ParseError::ValueError(
            "failed to parse \"x\" for \"POWER_SUPPLY_ENERGY_NOW\" as a number".to_string()
        )
    );
}
