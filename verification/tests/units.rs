use fast_dbc_to_c::units::{classify_key, Classification, InferredUnitType};
use std::str::FromStr;

#[test]
fn classify_ignores_case_and_surrounding_whitespace() {
    assert_eq!(InferredUnitType::from_str(" Deg C "), Ok(InferredUnitType::Celsius));
    assert_eq!(InferredUnitType::from_str("celsius"), Ok(InferredUnitType::Celsius));
    assert_eq!(InferredUnitType::classify(" Deg C ").unit, InferredUnitType::classify("celsius").unit);
}

#[test]
fn upper_case_label_is_lowered_before_the_lookup() {
    assert_eq!(InferredUnitType::from_str("RPM"), Ok(InferredUnitType::RevolutionsPerMinute));
    assert_eq!(InferredUnitType::from_str("KiB/s"), Ok(InferredUnitType::Kibibytes));
    assert_eq!(classify_key("RPM"), None);
}

#[test]
fn surrounding_whitespace_is_cut_before_the_lookup() {
    assert_eq!(InferredUnitType::from_str("\t km/h \n"), Ok(InferredUnitType::KilometersPerHour));
    assert_eq!(classify_key(" km/h"), None);
}

#[test]
fn whitespace_inside_a_label_counts() {
    assert_eq!(InferredUnitType::from_str("deg c"), Ok(InferredUnitType::Celsius));
    assert!(InferredUnitType::from_str("degc").is_err());
    assert!(InferredUnitType::from_str("miles  per hour").is_err());
}

#[test]
fn unmatched_label_is_an_error_that_quotes_it() {
    assert_eq!(
        InferredUnitType::from_str("froobnicated"),
        Err("Could not infer unit type from 'froobnicated'".to_string())
    );
    assert_eq!(
        InferredUnitType::from_str("  Froob "),
        Err("Could not infer unit type from '  Froob '".to_string())
    );
}

#[test]
fn unmatched_label_classifies_as_raw_with_a_diagnostic() {
    let Classification { unit, diagnostic } = InferredUnitType::classify("froobnicated");
    assert_eq!(unit, InferredUnitType::Raw);
    assert_eq!(diagnostic, Some("Could not infer unit type from 'froobnicated'".to_string()));
}

#[test]
fn empty_label_classifies_as_raw_without_a_failure() {
    assert_eq!(InferredUnitType::from_str(""), Ok(InferredUnitType::Raw));
    assert_eq!(InferredUnitType::from_str("   "), Ok(InferredUnitType::Raw));
    let Classification { unit, diagnostic } = InferredUnitType::classify("");
    assert_eq!(unit, InferredUnitType::Raw);
    assert_eq!(diagnostic, None);
}

#[test]
fn matched_label_has_no_diagnostic() {
    let Classification { unit, diagnostic } = InferredUnitType::classify("Volts");
    assert_eq!(unit, InferredUnitType::Volts);
    assert_eq!(diagnostic, None);
}

#[test]
fn every_synonym_names_its_category() {
    let table: Vec<(InferredUnitType, Vec<&str>)> = vec![
        (InferredUnitType::Kelvin, vec!["k", "deg k", "kelvin", "kelvins"]),
        (InferredUnitType::Celsius, vec!["c", "deg c", "celsius"]),
        (InferredUnitType::Fahrenheit, vec!["f", "deg f", "fahrenheit"]),
        (InferredUnitType::Radians, vec!["rad", "rads", "radians"]),
        (InferredUnitType::Degrees, vec!["deg", "degrees"]),
        (InferredUnitType::MilesPerHour, vec!["mph", "miles per hour", "m/h"]),
        (InferredUnitType::FeetPerSecond, vec!["fps", "feet per second", "f/s"]),
        (InferredUnitType::KilometersPerHour, vec!["kph", "kilometers per hour", "kmh", "km/h"]),
        (InferredUnitType::MetersPerSecond, vec!["mps", "meters per second", "m/s"]),
        (InferredUnitType::RevolutionsPerMinute, vec!["rpm", "r.p.m."]),
        (InferredUnitType::Bytes, vec!["b", "byte", "bytes", "bytes per second", "b/s"]),
        (
            InferredUnitType::Kilobytes,
            vec!["kb", "kilobyte", "kilobytes", "kilobytes per second", "kb/s"],
        ),
        (
            InferredUnitType::Kibibytes,
            vec!["kib", "kibibyte", "kibibytes", "kibibytes per second", "kib/s"],
        ),
        (
            InferredUnitType::Megabytes,
            vec!["mb", "megabyte", "megabytes", "megabytes per second", "mb/s"],
        ),
        (
            InferredUnitType::Mebibytes,
            vec!["mib", "mebibyte", "mebibytes", "mebibytes per second", "mib/s"],
        ),
        (
            InferredUnitType::Gigabytes,
            vec!["gb", "gigabyte", "gigabytes", "gigabytes per second", "gb/s"],
        ),
        (
            InferredUnitType::Gibibytes,
            vec!["gib", "gibibyte", "gibibytes", "gibibytes per second", "gib/s"],
        ),
        (
            InferredUnitType::Terabytes,
            vec!["tb", "terabyte", "terabytes", "terabytes per second", "tb/s"],
        ),
        (
            InferredUnitType::Tebibytes,
            vec!["tib", "tebibyte", "tebibytes", "tebibytes per second", "tib/s"],
        ),
        (
            InferredUnitType::Petabytes,
            vec!["pb", "petabyte", "petabytes", "petabytes per second", "pb/s"],
        ),
        (
            InferredUnitType::Pebibytes,
            vec!["pib", "pebibyte", "pebibytes", "pebibytes per second", "pib/s"],
        ),
        (InferredUnitType::Volts, vec!["v", "volts", "voltage"]),
        (InferredUnitType::Amperes, vec!["a", "amps", "amperes", "current"]),
        (InferredUnitType::Resistance, vec!["o", "ohms", "resistance"]),
        (InferredUnitType::Capacity, vec!["wh"]),
        (InferredUnitType::Power, vec!["w", "watts"]),
        (InferredUnitType::Seconds, vec!["s", "sec", "seconds"]),
        (InferredUnitType::Minutes, vec!["m", "min", "minutes"]),
        (InferredUnitType::Hours, vec!["h", "hr", "hours"]),
        (InferredUnitType::Days, vec!["days"]),
        (InferredUnitType::Percentage, vec!["%", "percent", "percentage"]),
        (InferredUnitType::Raw, vec!["", "unknown", "raw", "?"]),
    ];
    for (unit, synonyms) in table {
        for synonym in synonyms {
            assert_eq!(classify_key(synonym), Some(unit), "{}", synonym);
            assert_eq!(InferredUnitType::from_str(synonym), Ok(unit), "{}", synonym);
            assert_eq!(
                InferredUnitType::from_str(&format!("  {} ", synonym.to_uppercase())),
                Ok(unit),
                "{}",
                synonym
            );
        }
    }
}

#[test]
fn near_misses_name_no_category() {
    for key in ["kelvinss", "day", "ms", "percent ", "degree", "hz", "km h", "r.p.m"] {
        assert_eq!(classify_key(key), None, "{}", key);
    }
}

#[test]
fn tag_is_the_category_name_after_unit() {
    assert_eq!(InferredUnitType::Kelvin.tag(), "UnitKelvin");
    assert_eq!(InferredUnitType::RevolutionsPerMinute.tag(), "UnitRevolutionsPerMinute");
    assert_eq!(InferredUnitType::Pebibytes.tag(), "UnitPebibytes");
    assert_eq!(InferredUnitType::Raw.tag(), "UnitRaw");
    for unit in [
        InferredUnitType::Celsius,
        InferredUnitType::MilesPerHour,
        InferredUnitType::Gibibytes,
        InferredUnitType::Capacity,
        InferredUnitType::Percentage,
    ] {
        assert_eq!(unit.tag(), format!("Unit{:?}", unit));
    }
}

#[test]
fn label_parses_into_its_category() {
    assert_eq!("rpm".parse::<InferredUnitType>(), Ok(InferredUnitType::RevolutionsPerMinute));
    assert_eq!(" M/S ".parse::<InferredUnitType>(), Ok(InferredUnitType::MetersPerSecond));
    assert!("parsecs".parse::<InferredUnitType>().is_err());
}
