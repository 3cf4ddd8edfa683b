//! Physical units of signals, and their inference from free-text unit labels.

use vstd::prelude::*;
use crate::text::{blank, lowercased, same_text, trim, trimmed, trimming_ignores_padding};

verus! {

/// The unit category that a signal's unit label stands for.
#[derive(Debug, Clone, Copy, PartialEq, Eq, Structural)]
pub enum InferredUnitType {
    // Temperature.
    Kelvin,
    Celsius,
    Fahrenheit,
    // Angle.
    Radians,
    Degrees,
    // Speed.
    MilesPerHour,
    FeetPerSecond,
    KilometersPerHour,
    MetersPerSecond,
    // Rotational rate.
    RevolutionsPerMinute,
    // Amounts of data, decimal and binary prefixes apart.
    Bytes,
    Kilobytes,
    Kibibytes,
    Megabytes,
    Mebibytes,
    Gigabytes,
    Gibibytes,
    Terabytes,
    Tebibytes,
    Petabytes,
    Pebibytes,
    // Electrical quantities.
    Volts,
    Amperes,
    Resistance,
    Capacity,
    Power,
    // Time.
    Seconds,
    Minutes,
    Hours,
    Days,
    // A share of a whole.
    Percentage,
    // No unit known: the value is passed on as it is.
    Raw,
}

/// The category that a normalized label names: the label has to be one of the
/// synonyms of the category, letter for letter. A label that names none gives
/// `None`.
pub open spec fn unit_of_key(key: Seq<char>) -> Option<InferredUnitType> {
    if key == "k"@ || key == "deg k"@ || key == "kelvin"@ || key == "kelvins"@ {
        Some(InferredUnitType::Kelvin)
    } else if key == "c"@ || key == "deg c"@ || key == "celsius"@ {
        Some(InferredUnitType::Celsius)
    } else if key == "f"@ || key == "deg f"@ || key == "fahrenheit"@ {
        Some(InferredUnitType::Fahrenheit)
    } else if key == "rad"@ || key == "rads"@ || key == "radians"@ {
        Some(InferredUnitType::Radians)
    } else if key == "deg"@ || key == "degrees"@ {
        Some(InferredUnitType::Degrees)
    } else if key == "mph"@ || key == "miles per hour"@ || key == "m/h"@ {
        Some(InferredUnitType::MilesPerHour)
    } else if key == "fps"@ || key == "feet per second"@ || key == "f/s"@ {
        Some(InferredUnitType::FeetPerSecond)
    } else if key == "kph"@ || key == "kilometers per hour"@ || key == "kmh"@ || key == "km/h"@ {
        Some(InferredUnitType::KilometersPerHour)
    } else if key == "mps"@ || key == "meters per second"@ || key == "m/s"@ {
        Some(InferredUnitType::MetersPerSecond)
    } else if key == "rpm"@ || key == "r.p.m."@ {
        Some(InferredUnitType::RevolutionsPerMinute)
    } else if key == "b"@ || key == "byte"@ || key == "bytes"@ || key == "bytes per second"@ ||
        key == "b/s"@
    {
        Some(InferredUnitType::Bytes)
    } else if key == "kb"@ || key == "kilobyte"@ || key == "kilobytes"@ ||
        key == "kilobytes per second"@ || key == "kb/s"@
    {
        Some(InferredUnitType::Kilobytes)
    } else if key == "kib"@ || key == "kibibyte"@ || key == "kibibytes"@ ||
        key == "kibibytes per second"@ || key == "kib/s"@
    {
        Some(InferredUnitType::Kibibytes)
    } else if key == "mb"@ || key == "megabyte"@ || key == "megabytes"@ ||
        key == "megabytes per second"@ || key == "mb/s"@
    {
        Some(InferredUnitType::Megabytes)
    } else if key == "mib"@ || key == "mebibyte"@ || key == "mebibytes"@ ||
        key == "mebibytes per second"@ || key == "mib/s"@
    {
        Some(InferredUnitType::Mebibytes)
    } else if key == "gb"@ || key == "gigabyte"@ || key == "gigabytes"@ ||
        key == "gigabytes per second"@ || key == "gb/s"@
    {
        Some(InferredUnitType::Gigabytes)
    } else if key == "gib"@ || key == "gibibyte"@ || key == "gibibytes"@ ||
        key == "gibibytes per second"@ || key == "gib/s"@
    {
        Some(InferredUnitType::Gibibytes)
    } else if key == "tb"@ || key == "terabyte"@ || key == "terabytes"@ ||
        key == "terabytes per second"@ || key == "tb/s"@
    {
        Some(InferredUnitType::Terabytes)
    } else if key == "tib"@ || key == "tebibyte"@ || key == "tebibytes"@ ||
        key == "tebibytes per second"@ || key == "tib/s"@
    {
        Some(InferredUnitType::Tebibytes)
    } else if key == "pb"@ || key == "petabyte"@ || key == "petabytes"@ ||
        key == "petabytes per second"@ || key == "pb/s"@
    {
        Some(InferredUnitType::Petabytes)
    } else if key == "pib"@ || key == "pebibyte"@ || key == "pebibytes"@ ||
        key == "pebibytes per second"@ || key == "pib/s"@
    {
        Some(InferredUnitType::Pebibytes)
    } else if key == "v"@ || key == "volts"@ || key == "voltage"@ {
        Some(InferredUnitType::Volts)
    } else if key == "a"@ || key == "amps"@ || key == "amperes"@ || key == "current"@ {
        Some(InferredUnitType::Amperes)
    } else if key == "o"@ || key == "ohms"@ || key == "resistance"@ {
        Some(InferredUnitType::Resistance)
    } else if key == "wh"@ {
        Some(InferredUnitType::Capacity)
    } else if key == "w"@ || key == "watts"@ {
        Some(InferredUnitType::Power)
    } else if key == "s"@ || key == "sec"@ || key == "seconds"@ {
        Some(InferredUnitType::Seconds)
    } else if key == "m"@ || key == "min"@ || key == "minutes"@ {
        Some(InferredUnitType::Minutes)
    } else if key == "h"@ || key == "hr"@ || key == "hours"@ {
        Some(InferredUnitType::Hours)
    } else if key == "days"@ {
        Some(InferredUnitType::Days)
    } else if key == "%"@ || key == "percent"@ || key == "percentage"@ {
        Some(InferredUnitType::Percentage)
    } else if key == ""@ || key == "unknown"@ || key == "raw"@ || key == "?"@ {
        Some(InferredUnitType::Raw)
    } else {
        None
    }
}

/// A label as it is looked up: without the whitespace around it, in lower case.
pub open spec fn normalized(label: Seq<char>) -> Seq<char> {
    lowercased(trimmed(label))
}

/// The message that reports a label for which no unit could be inferred.
pub open spec fn inference_failure(label: Seq<char>) -> Seq<char> {
    "Could not infer unit type from '"@ + label + "'"@
}

/// The category a raw label is given: the one its normalized form names, and
/// `Raw` where it names none.
pub open spec fn classified(label: Seq<char>) -> InferredUnitType {
    match unit_of_key(normalized(label)) {
        Some(unit) => unit,
        None => InferredUnitType::Raw,
    }
}

/// The outcome of classifying one label: the category, and the diagnostic to
/// report where the label named no category and `Raw` was taken instead.
pub struct Classification {
    pub unit: InferredUnitType,
    pub diagnostic: Option<String>,
}

/// Looks a normalized label up among the synonyms of every category.
pub fn classify_key(key: &str) -> (r: Option<InferredUnitType>)
    ensures
        r == unit_of_key(key@),
{
    if same_text(key, "k") || same_text(key, "deg k") || same_text(key, "kelvin") ||
        same_text(key, "kelvins")
    {
        Some(InferredUnitType::Kelvin)
    } else if same_text(key, "c") || same_text(key, "deg c") || same_text(key, "celsius") {
        Some(InferredUnitType::Celsius)
    } else if same_text(key, "f") || same_text(key, "deg f") || same_text(key, "fahrenheit") {
        Some(InferredUnitType::Fahrenheit)
    } else if same_text(key, "rad") || same_text(key, "rads") || same_text(key, "radians") {
        Some(InferredUnitType::Radians)
    } else if same_text(key, "deg") || same_text(key, "degrees") {
        Some(InferredUnitType::Degrees)
    } else if same_text(key, "mph") || same_text(key, "miles per hour") || same_text(key, "m/h") {
        Some(InferredUnitType::MilesPerHour)
    } else if same_text(key, "fps") || same_text(key, "feet per second") || same_text(key, "f/s") {
        Some(InferredUnitType::FeetPerSecond)
    } else if same_text(key, "kph") || same_text(key, "kilometers per hour") ||
        same_text(key, "kmh") || same_text(key, "km/h")
    {
        Some(InferredUnitType::KilometersPerHour)
    } else if same_text(key, "mps") || same_text(key, "meters per second") ||
        same_text(key, "m/s")
    {
        Some(InferredUnitType::MetersPerSecond)
    } else if same_text(key, "rpm") || same_text(key, "r.p.m.") {
        Some(InferredUnitType::RevolutionsPerMinute)
    } else if same_text(key, "b") || same_text(key, "byte") || same_text(key, "bytes") ||
        same_text(key, "bytes per second") || same_text(key, "b/s")
    {
        Some(InferredUnitType::Bytes)
    } else if same_text(key, "kb") || same_text(key, "kilobyte") || same_text(key, "kilobytes") ||
        same_text(key, "kilobytes per second") || same_text(key, "kb/s")
    {
        Some(InferredUnitType::Kilobytes)
    } else if same_text(key, "kib") || same_text(key, "kibibyte") || same_text(key, "kibibytes") ||
        same_text(key, "kibibytes per second") || same_text(key, "kib/s")
    {
        Some(InferredUnitType::Kibibytes)
    } else if same_text(key, "mb") || same_text(key, "megabyte") || same_text(key, "megabytes") ||
        same_text(key, "megabytes per second") || same_text(key, "mb/s")
    {
        Some(InferredUnitType::Megabytes)
    } else if same_text(key, "mib") || same_text(key, "mebibyte") || same_text(key, "mebibytes") ||
        same_text(key, "mebibytes per second") || same_text(key, "mib/s")
    {
        Some(InferredUnitType::Mebibytes)
    } else if same_text(key, "gb") || same_text(key, "gigabyte") || same_text(key, "gigabytes") ||
        same_text(key, "gigabytes per second") || same_text(key, "gb/s")
    {
        Some(InferredUnitType::Gigabytes)
    } else if same_text(key, "gib") || same_text(key, "gibibyte") || same_text(key, "gibibytes") ||
        same_text(key, "gibibytes per second") || same_text(key, "gib/s")
    {
        Some(InferredUnitType::Gibibytes)
    } else if same_text(key, "tb") || same_text(key, "terabyte") || same_text(key, "terabytes") ||
        same_text(key, "terabytes per second") || same_text(key, "tb/s")
    {
        Some(InferredUnitType::Terabytes)
    } else if same_text(key, "tib") || same_text(key, "tebibyte") || same_text(key, "tebibytes") ||
        same_text(key, "tebibytes per second") || same_text(key, "tib/s")
    {
        Some(InferredUnitType::Tebibytes)
    } else if same_text(key, "pb") || same_text(key, "petabyte") || same_text(key, "petabytes") ||
        same_text(key, "petabytes per second") || same_text(key, "pb/s")
    {
        Some(InferredUnitType::Petabytes)
    } else if same_text(key, "pib") || same_text(key, "pebibyte") || same_text(key, "pebibytes") ||
        same_text(key, "pebibytes per second") || same_text(key, "pib/s")
    {
        Some(InferredUnitType::Pebibytes)
    } else if same_text(key, "v") || same_text(key, "volts") || same_text(key, "voltage") {
        Some(InferredUnitType::Volts)
    } else if same_text(key, "a") || same_text(key, "amps") || same_text(key, "amperes") ||
        same_text(key, "current")
    {
        Some(InferredUnitType::Amperes)
    } else if same_text(key, "o") || same_text(key, "ohms") || same_text(key, "resistance") {
        Some(InferredUnitType::Resistance)
    } else if same_text(key, "wh") {
        Some(InferredUnitType::Capacity)
    } else if same_text(key, "w") || same_text(key, "watts") {
        Some(InferredUnitType::Power)
    } else if same_text(key, "s") || same_text(key, "sec") || same_text(key, "seconds") {
        Some(InferredUnitType::Seconds)
    } else if same_text(key, "m") || same_text(key, "min") || same_text(key, "minutes") {
        Some(InferredUnitType::Minutes)
    } else if same_text(key, "h") || same_text(key, "hr") || same_text(key, "hours") {
        Some(InferredUnitType::Hours)
    } else if same_text(key, "days") {
        Some(InferredUnitType::Days)
    } else if same_text(key, "%") || same_text(key, "percent") || same_text(key, "percentage") {
        Some(InferredUnitType::Percentage)
    } else if same_text(key, "") || same_text(key, "unknown") || same_text(key, "raw") ||
        same_text(key, "?")
    {
        Some(InferredUnitType::Raw)
    } else {
        None
    }
}

impl InferredUnitType {
    /// The name of the category's constant in the generated C code.
    pub open spec fn tag_text(self) -> Seq<char> {
        match self {
            InferredUnitType::Kelvin => "UnitKelvin"@,
            InferredUnitType::Celsius => "UnitCelsius"@,
            InferredUnitType::Fahrenheit => "UnitFahrenheit"@,
            InferredUnitType::Radians => "UnitRadians"@,
            InferredUnitType::Degrees => "UnitDegrees"@,
            InferredUnitType::MilesPerHour => "UnitMilesPerHour"@,
            InferredUnitType::FeetPerSecond => "UnitFeetPerSecond"@,
            InferredUnitType::KilometersPerHour => "UnitKilometersPerHour"@,
            InferredUnitType::MetersPerSecond => "UnitMetersPerSecond"@,
            InferredUnitType::RevolutionsPerMinute => "UnitRevolutionsPerMinute"@,
            InferredUnitType::Bytes => "UnitBytes"@,
            InferredUnitType::Kilobytes => "UnitKilobytes"@,
            InferredUnitType::Kibibytes => "UnitKibibytes"@,
            InferredUnitType::Megabytes => "UnitMegabytes"@,
            InferredUnitType::Mebibytes => "UnitMebibytes"@,
            InferredUnitType::Gigabytes => "UnitGigabytes"@,
            InferredUnitType::Gibibytes => "UnitGibibytes"@,
            InferredUnitType::Terabytes => "UnitTerabytes"@,
            InferredUnitType::Tebibytes => "UnitTebibytes"@,
            InferredUnitType::Petabytes => "UnitPetabytes"@,
            InferredUnitType::Pebibytes => "UnitPebibytes"@,
            InferredUnitType::Volts => "UnitVolts"@,
            InferredUnitType::Amperes => "UnitAmperes"@,
            InferredUnitType::Resistance => "UnitResistance"@,
            InferredUnitType::Capacity => "UnitCapacity"@,
            InferredUnitType::Power => "UnitPower"@,
            InferredUnitType::Seconds => "UnitSeconds"@,
            InferredUnitType::Minutes => "UnitMinutes"@,
            InferredUnitType::Hours => "UnitHours"@,
            InferredUnitType::Days => "UnitDays"@,
            InferredUnitType::Percentage => "UnitPercentage"@,
            InferredUnitType::Raw => "UnitRaw"@,
        }
    }

    /// The name of the category's constant in the generated C code.
    pub fn tag(&self) -> (r: &'static str)
        ensures
            r@ == self.tag_text(),
    {
        match self {
            InferredUnitType::Kelvin => "UnitKelvin",
            InferredUnitType::Celsius => "UnitCelsius",
            InferredUnitType::Fahrenheit => "UnitFahrenheit",
            InferredUnitType::Radians => "UnitRadians",
            InferredUnitType::Degrees => "UnitDegrees",
            InferredUnitType::MilesPerHour => "UnitMilesPerHour",
            InferredUnitType::FeetPerSecond => "UnitFeetPerSecond",
            InferredUnitType::KilometersPerHour => "UnitKilometersPerHour",
            InferredUnitType::MetersPerSecond => "UnitMetersPerSecond",
            InferredUnitType::RevolutionsPerMinute => "UnitRevolutionsPerMinute",
            InferredUnitType::Bytes => "UnitBytes",
            InferredUnitType::Kilobytes => "UnitKilobytes",
            InferredUnitType::Kibibytes => "UnitKibibytes",
            InferredUnitType::Megabytes => "UnitMegabytes",
            InferredUnitType::Mebibytes => "UnitMebibytes",
            InferredUnitType::Gigabytes => "UnitGigabytes",
            InferredUnitType::Gibibytes => "UnitGibibytes",
            InferredUnitType::Terabytes => "UnitTerabytes",
            InferredUnitType::Tebibytes => "UnitTebibytes",
            InferredUnitType::Petabytes => "UnitPetabytes",
            InferredUnitType::Pebibytes => "UnitPebibytes",
            InferredUnitType::Volts => "UnitVolts",
            InferredUnitType::Amperes => "UnitAmperes",
            InferredUnitType::Resistance => "UnitResistance",
            InferredUnitType::Capacity => "UnitCapacity",
            InferredUnitType::Power => "UnitPower",
            InferredUnitType::Seconds => "UnitSeconds",
            InferredUnitType::Minutes => "UnitMinutes",
            InferredUnitType::Hours => "UnitHours",
            InferredUnitType::Days => "UnitDays",
            InferredUnitType::Percentage => "UnitPercentage",
            InferredUnitType::Raw => "UnitRaw",
        }
    }

    /// Classifies a unit label. Inference never fails a generation run: a label
    /// that names no category is classified as `Raw`, and the failure is handed
    /// back as a diagnostic for the caller to report.
    pub fn classify(raw_unit_text: &str) -> (r: Classification)
        ensures
            r.unit == classified(raw_unit_text@),
            match unit_of_key(normalized(raw_unit_text@)) {
                Some(_) => r.diagnostic is None,
                None => r.diagnostic is Some && r.diagnostic->0@ == inference_failure(
                    raw_unit_text@,
                ),
            },
    {
        match <InferredUnitType as std::str::FromStr>::from_str(raw_unit_text) {
            Ok(unit) => Classification { unit, diagnostic: None },
            Err(message) => Classification { unit: InferredUnitType::Raw, diagnostic: Some(message) },
        }
    }
}

impl std::str::FromStr for InferredUnitType {
    type Err = String;

    /// Infers the category from a unit label, whatever its case and the
    /// whitespace around it. A label that names no category is an error, whose
    /// message quotes the label as it was given.
    fn from_str(s: &str) -> (r: Result<InferredUnitType, String>)
        ensures
            match unit_of_key(normalized(s@)) {
                Some(unit) => r == Ok::<InferredUnitType, String>(unit),
                None => r is Err && r->Err_0@ == inference_failure(s@),
            },
    {
        let key = trim(s).to_lowercase();
        match classify_key(key.as_str()) {
            Some(unit) => Ok(unit),
            None => {
                let mut message = "Could not infer unit type from '".to_owned();
                message.append(s);
                message.append("'");
                Err(message)
            },
        }
    }
}

/// Classification does not see the case of a label: two labels whose trimmed
/// forms are the same in lower case get the same category.
pub proof fn classification_ignores_case(a: Seq<char>, b: Seq<char>)
    requires
        lowercased(trimmed(a)) == lowercased(trimmed(b)),
    ensures
        classified(a) == classified(b),
        unit_of_key(normalized(a)) == unit_of_key(normalized(b)),
{
}

/// Classification does not see white space around a label: a label with blank
/// padding before and after it gets the category of the label alone.
pub proof fn classification_ignores_padding(lead: Seq<char>, label: Seq<char>, trail: Seq<char>)
    requires
        blank(lead),
        blank(trail),
    ensures
        classified(lead + label + trail) == classified(label),
        unit_of_key(normalized(lead + label + trail)) == unit_of_key(normalized(label)),
{
    trimming_ignores_padding(lead, label, trail);
}

} // verus!
