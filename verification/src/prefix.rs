//! Metric unit prefixes and the diagnostic messages used when a prefix
//! has no registered multiplier or a conversion step is unknown.

use vstd::prelude::*;

verus! {

/// A metric unit prefix, ordered from smallest to largest scale.
#[derive(Clone, Copy, Debug, PartialEq, Eq, Structural, Hash)]
pub enum UnitPrefix {
    Femto,
    Pico,
    Nano,
    Micro,
    Milli,
    Centi,
    Deci,
    NoPrefix,
    Deca,
    Hecto,
    Kilo,
    Mega,
    Giga,
    Tera,
    Peta,
}

/// The display name of a unit prefix.
pub open spec fn prefix_label(p: UnitPrefix) -> Seq<char> {
    match p {
        UnitPrefix::Femto => "Femto"@,
        UnitPrefix::Pico => "Pico"@,
        UnitPrefix::Nano => "Nano"@,
        UnitPrefix::Micro => "Micro"@,
        UnitPrefix::Milli => "Milli"@,
        UnitPrefix::Centi => "Centi"@,
        UnitPrefix::Deci => "Deci"@,
        UnitPrefix::NoPrefix => "None"@,
        UnitPrefix::Deca => "Deca"@,
        UnitPrefix::Hecto => "Hecto"@,
        UnitPrefix::Kilo => "Kilo"@,
        UnitPrefix::Mega => "Mega"@,
        UnitPrefix::Giga => "Giga"@,
        UnitPrefix::Tera => "Tera"@,
        UnitPrefix::Peta => "Peta"@,
    }
}

/// The message reported when no multiplier is registered for a prefix.
pub open spec fn prefix_message(p: UnitPrefix) -> Seq<char> {
    "Missing unit prefix multiplier for "@ + prefix_label(p)
}

/// Renders the missing-multiplier message for the given prefix.
pub fn map_error(unit_prefix: UnitPrefix) -> (r: String)
    ensures
        r@ == prefix_message(unit_prefix),
{
    let label: &str = match unit_prefix {
        UnitPrefix::Femto => "Femto",
        UnitPrefix::Pico => "Pico",
        UnitPrefix::Nano => "Nano",
        UnitPrefix::Micro => "Micro",
        UnitPrefix::Milli => "Milli",
        UnitPrefix::Centi => "Centi",
        UnitPrefix::Deci => "Deci",
        UnitPrefix::NoPrefix => "None",
        UnitPrefix::Deca => "Deca",
        UnitPrefix::Hecto => "Hecto",
        UnitPrefix::Kilo => "Kilo",
        UnitPrefix::Mega => "Mega",
        UnitPrefix::Giga => "Giga",
        UnitPrefix::Tera => "Tera",
        UnitPrefix::Peta => "Peta",
    };
    let mut r = String::from_str("Missing unit prefix multiplier for ");
    r.append(label);
    r
}

/// The message reported when no conversion step is registered under a
/// key.
pub open spec fn step_message(key: Seq<char>) -> Seq<char> {
    "No entry for "@ + key
}

/// Renders the missing-conversion-step message for the given key.
pub fn map_step_error(key: &str) -> (r: String)
    ensures
        r@ == step_message(key@),
{
    let mut r = String::from_str("No entry for ");
    r.append(key);
    r
}

} // verus!
