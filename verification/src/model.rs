//! The account topology and the record types the importer works on.
//!
//! Timestamps are nanoseconds since the Unix epoch; measured values are
//! carried as the bit pattern of an IEEE-754 binary64 number, so that a
//! mapped point holds the value exactly as it was received.

use vstd::prelude::*;

verus! {

/// A measured value, carried by its 64-bit IEEE-754 binary64 bit pattern.
/// The library never interprets the bits; it only moves them into points.
#[derive(Clone, Copy, PartialEq, Eq, Structural, Debug)]
pub struct NumericValue {
    pub bits: u64,
}

/// One half-hourly consumption reading: the interval start (nanoseconds
/// since the Unix epoch) and the quantity consumed.
#[derive(Clone, Copy, PartialEq, Eq, Structural, Debug)]
pub struct ConsumptionRecord {
    pub interval_start: i64,
    pub consumption: NumericValue,
}

/// One standard unit rate: when it becomes valid (nanoseconds since the
/// Unix epoch) and the VAT-inclusive price per unit.
#[derive(Clone, Copy, PartialEq, Eq, Structural, Debug)]
pub struct RateRecord {
    pub valid_from: i64,
    pub value_inc_vat: NumericValue,
}

/// A physical meter, identified by its serial number.
pub struct Meter {
    pub serial_number: String,
}

/// A contract agreement; its tariff code embeds a product code.
pub struct Agreement {
    pub tariff_code: String,
}

/// An electricity meter point: MPAN, agreements in chronological order
/// (the last one is current), and its meters.
pub struct ElectricityMeterPoint {
    pub mpan: String,
    pub agreements: Vec<Agreement>,
    pub meters: Vec<Meter>,
}

/// A gas meter point: MPRN and its meters.
pub struct GasMeterPoint {
    pub mprn: String,
    pub meters: Vec<Meter>,
}

/// A property owns its electricity and gas meter points.
pub struct Property {
    pub address_line_1: String,
    pub electricity_meter_points: Vec<ElectricityMeterPoint>,
    pub gas_meter_points: Vec<GasMeterPoint>,
}

/// An account: an immutable snapshot of its properties, fetched once per run.
pub struct Account {
    pub properties: Vec<Property>,
}

} // verus!
