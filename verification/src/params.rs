//! The parameters of each operation: their ranges and their shape on the wire.

use vstd::prelude::*;
use crate::error::Parameter;
use crate::json::{Json, JsonValue};
use crate::model::ApiKey;

verus! {

/// The least and greatest bound of a range of integers to draw from.
pub const BOUND_MIN: i32 = -1_000_000_000;

pub const BOUND_MAX: i32 = 1_000_000_000;

/// The greatest count of integers, decimal fractions, gaussians or strings in
/// one call.
pub const LIMIT_MAX: u16 = 10_000;

/// The greatest count of UUIDs in one call.
pub const UUID_LIMIT_MAX: u16 = 1_000;

/// The greatest count of blobs in one call.
pub const BLOB_LIMIT_MAX: u16 = 100;

/// The greatest number of decimal places, of significant digits, and the
/// greatest length of a string.
pub const DIGITS_MAX: u8 = 20;

/// The least number of significant digits.
pub const SIGNIFICANT_DIGITS_MIN: u8 = 2;

/// The least and greatest mean and standard deviation.
pub const MOMENT_MIN: i32 = -1_000_000;

pub const MOMENT_MAX: i32 = 1_000_000;

/// The greatest number of allowed characters.
pub const CHARACTERS_MAX: usize = 80;

/// The greatest size of a blob, in bits.
pub const BLOB_SIZE_MAX: u32 = 1_048_576;

/// What the parameters of every operation have.
pub trait Params {
    /// The object that stands for the parameters on the wire.
    spec fn wire(&self) -> JsonValue;

    /// The first parameter, in the order of the fields, that is outside the range
    /// that the service documents for it.
    spec fn fault(&self) -> Option<Parameter>;

    /// Builds the object that stands for the parameters on the wire.
    fn to_json(&self) -> (doc: Json)
        ensures
            doc@ == self.wire(),
    ;

    /// Checks every parameter against the range that the service documents for
    /// it. An `Err` names the first one, in the order of the fields, that is
    /// outside its range.
    fn check(&self) -> (r: Result<(), Parameter>)
        ensures
            r == match self.fault() {
                Some(p) => Err::<(), Parameter>(p),
                None => Ok::<(), Parameter>(()),
            },
    ;
}

/// The first of two faults.
pub open spec fn or_else(first: Option<Parameter>, second: Option<Parameter>) -> Option<
    Parameter,
> {
    if first is Some {
        first
    } else {
        second
    }
}

/// The fault of a parameter that must lie between two bounds.
pub open spec fn outside(value: int, least: int, greatest: int, p: Parameter) -> Option<
    Parameter,
> {
    if least <= value <= greatest {
        None
    } else {
        Some(p)
    }
}

/// The parameters of a call that takes none but the API key.
#[derive(Debug)]
pub struct ApiKeyParams {
    /// The API key.
    pub api_key: ApiKey,
}

impl ApiKeyParams {
    pub open spec fn wire_of(api_key: Seq<char>) -> JsonValue {
        JsonValue::empty_object().with("apiKey"@, JsonValue::String(api_key))
    }
}

impl Params for ApiKeyParams {
    open spec fn wire(&self) -> JsonValue {
        ApiKeyParams::wire_of(self.api_key@)
    }

    open spec fn fault(&self) -> Option<Parameter> {
        None
    }

    fn to_json(&self) -> (doc: Json) {
        let mut doc = Json::new_object();
        doc.insert("apiKey", Json::from_str(self.api_key.0.as_str()));
        doc
    }

    fn check(&self) -> (r: Result<(), Parameter>) {
        Ok(())
    }
}

/// The parameters of `generateIntegers`.
#[derive(Debug)]
pub struct GenerateIntegersParams {
    /// The API key.
    pub api_key: ApiKey,
    /// The lower bound of the range to draw from, from -1e9 to 1e9.
    pub min: i32,
    /// The upper bound of the range to draw from, from -1e9 to 1e9.
    pub max: i32,
    /// How many integers to draw, from 1 to 1e4.
    pub limit: u16,
    /// Whether the numbers are drawn with replacement. With it the numbers may
    /// repeat, like a series of dice rolls; without it they are unique, like
    /// raffle tickets drawn from a container.
    pub replacement: bool,
}

impl GenerateIntegersParams {
    pub open spec fn wire_of(
        api_key: Seq<char>,
        min: i32,
        max: i32,
        limit: u16,
        replacement: bool,
    ) -> JsonValue {
        JsonValue::empty_object().with("apiKey"@, JsonValue::String(api_key)).with(
            "min"@,
            JsonValue::integer(min as int),
        ).with("max"@, JsonValue::integer(max as int)).with(
            "n"@,
            JsonValue::integer(limit as int),
        ).with("replacement"@, JsonValue::Bool(replacement))
    }

    pub open spec fn fault_of(min: i32, max: i32, limit: u16) -> Option<Parameter> {
        or_else(
            outside(min as int, BOUND_MIN as int, BOUND_MAX as int, Parameter::Min),
            or_else(
                outside(max as int, BOUND_MIN as int, BOUND_MAX as int, Parameter::Max),
                outside(limit as int, 1, LIMIT_MAX as int, Parameter::Limit),
            ),
        )
    }
}

impl Params for GenerateIntegersParams {
    open spec fn wire(&self) -> JsonValue {
        GenerateIntegersParams::wire_of(
            self.api_key@,
            self.min,
            self.max,
            self.limit,
            self.replacement,
        )
    }

    open spec fn fault(&self) -> Option<Parameter> {
        GenerateIntegersParams::fault_of(self.min, self.max, self.limit)
    }

    fn to_json(&self) -> (doc: Json) {
        let mut doc = Json::new_object();
        doc.insert("apiKey", Json::from_str(self.api_key.0.as_str()));
        doc.insert("min", Json::from_i64(self.min as i64));
        doc.insert("max", Json::from_i64(self.max as i64));
        doc.insert("n", Json::from_u64(self.limit as u64));
        doc.insert("replacement", Json::from_bool(self.replacement));
        doc
    }

    fn check(&self) -> (r: Result<(), Parameter>) {
        if self.min < BOUND_MIN || self.min > BOUND_MAX {
            Err(Parameter::Min)
        } else if self.max < BOUND_MIN || self.max > BOUND_MAX {
            Err(Parameter::Max)
        } else if self.limit < 1 || self.limit > LIMIT_MAX {
            Err(Parameter::Limit)
        } else {
            Ok(())
        }
    }
}

/// The parameters of `generateDecimalFractions`.
#[derive(Debug)]
pub struct GenerateDecimalFractionsParams {
    /// The API key.
    pub api_key: ApiKey,
    /// How many decimal fractions to draw, from 1 to 1e4.
    pub limit: u16,
    /// The number of decimal places of each, from 1 to 20.
    pub decimal_places: u8,
}

impl GenerateDecimalFractionsParams {
    pub open spec fn wire_of(api_key: Seq<char>, limit: u16, decimal_places: u8) -> JsonValue {
        JsonValue::empty_object().with("apiKey"@, JsonValue::String(api_key)).with(
            "n"@,
            JsonValue::integer(limit as int),
        ).with("decimalPlaces"@, JsonValue::integer(decimal_places as int))
    }

    pub open spec fn fault_of(limit: u16, decimal_places: u8) -> Option<Parameter> {
        or_else(
            outside(limit as int, 1, LIMIT_MAX as int, Parameter::Limit),
            outside(decimal_places as int, 1, DIGITS_MAX as int, Parameter::DecimalPlaces),
        )
    }
}

impl Params for GenerateDecimalFractionsParams {
    open spec fn wire(&self) -> JsonValue {
        GenerateDecimalFractionsParams::wire_of(self.api_key@, self.limit, self.decimal_places)
    }

    open spec fn fault(&self) -> Option<Parameter> {
        GenerateDecimalFractionsParams::fault_of(self.limit, self.decimal_places)
    }

    fn to_json(&self) -> (doc: Json) {
        let mut doc = Json::new_object();
        doc.insert("apiKey", Json::from_str(self.api_key.0.as_str()));
        doc.insert("n", Json::from_u64(self.limit as u64));
        doc.insert("decimalPlaces", Json::from_u64(self.decimal_places as u64));
        doc
    }

    fn check(&self) -> (r: Result<(), Parameter>) {
        if self.limit < 1 || self.limit > LIMIT_MAX {
            Err(Parameter::Limit)
        } else if self.decimal_places < 1 || self.decimal_places > DIGITS_MAX {
            Err(Parameter::DecimalPlaces)
        } else {
            Ok(())
        }
    }
}

/// The parameters of `generateGaussians`.
#[derive(Debug)]
pub struct GenerateGaussiansParams {
    /// The API key.
    pub api_key: ApiKey,
    /// How many numbers to draw, from 1 to 1e4.
    pub limit: u16,
    /// The mean of the distribution, from -1e6 to 1e6.
    pub mean: i32,
    /// The standard deviation of the distribution, from -1e6 to 1e6.
    pub standard_deviation: i32,
    /// The number of significant digits of each, from 2 to 20.
    pub significant_digits: u8,
}

impl GenerateGaussiansParams {
    pub open spec fn wire_of(
        api_key: Seq<char>,
        limit: u16,
        mean: i32,
        standard_deviation: i32,
        significant_digits: u8,
    ) -> JsonValue {
        JsonValue::empty_object().with("apiKey"@, JsonValue::String(api_key)).with(
            "n"@,
            JsonValue::integer(limit as int),
        ).with("mean"@, JsonValue::integer(mean as int)).with(
            "standardDeviation"@,
            JsonValue::integer(standard_deviation as int),
        ).with("significantDigits"@, JsonValue::integer(significant_digits as int))
    }

    pub open spec fn fault_of(
        limit: u16,
        mean: i32,
        standard_deviation: i32,
        significant_digits: u8,
    ) -> Option<Parameter> {
        or_else(
            outside(limit as int, 1, LIMIT_MAX as int, Parameter::Limit),
            or_else(
                outside(mean as int, MOMENT_MIN as int, MOMENT_MAX as int, Parameter::Mean),
                or_else(
                    outside(
                        standard_deviation as int,
                        MOMENT_MIN as int,
                        MOMENT_MAX as int,
                        Parameter::StandardDeviation,
                    ),
                    outside(
                        significant_digits as int,
                        SIGNIFICANT_DIGITS_MIN as int,
                        DIGITS_MAX as int,
                        Parameter::SignificantDigits,
                    ),
                ),
            ),
        )
    }
}

impl Params for GenerateGaussiansParams {
    open spec fn wire(&self) -> JsonValue {
        GenerateGaussiansParams::wire_of(
            self.api_key@,
            self.limit,
            self.mean,
            self.standard_deviation,
            self.significant_digits,
        )
    }

    open spec fn fault(&self) -> Option<Parameter> {
        GenerateGaussiansParams::fault_of(
            self.limit,
            self.mean,
            self.standard_deviation,
            self.significant_digits,
        )
    }

    fn to_json(&self) -> (doc: Json) {
        let mut doc = Json::new_object();
        doc.insert("apiKey", Json::from_str(self.api_key.0.as_str()));
        doc.insert("n", Json::from_u64(self.limit as u64));
        doc.insert("mean", Json::from_i64(self.mean as i64));
        doc.insert("standardDeviation", Json::from_i64(self.standard_deviation as i64));
        doc.insert("significantDigits", Json::from_u64(self.significant_digits as u64));
        doc
    }

    fn check(&self) -> (r: Result<(), Parameter>) {
        if self.limit < 1 || self.limit > LIMIT_MAX {
            Err(Parameter::Limit)
        } else if self.mean < MOMENT_MIN || self.mean > MOMENT_MAX {
            Err(Parameter::Mean)
        } else if self.standard_deviation < MOMENT_MIN || self.standard_deviation > MOMENT_MAX {
            Err(Parameter::StandardDeviation)
        } else if self.significant_digits < SIGNIFICANT_DIGITS_MIN || self.significant_digits
            > DIGITS_MAX {
            Err(Parameter::SignificantDigits)
        } else {
            Ok(())
        }
    }
}

/// The parameters of `generateStrings`.
#[derive(Debug)]
pub struct GenerateStringsParams {
    /// The API key.
    pub api_key: ApiKey,
    /// How many strings to draw, from 1 to 1e4.
    pub limit: u16,
    /// The length of each string, from 1 to 20.
    pub length: u8,
    /// The characters that may occur in the strings, from 1 to 80 of them.
    pub characters: String,
}

impl GenerateStringsParams {
    pub open spec fn wire_of(
        api_key: Seq<char>,
        limit: u16,
        length: u8,
        characters: Seq<char>,
    ) -> JsonValue {
        JsonValue::empty_object().with("apiKey"@, JsonValue::String(api_key)).with(
            "n"@,
            JsonValue::integer(limit as int),
        ).with("length"@, JsonValue::integer(length as int)).with(
            "characters"@,
            JsonValue::String(characters),
        )
    }

    pub open spec fn fault_of(limit: u16, length: u8, characters: Seq<char>) -> Option<
        Parameter,
    > {
        or_else(
            outside(limit as int, 1, LIMIT_MAX as int, Parameter::Limit),
            or_else(
                outside(length as int, 1, DIGITS_MAX as int, Parameter::Length),
                outside(
                    characters.len() as int,
                    1,
                    CHARACTERS_MAX as int,
                    Parameter::Characters,
                ),
            ),
        )
    }
}

impl Params for GenerateStringsParams {
    open spec fn wire(&self) -> JsonValue {
        GenerateStringsParams::wire_of(self.api_key@, self.limit, self.length, self.characters@)
    }

    open spec fn fault(&self) -> Option<Parameter> {
        GenerateStringsParams::fault_of(self.limit, self.length, self.characters@)
    }

    fn to_json(&self) -> (doc: Json) {
        let mut doc = Json::new_object();
        doc.insert("apiKey", Json::from_str(self.api_key.0.as_str()));
        doc.insert("n", Json::from_u64(self.limit as u64));
        doc.insert("length", Json::from_u64(self.length as u64));
        doc.insert("characters", Json::from_str(self.characters.as_str()));
        doc
    }

    fn check(&self) -> (r: Result<(), Parameter>) {
        if self.limit < 1 || self.limit > LIMIT_MAX {
            return Err(Parameter::Limit);
        }
        if self.length < 1 || self.length > DIGITS_MAX {
            return Err(Parameter::Length);
        }
        let count = self.characters.as_str().unicode_len();
        if count < 1 || count > CHARACTERS_MAX {
            Err(Parameter::Characters)
        } else {
            Ok(())
        }
    }
}

/// The parameters of `generateUUIDs`.
#[derive(Debug)]
pub struct GenerateUUIDsParams {
    /// The API key.
    pub api_key: ApiKey,
    /// How many UUIDs to draw, from 1 to 1e3.
    pub limit: u16,
}

impl GenerateUUIDsParams {
    pub open spec fn wire_of(api_key: Seq<char>, limit: u16) -> JsonValue {
        JsonValue::empty_object().with("apiKey"@, JsonValue::String(api_key)).with(
            "n"@,
            JsonValue::integer(limit as int),
        )
    }

    pub open spec fn fault_of(limit: u16) -> Option<Parameter> {
        outside(limit as int, 1, UUID_LIMIT_MAX as int, Parameter::Limit)
    }
}

impl Params for GenerateUUIDsParams {
    open spec fn wire(&self) -> JsonValue {
        GenerateUUIDsParams::wire_of(self.api_key@, self.limit)
    }

    open spec fn fault(&self) -> Option<Parameter> {
        GenerateUUIDsParams::fault_of(self.limit)
    }

    fn to_json(&self) -> (doc: Json) {
        let mut doc = Json::new_object();
        doc.insert("apiKey", Json::from_str(self.api_key.0.as_str()));
        doc.insert("n", Json::from_u64(self.limit as u64));
        doc
    }

    fn check(&self) -> (r: Result<(), Parameter>) {
        if self.limit < 1 || self.limit > UUID_LIMIT_MAX {
            Err(Parameter::Limit)
        } else {
            Ok(())
        }
    }
}

/// The parameters of `generateBlobs`.
#[derive(Debug)]
pub struct GenerateBlobsParams {
    /// The API key.
    pub api_key: ApiKey,
    /// How many blobs to draw, from 1 to 100.
    pub limit: u16,
    /// The size of each blob in bits, from 1 to 1048576 and divisible by 8.
    pub size: u32,
}

impl GenerateBlobsParams {
    pub open spec fn wire_of(api_key: Seq<char>, limit: u16, size: u32) -> JsonValue {
        JsonValue::empty_object().with("apiKey"@, JsonValue::String(api_key)).with(
            "n"@,
            JsonValue::integer(limit as int),
        ).with("size"@, JsonValue::integer(size as int))
    }

    pub open spec fn fault_of(limit: u16, size: u32) -> Option<Parameter> {
        or_else(
            outside(limit as int, 1, BLOB_LIMIT_MAX as int, Parameter::Limit),
            if 1 <= size <= BLOB_SIZE_MAX && size % 8 == 0 {
                None
            } else {
                Some(Parameter::Size)
            },
        )
    }
}

impl Params for GenerateBlobsParams {
    open spec fn wire(&self) -> JsonValue {
        GenerateBlobsParams::wire_of(self.api_key@, self.limit, self.size)
    }

    open spec fn fault(&self) -> Option<Parameter> {
        GenerateBlobsParams::fault_of(self.limit, self.size)
    }

    fn to_json(&self) -> (doc: Json) {
        let mut doc = Json::new_object();
        doc.insert("apiKey", Json::from_str(self.api_key.0.as_str()));
        doc.insert("n", Json::from_u64(self.limit as u64));
        doc.insert("size", Json::from_u64(self.size as u64));
        doc
    }

    fn check(&self) -> (r: Result<(), Parameter>) {
        if self.limit < 1 || self.limit > BLOB_LIMIT_MAX {
            Err(Parameter::Limit)
        } else if self.size < 1 || self.size > BLOB_SIZE_MAX || self.size % 8 != 0 {
            Err(Parameter::Size)
        } else {
            Ok(())
        }
    }
}

} // verus!
