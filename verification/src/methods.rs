//! The closed set of remote operations and their names on the wire.

use vstd::prelude::*;

verus! {

/// A remote operation of the service.
#[derive(Debug, Clone, Copy, PartialEq, Eq, Structural)]
pub enum Method {
    /// Generates true random integers within a user-defined range.
    GenerateIntegers,
    /// Generates true random decimal fractions from a uniform distribution across
    /// the [0,1] interval with a user-defined number of decimal places.
    GenerateDecimalFractions,
    /// Generates true random numbers from a Gaussian distribution.
    GenerateGaussians,
    /// Generates true random strings.
    GenerateStrings,
    /// Generates version 4 true random Universally Unique IDentifiers.
    GenerateUUIDs,
    /// Generates Binary Large OBjects containing true random data.
    GenerateBlobs,
    /// Returns information related to the usage of a given API key.
    GetUsage,
}

impl Method {
    /// The name by which the service knows this operation.
    pub open spec fn wire_name(self) -> Seq<char> {
        match self {
            Method::GenerateIntegers => "generateIntegers"@,
            Method::GenerateDecimalFractions => "generateDecimalFractions"@,
            Method::GenerateGaussians => "generateGaussians"@,
            Method::GenerateStrings => "generateStrings"@,
            Method::GenerateUUIDs => "generateUUIDs"@,
            Method::GenerateBlobs => "generateBlobs"@,
            Method::GetUsage => "getUsage"@,
        }
    }

    /// Returns the name by which the service knows this operation.
    pub fn name(self) -> (name: &'static str)
        ensures
            name@ == self.wire_name(),
    {
        match self {
            Method::GenerateIntegers => "generateIntegers",
            Method::GenerateDecimalFractions => "generateDecimalFractions",
            Method::GenerateGaussians => "generateGaussians",
            Method::GenerateStrings => "generateStrings",
            Method::GenerateUUIDs => "generateUUIDs",
            Method::GenerateBlobs => "generateBlobs",
            Method::GetUsage => "getUsage",
        }
    }
}

} // verus!
