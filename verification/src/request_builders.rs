//! Builders: a request is started with default parameters, changed by chained
//! calls, and prepared when it is collected.

use vstd::prelude::*;
use crate::client::Random;
use crate::error::Error;
use crate::model::{ascending, lemma_ascending_is_unique, AllowedCharacters};
use crate::requests::{
    GenerateBlobsRequest, GenerateDecimalFractionsRequest, GenerateGaussiansRequest,
    GenerateIntegersRequest, GenerateStringsRequest, GenerateUUIDsRequest,
};

verus! {

/// The characters that a request for strings allows by default: the digits of
/// hexadecimal numbers in lower case.
pub const DEFAULT_CHARACTERS: &'static str = "0123456789abcdef";

/// A request for integers that is being built.
#[derive(Debug)]
pub struct RequestIntegers<'a> {
    client: &'a Random,
    min: i32,
    max: i32,
    limit: u16,
    replacement: bool,
}

/// The content of a [`RequestIntegers`]: the API key of its client and the parameters as
/// they stand.
pub struct RequestIntegersView {
    pub api_key: Seq<char>,
    pub min: i32,
    pub max: i32,
    pub limit: u16,
    pub replacement: bool,
}

impl<'a> View for RequestIntegers<'a> {
    type V = RequestIntegersView;

    closed spec fn view(&self) -> RequestIntegersView {
        RequestIntegersView {
            api_key: self.client.key(),
            min: self.min,
            max: self.max,
            limit: self.limit,
            replacement: self.replacement,
        }
    }
}

impl<'a> RequestIntegers<'a> {
    /// The content of a request for integers that has just been started.
    pub open spec fn defaults(api_key: Seq<char>) -> RequestIntegersView {
        RequestIntegersView {
            api_key,
            min: 0,
            max: 100,
            limit: 10,
            replacement: true,
        }
    }

    /// Starts a request for integers with the default parameters.
    pub fn new(client: &'a Random) -> (r: RequestIntegers<'a>)
        ensures
            r@ == RequestIntegers::defaults(client.key()),
    {
        RequestIntegers { client, min: 0, max: 100, limit: 10, replacement: true }
    }

    /// Sets the lower bound of the range.
    pub fn min(self, min: i32) -> (r: RequestIntegers<'a>)
        ensures
            r@ == (RequestIntegersView { min: min, ..self@ }),
    {
        let mut r = self;
        r.min = min;
        r
    }

    /// Sets the upper bound of the range.
    pub fn max(self, max: i32) -> (r: RequestIntegers<'a>)
        ensures
            r@ == (RequestIntegersView { max: max, ..self@ }),
    {
        let mut r = self;
        r.max = max;
        r
    }

    /// Sets how many items to draw.
    pub fn limit(self, limit: u16) -> (r: RequestIntegers<'a>)
        ensures
            r@ == (RequestIntegersView { limit: limit, ..self@ }),
    {
        let mut r = self;
        r.limit = limit;
        r
    }

    /// Sets whether the numbers are drawn with replacement.
    pub fn replacement(self, replacement: bool) -> (r: RequestIntegers<'a>)
        ensures
            r@ == (RequestIntegersView { replacement: replacement, ..self@ }),
    {
        let mut r = self;
        r.replacement = replacement;
        r
    }

    /// Prepares the call with the parameters as they stand. The builder is used
    /// up.
    pub fn collect(self) -> (r: Result<GenerateIntegersRequest, Error>)
        ensures
            Random::integers_call(
                self@.api_key,
                self@.min,
                self@.max,
                self@.limit,
                self@.replacement,
                r,
            ),
    {
        self.client.generate_integers(self.min, self.max, self.limit, self.replacement)
    }
}

/// A request for decimal fractions that is being built.
#[derive(Debug)]
pub struct RequestDecimalFractions<'a> {
    client: &'a Random,
    limit: u16,
    decimal_places: u8,
}

/// The content of a [`RequestDecimalFractions`]: the API key of its client and the parameters as
/// they stand.
pub struct RequestDecimalFractionsView {
    pub api_key: Seq<char>,
    pub limit: u16,
    pub decimal_places: u8,
}

impl<'a> View for RequestDecimalFractions<'a> {
    type V = RequestDecimalFractionsView;

    closed spec fn view(&self) -> RequestDecimalFractionsView {
        RequestDecimalFractionsView {
            api_key: self.client.key(),
            limit: self.limit,
            decimal_places: self.decimal_places,
        }
    }
}

impl<'a> RequestDecimalFractions<'a> {
    /// The content of a request for decimal fractions that has just been started.
    pub open spec fn defaults(api_key: Seq<char>) -> RequestDecimalFractionsView {
        RequestDecimalFractionsView {
            api_key,
            limit: 10,
            decimal_places: 4,
        }
    }

    /// Starts a request for decimal fractions with the default parameters.
    pub fn new(client: &'a Random) -> (r: RequestDecimalFractions<'a>)
        ensures
            r@ == RequestDecimalFractions::defaults(client.key()),
    {
        RequestDecimalFractions { client, limit: 10, decimal_places: 4 }
    }

    /// Sets how many items to draw.
    pub fn limit(self, limit: u16) -> (r: RequestDecimalFractions<'a>)
        ensures
            r@ == (RequestDecimalFractionsView { limit: limit, ..self@ }),
    {
        let mut r = self;
        r.limit = limit;
        r
    }

    /// Sets the number of decimal places.
    pub fn decimal_places(self, decimal_places: u8) -> (r: RequestDecimalFractions<'a>)
        ensures
            r@ == (RequestDecimalFractionsView { decimal_places: decimal_places, ..self@ }),
    {
        let mut r = self;
        r.decimal_places = decimal_places;
        r
    }

    /// Prepares the call with the parameters as they stand. The builder is used
    /// up.
    pub fn collect(self) -> (r: Result<GenerateDecimalFractionsRequest, Error>)
        ensures
            Random::decimal_fractions_call(
                self@.api_key,
                self@.limit,
                self@.decimal_places,
                r,
            ),
    {
        self.client.generate_decimal_fractions(self.limit, self.decimal_places)
    }
}

/// A request for gaussians that is being built.
#[derive(Debug)]
pub struct RequestGaussians<'a> {
    client: &'a Random,
    limit: u16,
    mean: i32,
    standard_deviation: i32,
    significant_digits: u8,
}

/// The content of a [`RequestGaussians`]: the API key of its client and the parameters as
/// they stand.
pub struct RequestGaussiansView {
    pub api_key: Seq<char>,
    pub limit: u16,
    pub mean: i32,
    pub standard_deviation: i32,
    pub significant_digits: u8,
}

impl<'a> View for RequestGaussians<'a> {
    type V = RequestGaussiansView;

    closed spec fn view(&self) -> RequestGaussiansView {
        RequestGaussiansView {
            api_key: self.client.key(),
            limit: self.limit,
            mean: self.mean,
            standard_deviation: self.standard_deviation,
            significant_digits: self.significant_digits,
        }
    }
}

impl<'a> RequestGaussians<'a> {
    /// The content of a request for gaussians that has just been started.
    pub open spec fn defaults(api_key: Seq<char>) -> RequestGaussiansView {
        RequestGaussiansView {
            api_key,
            limit: 10,
            mean: 0,
            standard_deviation: 0,
            significant_digits: 0,
        }
    }

    /// Starts a request for gaussians with the default parameters.
    pub fn new(client: &'a Random) -> (r: RequestGaussians<'a>)
        ensures
            r@ == RequestGaussians::defaults(client.key()),
    {
        RequestGaussians { client, limit: 10, mean: 0, standard_deviation: 0, significant_digits: 0 }
    }

    /// Sets how many items to draw.
    pub fn limit(self, limit: u16) -> (r: RequestGaussians<'a>)
        ensures
            r@ == (RequestGaussiansView { limit: limit, ..self@ }),
    {
        let mut r = self;
        r.limit = limit;
        r
    }

    /// Sets the mean of the distribution.
    pub fn mean(self, mean: i32) -> (r: RequestGaussians<'a>)
        ensures
            r@ == (RequestGaussiansView { mean: mean, ..self@ }),
    {
        let mut r = self;
        r.mean = mean;
        r
    }

    /// Sets the standard deviation of the distribution.
    pub fn standard_deviation(self, standard_deviation: i32) -> (r: RequestGaussians<'a>)
        ensures
            r@ == (RequestGaussiansView { standard_deviation: standard_deviation, ..self@ }),
    {
        let mut r = self;
        r.standard_deviation = standard_deviation;
        r
    }

    /// Sets the number of significant digits.
    pub fn significant_digits(self, significant_digits: u8) -> (r: RequestGaussians<'a>)
        ensures
            r@ == (RequestGaussiansView { significant_digits: significant_digits, ..self@ }),
    {
        let mut r = self;
        r.significant_digits = significant_digits;
        r
    }

    /// Prepares the call with the parameters as they stand. The builder is used
    /// up.
    pub fn collect(self) -> (r: Result<GenerateGaussiansRequest, Error>)
        ensures
            Random::gaussians_call(
                self@.api_key,
                self@.limit,
                self@.mean,
                self@.standard_deviation,
                self@.significant_digits,
                r,
            ),
    {
        self.client.generate_gaussians(self.limit, self.mean, self.standard_deviation, self.significant_digits)
    }
}

/// A request for strings that is being built.
#[derive(Debug)]
pub struct RequestStrings<'a> {
    client: &'a Random,
    limit: u16,
    length: u8,
    characters: AllowedCharacters,
}

/// The content of a [`RequestStrings`]: the API key of its client and the parameters as
/// they stand.
pub struct RequestStringsView {
    pub api_key: Seq<char>,
    pub limit: u16,
    pub length: u8,
    pub characters: Seq<char>,
}

impl<'a> View for RequestStrings<'a> {
    type V = RequestStringsView;

    closed spec fn view(&self) -> RequestStringsView {
        RequestStringsView {
            api_key: self.client.key(),
            limit: self.limit,
            length: self.length,
            characters: self.characters.sequence(),
        }
    }
}

impl<'a> RequestStrings<'a> {
    /// The content of a request for strings that has just been started.
    pub open spec fn defaults(api_key: Seq<char>) -> RequestStringsView {
        RequestStringsView {
            api_key,
            limit: 10,
            length: 0,
            characters: DEFAULT_CHARACTERS@,
        }
    }

    /// Starts a request for strings with the default parameters.
    pub fn new(client: &'a Random) -> (r: RequestStrings<'a>)
        ensures
            r@ == RequestStrings::defaults(client.key()),
    {
        let characters = AllowedCharacters::from_chars(DEFAULT_CHARACTERS);
        proof {
            reveal_strlit("0123456789abcdef");
            assert(ascending(DEFAULT_CHARACTERS@));
            lemma_ascending_is_unique(characters.sequence(), DEFAULT_CHARACTERS@);
        }
        RequestStrings { client, limit: 10, length: 0, characters }
    }

    /// Sets how many items to draw.
    pub fn limit(self, limit: u16) -> (r: RequestStrings<'a>)
        ensures
            r@ == (RequestStringsView { limit: limit, ..self@ }),
    {
        let mut r = self;
        r.limit = limit;
        r
    }

    /// Sets the length of each string.
    pub fn length(self, length: u8) -> (r: RequestStrings<'a>)
        ensures
            r@ == (RequestStringsView { length: length, ..self@ }),
    {
        let mut r = self;
        r.length = length;
        r
    }

    /// Sets the characters that may occur in the strings.
    pub fn characters(self, characters: AllowedCharacters) -> (r: RequestStrings<'a>)
        ensures
            r@ == (RequestStringsView { characters: characters.sequence(), ..self@ }),
    {
        let mut r = self;
        r.characters = characters;
        r
    }

    /// Prepares the call with the parameters as they stand. The builder is used
    /// up.
    pub fn collect(self) -> (r: Result<GenerateStringsRequest, Error>)
        ensures
            Random::strings_call(
                self@.api_key,
                self@.limit,
                self@.length,
                self@.characters,
                r,
            ),
    {
        self.client.generate_strings(self.limit, self.length, self.characters)
    }
}

/// A request for UUIDs that is being built.
#[derive(Debug)]
pub struct RequestUUIDs<'a> {
    client: &'a Random,
    limit: u16,
}

/// The content of a [`RequestUUIDs`]: the API key of its client and the parameters as
/// they stand.
pub struct RequestUUIDsView {
    pub api_key: Seq<char>,
    pub limit: u16,
}

impl<'a> View for RequestUUIDs<'a> {
    type V = RequestUUIDsView;

    closed spec fn view(&self) -> RequestUUIDsView {
        RequestUUIDsView {
            api_key: self.client.key(),
            limit: self.limit,
        }
    }
}

impl<'a> RequestUUIDs<'a> {
    /// The content of a request for UUIDs that has just been started.
    pub open spec fn defaults(api_key: Seq<char>) -> RequestUUIDsView {
        RequestUUIDsView {
            api_key,
            limit: 10,
        }
    }

    /// Starts a request for UUIDs with the default parameters.
    pub fn new(client: &'a Random) -> (r: RequestUUIDs<'a>)
        ensures
            r@ == RequestUUIDs::defaults(client.key()),
    {
        RequestUUIDs { client, limit: 10 }
    }

    /// Sets how many items to draw.
    pub fn limit(self, limit: u16) -> (r: RequestUUIDs<'a>)
        ensures
            r@ == (RequestUUIDsView { limit: limit, ..self@ }),
    {
        let mut r = self;
        r.limit = limit;
        r
    }

    /// Prepares the call with the parameters as they stand. The builder is used
    /// up.
    pub fn collect(self) -> (r: Result<GenerateUUIDsRequest, Error>)
        ensures
            Random::uuids_call(
                self@.api_key,
                self@.limit,
                r,
            ),
    {
        self.client.generate_uuids(self.limit)
    }
}

/// A request for blobs that is being built.
#[derive(Debug)]
pub struct RequestBlobs<'a> {
    client: &'a Random,
    limit: u16,
    size: u32,
}

/// The content of a [`RequestBlobs`]: the API key of its client and the parameters as
/// they stand.
pub struct RequestBlobsView {
    pub api_key: Seq<char>,
    pub limit: u16,
    pub size: u32,
}

impl<'a> View for RequestBlobs<'a> {
    type V = RequestBlobsView;

    closed spec fn view(&self) -> RequestBlobsView {
        RequestBlobsView {
            api_key: self.client.key(),
            limit: self.limit,
            size: self.size,
        }
    }
}

impl<'a> RequestBlobs<'a> {
    /// The content of a request for blobs that has just been started.
    pub open spec fn defaults(api_key: Seq<char>) -> RequestBlobsView {
        RequestBlobsView {
            api_key,
            limit: 10,
            size: 128,
        }
    }

    /// Starts a request for blobs with the default parameters.
    pub fn new(client: &'a Random) -> (r: RequestBlobs<'a>)
        ensures
            r@ == RequestBlobs::defaults(client.key()),
    {
        RequestBlobs { client, limit: 10, size: 128 }
    }

    /// Sets how many items to draw.
    pub fn limit(self, limit: u16) -> (r: RequestBlobs<'a>)
        ensures
            r@ == (RequestBlobsView { limit: limit, ..self@ }),
    {
        let mut r = self;
        r.limit = limit;
        r
    }

    /// Sets the size of each blob in bits.
    pub fn size(self, size: u32) -> (r: RequestBlobs<'a>)
        ensures
            r@ == (RequestBlobsView { size: size, ..self@ }),
    {
        let mut r = self;
        r.size = size;
        r
    }

    /// Prepares the call with the parameters as they stand. The builder is used
    /// up.
    pub fn collect(self) -> (r: Result<GenerateBlobsRequest, Error>)
        ensures
            Random::blobs_call(
                self@.api_key,
                self@.limit,
                self@.size,
                r,
            ),
    {
        self.client.generate_blobs(self.limit, self.size)
    }
}

/// A request for integers that is collected as it was started is the call
/// `generate_integers(0, 100, 10, true)`: whatever the one yields, the other
/// yields.
pub proof fn lemma_untouched_builder_is_the_default_call(
    api_key: Seq<char>,
    r: Result<GenerateIntegersRequest, Error>,
)
    ensures
        Random::integers_call(
            RequestIntegers::defaults(api_key).api_key,
            RequestIntegers::defaults(api_key).min,
            RequestIntegers::defaults(api_key).max,
            RequestIntegers::defaults(api_key).limit,
            RequestIntegers::defaults(api_key).replacement,
            r,
        ) == Random::integers_call(api_key, 0, 100, 10, true, r),
{
}

} // verus!
