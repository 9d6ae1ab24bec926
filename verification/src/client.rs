//! The client: it holds the API key and prepares the call of each operation.
//!
//! Nothing here touches the network. A call is prepared here, its body is sent by
//! the caller, and the reply is read by [`crate::model::Response::from_reply`].

use vstd::prelude::*;
use crate::error::{Error, ErrorView};
use crate::methods::Method;
use crate::model::{AllowedCharacters, ApiKey, Request};
use crate::params::{
    GenerateBlobsParams, GenerateDecimalFractionsParams, GenerateGaussiansParams,
    GenerateIntegersParams, GenerateStringsParams, GenerateUUIDsParams, Params,
};
use crate::request_builders::{
    RequestBlobs, RequestDecimalFractions, RequestGaussians, RequestIntegers, RequestStrings,
    RequestUUIDs,
};
use crate::requests::{
    EmptyRequest, GenerateBlobsRequest, GenerateDecimalFractionsRequest,
    GenerateGaussiansRequest, GenerateIntegersRequest, GenerateStringsRequest,
    GenerateUUIDsRequest,
};

verus! {

/// The address that every request is posted to.
pub const API_INVOKE: &'static str = "https://api.random.org/json-rpc/2/invoke";

/// Whether `r` is what the check of a request yields: the request as it is, where
/// no parameter is outside its range, and the first such parameter otherwise.
pub open spec fn checked_of<P: Params>(request: Request<P>, r: Result<Request<P>, Error>) -> bool {
    match request.params.fault() {
        Some(p) => r matches Err(e) && e@ == ErrorView::InvalidParameter(p),
        None => r == Ok::<Request<P>, Error>(request),
    }
}

/// Checks the parameters of a request against the ranges that the service
/// documents. A request with a parameter outside its range is not to be sent.
pub fn checked<P: Params>(request: Request<P>) -> (r: Result<Request<P>, Error>)
    ensures
        checked_of(request, r),
{
    match request.params.check() {
        Ok(()) => Ok(request),
        Err(p) => Err(Error::InvalidParameter(p)),
    }
}

/// A client of the service.
#[derive(Debug)]
pub struct Random {
    api_key: ApiKey,
}

impl Random {
    /// The API key that the client sends with every request.
    pub closed spec fn key(&self) -> Seq<char> {
        self.api_key@
    }

    /// Makes a client that uses the given API key.
    pub fn new(api_key: &str) -> (r: Random)
        ensures
            r.key() == api_key@,
    {
        Random { api_key: ApiKey(api_key.to_owned()) }
    }

    /// Starts a request for integers with the default parameters.
    pub fn request_integers(&self) -> (r: RequestIntegers<'_>)
        ensures
            r@ == RequestIntegers::defaults(self.key()),
    {
        RequestIntegers::new(self)
    }

    /// Starts a request for decimal fractions with the default parameters.
    pub fn request_decimal_fractions(&self) -> (r: RequestDecimalFractions<'_>)
        ensures
            r@ == RequestDecimalFractions::defaults(self.key()),
    {
        RequestDecimalFractions::new(self)
    }

    /// Starts a request for gaussians with the default parameters.
    pub fn request_gaussians(&self) -> (r: RequestGaussians<'_>)
        ensures
            r@ == RequestGaussians::defaults(self.key()),
    {
        RequestGaussians::new(self)
    }

    /// Starts a request for strings with the default parameters.
    pub fn request_strings(&self) -> (r: RequestStrings<'_>)
        ensures
            r@ == RequestStrings::defaults(self.key()),
    {
        RequestStrings::new(self)
    }

    /// Starts a request for UUIDs with the default parameters.
    pub fn request_uuids(&self) -> (r: RequestUUIDs<'_>)
        ensures
            r@ == RequestUUIDs::defaults(self.key()),
    {
        RequestUUIDs::new(self)
    }

    /// Starts a request for blobs with the default parameters.
    pub fn request_blobs(&self) -> (r: RequestBlobs<'_>)
        ensures
            r@ == RequestBlobs::defaults(self.key()),
    {
        RequestBlobs::new(self)
    }

    /// Whether `r` is what preparing a call of `generateIntegers` yields.
    pub open spec fn integers_call(
        api_key: Seq<char>,
        min: i32,
        max: i32,
        limit: u16,
        replacement: bool,
        r: Result<GenerateIntegersRequest, Error>,
    ) -> bool {
        match GenerateIntegersParams::fault_of(min, max, limit) {
            Some(p) => r matches Err(e) && e@ == ErrorView::InvalidParameter(p),
            None => r matches Ok(request) && request.holds(
                api_key,
                min,
                max,
                limit,
                replacement,
            ),
        }
    }

    /// Prepares a call of `generateIntegers`, which draws true random integers
    /// from a range.
    ///
    /// * `min` and `max` must be from -1e9 to 1e9
    /// * `limit` must be from 1 to 1e4
    pub fn generate_integers(&self, min: i32, max: i32, limit: u16, replacement: bool) -> (r:
        Result<GenerateIntegersRequest, Error>)
        ensures
            Random::integers_call(self.key(), min, max, limit, replacement, r),
    {
        checked(GenerateIntegersRequest::new(self.api_key.clone(), min, max, limit, replacement))
    }

    /// Whether `r` is what preparing a call of `generateDecimalFractions` yields.
    pub open spec fn decimal_fractions_call(
        api_key: Seq<char>,
        limit: u16,
        decimal_places: u8,
        r: Result<GenerateDecimalFractionsRequest, Error>,
    ) -> bool {
        match GenerateDecimalFractionsParams::fault_of(limit, decimal_places) {
            Some(p) => r matches Err(e) && e@ == ErrorView::InvalidParameter(p),
            None => r matches Ok(request) && request.holds(api_key, limit, decimal_places),
        }
    }

    /// Prepares a call of `generateDecimalFractions`, which draws true random
    /// decimal fractions from a uniform distribution across the interval [0,1].
    ///
    /// * `limit` must be from 1 to 1e4
    /// * `decimal_places` must be from 1 to 20
    pub fn generate_decimal_fractions(&self, limit: u16, decimal_places: u8) -> (r: Result<
        GenerateDecimalFractionsRequest,
        Error,
    >)
        ensures
            Random::decimal_fractions_call(self.key(), limit, decimal_places, r),
    {
        checked(GenerateDecimalFractionsRequest::new(self.api_key.clone(), limit, decimal_places))
    }

    /// Whether `r` is what preparing a call of `generateGaussians` yields.
    pub open spec fn gaussians_call(
        api_key: Seq<char>,
        limit: u16,
        mean: i32,
        standard_deviation: i32,
        significant_digits: u8,
        r: Result<GenerateGaussiansRequest, Error>,
    ) -> bool {
        match GenerateGaussiansParams::fault_of(
            limit,
            mean,
            standard_deviation,
            significant_digits,
        ) {
            Some(p) => r matches Err(e) && e@ == ErrorView::InvalidParameter(p),
            None => r matches Ok(request) && request.holds(
                api_key,
                limit,
                mean,
                standard_deviation,
                significant_digits,
            ),
        }
    }

    /// Prepares a call of `generateGaussians`, which draws true random numbers
    /// from a Gaussian distribution.
    ///
    /// * `limit` must be from 1 to 1e4
    /// * `mean` and `standard_deviation` must be from -1e6 to 1e6
    /// * `significant_digits` must be from 2 to 20
    pub fn generate_gaussians(
        &self,
        limit: u16,
        mean: i32,
        standard_deviation: i32,
        significant_digits: u8,
    ) -> (r: Result<GenerateGaussiansRequest, Error>)
        ensures
            Random::gaussians_call(
                self.key(),
                limit,
                mean,
                standard_deviation,
                significant_digits,
                r,
            ),
    {
        checked(
            GenerateGaussiansRequest::new(
                self.api_key.clone(),
                limit,
                mean,
                standard_deviation,
                significant_digits,
            ),
        )
    }

    /// Whether `r` is what preparing a call of `generateStrings` yields, the
    /// allowed characters being given in the order in which they go out.
    pub open spec fn strings_call(
        api_key: Seq<char>,
        limit: u16,
        length: u8,
        characters: Seq<char>,
        r: Result<GenerateStringsRequest, Error>,
    ) -> bool {
        match GenerateStringsParams::fault_of(limit, length, characters) {
            Some(p) => r matches Err(e) && e@ == ErrorView::InvalidParameter(p),
            None => r matches Ok(request) && request.holds(api_key, limit, length, characters),
        }
    }

    /// Prepares a call of `generateStrings`, which draws true random strings.
    ///
    /// * `limit` must be from 1 to 1e4
    /// * `length` must be from 1 to 20
    /// * `characters` must hold from 1 to 80 characters
    pub fn generate_strings(&self, limit: u16, length: u8, characters: AllowedCharacters) -> (r:
        Result<GenerateStringsRequest, Error>)
        ensures
            Random::strings_call(self.key(), limit, length, characters.sequence(), r),
            characters.well_formed(),
    {
        checked(GenerateStringsRequest::new(self.api_key.clone(), limit, length, characters))
    }

    /// Whether `r` is what preparing a call of `generateUUIDs` yields.
    pub open spec fn uuids_call(
        api_key: Seq<char>,
        limit: u16,
        r: Result<GenerateUUIDsRequest, Error>,
    ) -> bool {
        match GenerateUUIDsParams::fault_of(limit) {
            Some(p) => r matches Err(e) && e@ == ErrorView::InvalidParameter(p),
            None => r matches Ok(request) && request.holds(api_key, limit),
        }
    }

    /// Prepares a call of `generateUUIDs`, which draws version 4 true random
    /// UUIDs.
    ///
    /// * `limit` must be from 1 to 1e3
    pub fn generate_uuids(&self, limit: u16) -> (r: Result<GenerateUUIDsRequest, Error>)
        ensures
            Random::uuids_call(self.key(), limit, r),
    {
        checked(GenerateUUIDsRequest::new(self.api_key.clone(), limit))
    }

    /// Whether `r` is what preparing a call of `generateBlobs` yields.
    pub open spec fn blobs_call(
        api_key: Seq<char>,
        limit: u16,
        size: u32,
        r: Result<GenerateBlobsRequest, Error>,
    ) -> bool {
        match GenerateBlobsParams::fault_of(limit, size) {
            Some(p) => r matches Err(e) && e@ == ErrorView::InvalidParameter(p),
            None => r matches Ok(request) && request.holds(api_key, limit, size),
        }
    }

    /// Prepares a call of `generateBlobs`, which draws blobs of true random data.
    ///
    /// * `limit` must be from 1 to 100
    /// * `size` must be from 1 to 1048576 and divisible by 8
    pub fn generate_blobs(&self, limit: u16, size: u32) -> (r: Result<
        GenerateBlobsRequest,
        Error,
    >)
        ensures
            Random::blobs_call(self.key(), limit, size, r),
    {
        checked(GenerateBlobsRequest::new(self.api_key.clone(), limit, size))
    }

    /// Prepares a call of `getUsage`, which tells how much the API key has used.
    pub fn get_usage(&self) -> (r: EmptyRequest)
        ensures
            r.holds(Method::GetUsage, self.key()),
    {
        EmptyRequest::new(Method::GetUsage, self.api_key.clone())
    }
}

} // verus!
