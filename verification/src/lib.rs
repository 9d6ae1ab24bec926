//! Typed requests and responses for the random.org JSON-RPC service.
//!
//! The service draws randomness from atmospheric noise. This crate builds the
//! body of each request, checks its parameters against the ranges that the
//! service documents, and reads the replies into typed results. It sends nothing:
//! a caller posts the body and hands back the status and body of the reply.

pub mod client;
pub mod date_de;
pub mod error;
pub mod json;
pub mod methods;
pub mod model;
pub mod params;
pub mod rand;
pub mod request_builders;
pub mod requests;
pub mod results;

pub use client::Random;
pub use date_de::Timestamp;
pub use error::{DecodeError, Error, ErrorCode, Parameter, ResponseError};
pub use json::{Json, Number};
pub use methods::Method;
pub use model::{AllowedCharacters, ApiKey, ApiKeyStatus, Request, RequestId, Response};
pub use request_builders::{
    RequestBlobs, RequestDecimalFractions, RequestGaussians, RequestIntegers, RequestStrings,
    RequestUUIDs,
};
pub use results::{
    GenerateBlobsResult, GenerateDecimalFractionsResult, GenerateGaussiansResult,
    GenerateIntegersResult, GenerateStringsResult, GenerateUUIDsResult, GetUsageResult, RandomData,
    RandomResult,
};
