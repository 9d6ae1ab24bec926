//! The request of each operation, ready to go out.

use vstd::prelude::*;
use crate::error::Error;
use crate::json::{printed_text, Json, JsonValue, Number};
use crate::methods::Method;
use crate::model::{AllowedCharacters, ApiKey, Request, RequestId};
use crate::params::{
    ApiKeyParams, GenerateBlobsParams, GenerateDecimalFractionsParams, GenerateGaussiansParams,
    GenerateIntegersParams, GenerateStringsParams, GenerateUUIDsParams, Params,
};

verus! {

/// The version of JSON-RPC that every request names.
pub const API_JSON_RPC_VERSION: &'static str = "2.0";

/// The number that every request goes out with.
pub const REQUEST_ID: u64 = 1;

/// The object that stands for a request on the wire: its four members.
pub open spec fn envelope(json_rpc: Seq<char>, method: Method, params: JsonValue, id: u64)
    -> JsonValue {
    JsonValue::empty_object().with("jsonrpc"@, JsonValue::String(json_rpc)).with(
        "method"@,
        JsonValue::String(method.wire_name()),
    ).with("params"@, params).with("id"@, JsonValue::integer(id as int))
}

impl<P: Params> Request<P> {
    /// The object that stands for the request on the wire.
    pub open spec fn wire(&self) -> JsonValue {
        envelope(self.json_rpc@, self.method, self.params.wire(), self.id.0)
    }

    /// Whether the request is one that the constructors of this crate build:
    /// version "2.0" and the fixed number.
    pub open spec fn well_formed(&self) -> bool {
        &&& self.json_rpc@ == API_JSON_RPC_VERSION@
        &&& self.id == RequestId(REQUEST_ID)
    }

    /// Builds the object that stands for the request on the wire.
    pub fn to_json(&self) -> (doc: Json)
        ensures
            doc@ == self.wire(),
    {
        let mut doc = Json::new_object();
        doc.insert("jsonrpc", Json::from_str(self.json_rpc.as_str()));
        doc.insert("method", Json::from_str(self.method.name()));
        doc.insert("params", self.params.to_json());
        doc.insert("id", Json::from_u64(self.id.0));
        doc
    }

    /// Writes the request as the body that goes to the service. Where the
    /// serializer fails, the error holds its message.
    pub fn to_body(&self) -> (r: Result<String, Error>)
        ensures
            match r {
                Ok(body) => printed_text(self.wire()) == Ok::<Seq<char>, Seq<char>>(body@),
                Err(e) => e matches Error::Encode(message) && printed_text(self.wire()) == Err::<
                    Seq<char>,
                    Seq<char>,
                >(message@),
            },
    {
        match self.to_json().to_text() {
            Ok(body) => Ok(body),
            Err(message) => Err(Error::Encode(message)),
        }
    }
}

/// A request that holds nothing but the API key.
pub type EmptyRequest = Request<ApiKeyParams>;

impl Request<ApiKeyParams> {
    /// Whether this is the request of `method` with this API key.
    pub open spec fn holds(&self, method: Method, api_key: Seq<char>) -> bool {
        &&& self.well_formed()
        &&& self.method == method
        &&& self.params.api_key@ == api_key
    }

    /// Builds the request of an operation that takes no parameters.
    pub fn new(method: Method, api_key: ApiKey) -> (r: EmptyRequest)
        ensures
            r.holds(method, api_key@),
    {
        Request {
            json_rpc: API_JSON_RPC_VERSION.to_owned(),
            method,
            params: ApiKeyParams { api_key },
            id: RequestId(REQUEST_ID),
        }
    }
}

/// A request of `generateIntegers`.
pub type GenerateIntegersRequest = Request<GenerateIntegersParams>;

impl Request<GenerateIntegersParams> {
    /// Whether this is the request of `generateIntegers` with this API key and
    /// these parameters.
    pub open spec fn holds(&self, api_key: Seq<char>, min: i32, max: i32, limit: u16, replacement: bool) -> bool {
        &&& self.well_formed()
        &&& self.method == Method::GenerateIntegers
        &&& self.params.api_key@ == api_key
        &&& self.params.min == min
        &&& self.params.max == max
        &&& self.params.limit == limit
        &&& self.params.replacement == replacement
    }

    /// Builds a request for integers.
    pub fn new(api_key: ApiKey, min: i32, max: i32, limit: u16, replacement: bool) -> (r:
        GenerateIntegersRequest)
        ensures
            r.holds(api_key@, min, max, limit, replacement),
    {
        Request {
            json_rpc: API_JSON_RPC_VERSION.to_owned(),
            method: Method::GenerateIntegers,
            params: GenerateIntegersParams { api_key, min, max, limit, replacement },
            id: RequestId(REQUEST_ID),
        }
    }
}

/// A request of `generateDecimalFractions`.
pub type GenerateDecimalFractionsRequest = Request<GenerateDecimalFractionsParams>;

impl Request<GenerateDecimalFractionsParams> {
    /// Whether this is the request of `generateDecimalFractions` with this API key and
    /// these parameters.
    pub open spec fn holds(&self, api_key: Seq<char>, limit: u16, decimal_places: u8) -> bool {
        &&& self.well_formed()
        &&& self.method == Method::GenerateDecimalFractions
        &&& self.params.api_key@ == api_key
        &&& self.params.limit == limit
        &&& self.params.decimal_places == decimal_places
    }

    /// Builds a request for decimal fractions.
    pub fn new(api_key: ApiKey, limit: u16, decimal_places: u8) -> (r:
        GenerateDecimalFractionsRequest)
        ensures
            r.holds(api_key@, limit, decimal_places),
    {
        Request {
            json_rpc: API_JSON_RPC_VERSION.to_owned(),
            method: Method::GenerateDecimalFractions,
            params: GenerateDecimalFractionsParams { api_key, limit, decimal_places },
            id: RequestId(REQUEST_ID),
        }
    }
}

/// A request of `generateGaussians`.
pub type GenerateGaussiansRequest = Request<GenerateGaussiansParams>;

impl Request<GenerateGaussiansParams> {
    /// Whether this is the request of `generateGaussians` with this API key and
    /// these parameters.
    pub open spec fn holds(&self, api_key: Seq<char>, limit: u16, mean: i32, standard_deviation: i32, significant_digits: u8) -> bool {
        &&& self.well_formed()
        &&& self.method == Method::GenerateGaussians
        &&& self.params.api_key@ == api_key
        &&& self.params.limit == limit
        &&& self.params.mean == mean
        &&& self.params.standard_deviation == standard_deviation
        &&& self.params.significant_digits == significant_digits
    }

    /// Builds a request for gaussians.
    pub fn new(
        api_key: ApiKey,
        limit: u16,
        mean: i32,
        standard_deviation: i32,
        significant_digits: u8,
    ) -> (r: GenerateGaussiansRequest)
        ensures
            r.holds(api_key@, limit, mean, standard_deviation, significant_digits),
    {
        Request {
            json_rpc: API_JSON_RPC_VERSION.to_owned(),
            method: Method::GenerateGaussians,
            params: GenerateGaussiansParams {
                api_key,
                limit,
                mean,
                standard_deviation,
                significant_digits,
            },
            id: RequestId(REQUEST_ID),
        }
    }
}

/// A request of `generateStrings`.
pub type GenerateStringsRequest = Request<GenerateStringsParams>;

impl Request<GenerateStringsParams> {
    /// Whether this is the request of `generateStrings` with this API key and
    /// these parameters.
    pub open spec fn holds(&self, api_key: Seq<char>, limit: u16, length: u8, characters: Seq<char>) -> bool {
        &&& self.well_formed()
        &&& self.method == Method::GenerateStrings
        &&& self.params.api_key@ == api_key
        &&& self.params.limit == limit
        &&& self.params.length == length
        &&& self.params.characters@ == characters
    }

    /// Builds a request for strings. The allowed characters go out as one string,
    /// each of them once, in ascending order.
    pub fn new(api_key: ApiKey, limit: u16, length: u8, characters: AllowedCharacters) -> (r:
        GenerateStringsRequest)
        ensures
            r.holds(api_key@, limit, length, characters.sequence()),
            characters.well_formed(),
    {
        Request {
            json_rpc: API_JSON_RPC_VERSION.to_owned(),
            method: Method::GenerateStrings,
            params: GenerateStringsParams {
                api_key,
                limit,
                length,
                characters: characters.to_text(),
            },
            id: RequestId(REQUEST_ID),
        }
    }
}

/// A request of `generateUUIDs`.
pub type GenerateUUIDsRequest = Request<GenerateUUIDsParams>;

impl Request<GenerateUUIDsParams> {
    /// Whether this is the request of `generateUUIDs` with this API key and
    /// these parameters.
    pub open spec fn holds(&self, api_key: Seq<char>, limit: u16) -> bool {
        &&& self.well_formed()
        &&& self.method == Method::GenerateUUIDs
        &&& self.params.api_key@ == api_key
        &&& self.params.limit == limit
    }

    /// Builds a request for UUIDs.
    pub fn new(api_key: ApiKey, limit: u16) -> (r: GenerateUUIDsRequest)
        ensures
            r.holds(api_key@, limit),
    {
        Request {
            json_rpc: API_JSON_RPC_VERSION.to_owned(),
            method: Method::GenerateUUIDs,
            params: GenerateUUIDsParams { api_key, limit },
            id: RequestId(REQUEST_ID),
        }
    }
}

/// A request of `generateBlobs`.
pub type GenerateBlobsRequest = Request<GenerateBlobsParams>;

impl Request<GenerateBlobsParams> {
    /// Whether this is the request of `generateBlobs` with this API key and
    /// these parameters.
    pub open spec fn holds(&self, api_key: Seq<char>, limit: u16, size: u32) -> bool {
        &&& self.well_formed()
        &&& self.method == Method::GenerateBlobs
        &&& self.params.api_key@ == api_key
        &&& self.params.limit == limit
        &&& self.params.size == size
    }

    /// Builds a request for blobs.
    pub fn new(api_key: ApiKey, limit: u16, size: u32) -> (r: GenerateBlobsRequest)
        ensures
            r.holds(api_key@, limit, size),
    {
        Request {
            json_rpc: API_JSON_RPC_VERSION.to_owned(),
            method: Method::GenerateBlobs,
            params: GenerateBlobsParams { api_key, limit, size },
            id: RequestId(REQUEST_ID),
        }
    }
}

/// The names of the four members of a request differ from each other.
pub proof fn lemma_member_names_differ()
    ensures
        "jsonrpc"@ != "method"@,
        "jsonrpc"@ != "params"@,
        "jsonrpc"@ != "id"@,
        "method"@ != "params"@,
        "method"@ != "id"@,
        "params"@ != "id"@,
{
    reveal_strlit("jsonrpc");
    reveal_strlit("method");
    reveal_strlit("params");
    reveal_strlit("id");
    assert("jsonrpc"@.len() == 7);
    assert("method"@.len() == 6);
    assert("params"@.len() == 6);
    assert("id"@.len() == 2);
    assert("method"@[0] == 'm');
    assert("params"@[0] == 'p');
}

/// A request that the constructors of this crate build goes out as an object
/// with exactly the members `jsonrpc`, `method`, `params` and `id`: the version
/// "2.0", the name by which the service knows the operation, the object of the
/// parameters, and the number 1.
pub proof fn lemma_request_has_four_members<P: Params>(request: Request<P>)
    requires
        request.well_formed(),
    ensures
        request.wire() matches JsonValue::Object(members) && {
            &&& members.dom() =~= set!["jsonrpc"@, "method"@, "params"@, "id"@]
            &&& members["jsonrpc"@] == JsonValue::String("2.0"@)
            &&& members["method"@] == JsonValue::String(request.method.wire_name())
            &&& members["params"@] == request.params.wire()
            &&& members["id"@] == JsonValue::Number(Number::UInt(1))
        },
{
    lemma_member_names_differ();
}

} // verus!
