//! What the operations return, and how a reply is read into it.

use vstd::prelude::*;
use crate::date_de::{deserialize, timestamp_of, Timestamp};
use crate::error::{is_success, status_is_success, DecodeError, DecodeErrorView, Error, ErrorView};
use crate::json::{parsed_text, Json, JsonValue, Number};
use crate::model::{ApiKeyStatus, RequestId, Response, ResponseView};

verus! {

/// The content of what a reader returns.
pub open spec fn decoded<T: View>(r: Result<T, DecodeError>) -> Result<T::V, DecodeErrorView> {
    match r {
        Ok(value) => Ok(value@),
        Err(e) => Err(e@),
    }
}

/// The member `name` that a reply must have.
pub open spec fn required(doc: JsonValue, name: Seq<char>) -> Result<JsonValue, DecodeErrorView> {
    match doc.member(name) {
        Some(value) => Ok(value),
        None => Err(DecodeErrorView::Missing(name)),
    }
}

/// The member `name`, which must be an integer from 0 to `u64::MAX`.
pub open spec fn required_u64(doc: JsonValue, name: Seq<char>) -> Result<u64, DecodeErrorView> {
    match required(doc, name) {
        Ok(value) => match value.as_u64() {
            Some(n) => Ok(n),
            None => Err(DecodeErrorView::Invalid(name)),
        },
        Err(e) => Err(e),
    }
}

/// The member `name`, which must be a string.
pub open spec fn required_string(doc: JsonValue, name: Seq<char>) -> Result<
    Seq<char>,
    DecodeErrorView,
> {
    match required(doc, name) {
        Ok(value) => match value.as_str() {
            Some(s) => Ok(s),
            None => Err(DecodeErrorView::Invalid(name)),
        },
        Err(e) => Err(e),
    }
}

/// The member `name`, which must be a timestamp.
pub open spec fn required_timestamp(doc: JsonValue, name: Seq<char>) -> Result<
    Timestamp,
    DecodeErrorView,
> {
    match required(doc, name) {
        Ok(value) => timestamp_of(value, name),
        Err(e) => Err(e),
    }
}

/// Reads the member `name` that a reply must have.
pub fn read(doc: &Json, name: &str) -> (r: Result<Json, DecodeError>)
    ensures
        decoded(r) == required(doc@, name@),
{
    match doc.member(name) {
        Some(value) => Ok(value),
        None => Err(DecodeError::Missing(name.to_owned())),
    }
}

/// Reads the member `name`, which must be an integer from 0 to `u64::MAX`.
pub fn read_u64(doc: &Json, name: &str) -> (r: Result<u64, DecodeError>)
    ensures
        decoded(r) == required_u64(doc@, name@),
{
    match read(doc, name) {
        Ok(value) => match value.as_u64() {
            Some(n) => Ok(n),
            None => Err(DecodeError::Invalid(name.to_owned())),
        },
        Err(e) => Err(e),
    }
}

/// Reads the member `name`, which must be a string.
pub fn read_string(doc: &Json, name: &str) -> (r: Result<String, DecodeError>)
    ensures
        decoded(r) == required_string(doc@, name@),
{
    match read(doc, name) {
        Ok(value) => match value.as_str() {
            Some(s) => Ok(s),
            None => Err(DecodeError::Invalid(name.to_owned())),
        },
        Err(e) => Err(e),
    }
}

/// Reads the member `name`, which must be a timestamp.
pub fn read_timestamp(doc: &Json, name: &str) -> (r: Result<Timestamp, DecodeError>)
    ensures
        decoded(r) == required_timestamp(doc@, name@),
{
    match read(doc, name) {
        Ok(value) => deserialize(&value, name),
        Err(e) => Err(e),
    }
}

/// What a reply can hold as its result.
pub trait Payload: View + Sized {
    /// The result that a document stands for, or why it stands for none.
    spec fn of_json(doc: JsonValue) -> Result<Self::V, DecodeErrorView>;

    /// Reads a result from the document that stands for it.
    fn from_json(doc: &Json) -> (r: Result<Self, DecodeError>)
        ensures
            decoded(r) == Self::of_json(doc@),
    ;
}

/// What `getUsage` returns.
#[derive(Debug, Clone, Copy, PartialEq, Eq, Structural)]
pub struct GetUsageResult {
    /// The state of the API key. A key must be running to serve requests.
    pub status: ApiKeyStatus,
    /// The time at which the API key was created.
    pub creation_time: Timestamp,
    /// The number of true random bits that are left to the client, estimated.
    pub bits_left: u64,
    /// The number of requests that are left to the client, estimated.
    pub requests_left: u64,
    /// The number of bits that this API key has used since it was created.
    pub total_bits: u64,
    /// The number of requests that this API key has used since it was created.
    pub total_requests: u64,
}

impl View for GetUsageResult {
    type V = GetUsageResult;

    open spec fn view(&self) -> GetUsageResult {
        *self
    }
}

/// The member `name`, which must be the name of a state of an API key.
pub open spec fn required_status(doc: JsonValue, name: Seq<char>) -> Result<
    ApiKeyStatus,
    DecodeErrorView,
> {
    match required_string(doc, name) {
        Ok(s) => match ApiKeyStatus::of_wire_name(s) {
            Some(status) => Ok(status),
            None => Err(DecodeErrorView::Invalid(name)),
        },
        Err(e) => Err(e),
    }
}

impl Payload for GetUsageResult {
    open spec fn of_json(doc: JsonValue) -> Result<GetUsageResult, DecodeErrorView> {
        match required_status(doc, "status"@) {
            Ok(status) => match required_timestamp(doc, "creationTime"@) {
                Ok(creation_time) => match required_u64(doc, "bitsLeft"@) {
                    Ok(bits_left) => match required_u64(doc, "requestsLeft"@) {
                        Ok(requests_left) => match required_u64(doc, "totalBits"@) {
                            Ok(total_bits) => match required_u64(doc, "totalRequests"@) {
                                Ok(total_requests) => Ok(
                                    GetUsageResult {
                                        status,
                                        creation_time,
                                        bits_left,
                                        requests_left,
                                        total_bits,
                                        total_requests,
                                    },
                                ),
                                Err(e) => Err(e),
                            },
                            Err(e) => Err(e),
                        },
                        Err(e) => Err(e),
                    },
                    Err(e) => Err(e),
                },
                Err(e) => Err(e),
            },
            Err(e) => Err(e),
        }
    }

    fn from_json(doc: &Json) -> (r: Result<GetUsageResult, DecodeError>) {
        let name = read_string(doc, "status")?;
        let status = match ApiKeyStatus::from_name(&name) {
            Some(status) => status,
            None => return Err(DecodeError::Invalid("status".to_owned())),
        };
        let creation_time = read_timestamp(doc, "creationTime")?;
        let bits_left = read_u64(doc, "bitsLeft")?;
        let requests_left = read_u64(doc, "requestsLeft")?;
        let total_bits = read_u64(doc, "totalBits")?;
        let total_requests = read_u64(doc, "totalRequests")?;
        Ok(
            GetUsageResult {
                status,
                creation_time,
                bits_left,
                requests_left,
                total_bits,
                total_requests,
            },
        )
    }
}

/// What a reply can hold as one item of its random data.
pub trait Datum: View + Sized {
    /// The item that a value stands for, if it stands for one.
    spec fn of_json(value: JsonValue) -> Option<Self::V>;

    /// Reads an item from the value that stands for it.
    fn from_json(value: &Json) -> (r: Option<Self>)
        ensures
            match r {
                Some(item) => Self::of_json(value@) == Some(item@),
                None => Self::of_json(value@) is None,
            },
    ;
}

/// An integer from `i32::MIN` to `i32::MAX`.
impl Datum for i32 {
    open spec fn of_json(value: JsonValue) -> Option<i32> {
        match value.as_i64() {
            Some(n) => if i32::MIN <= n <= i32::MAX {
                Some(n as i32)
            } else {
                None
            },
            None => None,
        }
    }

    fn from_json(value: &Json) -> (r: Option<i32>) {
        match value.as_i64() {
            Some(n) => if -2147483648 <= n && n <= 2147483647 {
                Some(n as i32)
            } else {
                None
            },
            None => None,
        }
    }
}

/// Any number. Decimal fractions and gaussians are held as the service wrote them.
impl Datum for Number {
    open spec fn of_json(value: JsonValue) -> Option<Number> {
        match value {
            JsonValue::Number(n) => Some(n),
            _ => None,
        }
    }

    fn from_json(value: &Json) -> (r: Option<Number>) {
        value.number()
    }
}

/// A string.
impl Datum for String {
    open spec fn of_json(value: JsonValue) -> Option<Seq<char>> {
        value.as_str()
    }

    fn from_json(value: &Json) -> (r: Option<String>) {
        value.as_str()
    }
}

/// The items that the items of an array stand for, if each stands for one.
pub open spec fn data_of<T: Datum>(items: Seq<JsonValue>) -> Option<Seq<T::V>> {
    if forall|i: int| 0 <= i < items.len() ==> (#[trigger] T::of_json(items[i])) is Some {
        Some(Seq::new(items.len(), |i: int| T::of_json(items[i]).unwrap()))
    } else {
        None
    }
}

/// The member `name`, which must be an array of items.
pub open spec fn required_data<T: Datum>(doc: JsonValue, name: Seq<char>) -> Result<
    Seq<T::V>,
    DecodeErrorView,
> {
    match required(doc, name) {
        Ok(value) => match value.as_array() {
            Some(items) => match data_of::<T>(items) {
                Some(data) => Ok(data),
                None => Err(DecodeErrorView::Invalid(name)),
            },
            None => Err(DecodeErrorView::Invalid(name)),
        },
        Err(e) => Err(e),
    }
}

/// The content of a sequence of items.
pub open spec fn content_of<T: View>(data: Seq<T>) -> Seq<T::V> {
    Seq::new(data.len(), |i: int| data[i]@)
}

/// Reads the member `name`, which must be an array of items.
pub fn read_data<T: Datum>(doc: &Json, name: &str) -> (r: Result<Vec<T>, DecodeError>)
    ensures
        match r {
            Ok(data) => required_data::<T>(doc@, name@) == Ok::<Seq<T::V>, DecodeErrorView>(
                content_of(data@),
            ),
            Err(e) => required_data::<T>(doc@, name@) == Err::<Seq<T::V>, DecodeErrorView>(e@),
        },
{
    let value = match read(doc, name) {
        Ok(value) => value,
        Err(e) => return Err(e),
    };
    let items = match value.as_array() {
        Some(items) => items,
        None => return Err(DecodeError::Invalid(name.to_owned())),
    };
    let ghost values = value@.as_array().unwrap();
    let n = items.len();
    let mut data: Vec<T> = Vec::new();
    let mut i: usize = 0;
    while i < n
        invariant
            n == items.len(),
            i <= n,
            values == Seq::new(items.len() as nat, |k: int| items[k]@),
            required_data::<T>(doc@, name@) == match data_of::<T>(values) {
                Some(data) => Ok::<Seq<T::V>, DecodeErrorView>(data),
                None => Err::<Seq<T::V>, DecodeErrorView>(DecodeErrorView::Invalid(name@)),
            },
            data.len() == i,
            forall|k: int| 0 <= k < i ==> (#[trigger] T::of_json(values[k])) == Some(data[k]@),
        decreases n - i,
    {
        match T::from_json(&items[i]) {
            Some(item) => {
                data.push(item);
            },
            None => {
                assert(T::of_json(values[i as int]) is None);
                return Err(DecodeError::Invalid(name.to_owned()));
            },
        }
        i += 1;
    }
    proof {
        assert(content_of(data@) =~= Seq::new(
            values.len(),
            |k: int| T::of_json(values[k]).unwrap(),
        ));
    }
    Ok(data)
}

/// The random data of a reply.
#[derive(Debug)]
pub struct RandomData<T> {
    /// The items that were asked for, in the order in which they were drawn.
    pub data: Vec<T>,
    /// The time at which the request was completed.
    pub completion_time: Timestamp,
}

/// The content of a [`RandomData`].
pub struct RandomDataView<V> {
    pub data: Seq<V>,
    pub completion_time: Timestamp,
}

impl<T: View> View for RandomData<T> {
    type V = RandomDataView<T::V>;

    open spec fn view(&self) -> RandomDataView<T::V> {
        RandomDataView { data: content_of(self.data@), completion_time: self.completion_time }
    }
}

impl<T: Datum> Payload for RandomData<T> {
    open spec fn of_json(doc: JsonValue) -> Result<RandomDataView<T::V>, DecodeErrorView> {
        match required_data::<T>(doc, "data"@) {
            Ok(data) => match required_timestamp(doc, "completionTime"@) {
                Ok(completion_time) => Ok(RandomDataView { data, completion_time }),
                Err(e) => Err(e),
            },
            Err(e) => Err(e),
        }
    }

    fn from_json(doc: &Json) -> (r: Result<RandomData<T>, DecodeError>) {
        let data = read_data::<T>(doc, "data")?;
        let completion_time = read_timestamp(doc, "completionTime")?;
        Ok(RandomData { data, completion_time })
    }
}

/// What the operations that generate random data return.
#[derive(Debug)]
pub struct RandomResult<RandomDataType> {
    /// The random data and the time of its completion.
    pub random: RandomData<RandomDataType>,
    /// The number of true random bits that the request used.
    pub bits_used: u64,
    /// The number of true random bits that are left to the client, estimated.
    pub bits_left: u64,
    /// The number of requests that are left to the client, estimated.
    pub requests_left: u64,
    /// The number of milliseconds that the client should wait before it sends
    /// another request.
    pub advisory_delay: u64,
}

/// The content of a [`RandomResult`].
pub struct RandomResultView<V> {
    pub random: RandomDataView<V>,
    pub bits_used: u64,
    pub bits_left: u64,
    pub requests_left: u64,
    pub advisory_delay: u64,
}

impl<T: View> View for RandomResult<T> {
    type V = RandomResultView<T::V>;

    open spec fn view(&self) -> RandomResultView<T::V> {
        RandomResultView {
            random: self.random@,
            bits_used: self.bits_used,
            bits_left: self.bits_left,
            requests_left: self.requests_left,
            advisory_delay: self.advisory_delay,
        }
    }
}

impl<T: Datum> Payload for RandomResult<T> {
    open spec fn of_json(doc: JsonValue) -> Result<RandomResultView<T::V>, DecodeErrorView> {
        match required(doc, "random"@) {
            Ok(random) => match RandomData::<T>::of_json(random) {
                Ok(random) => match required_u64(doc, "bitsUsed"@) {
                    Ok(bits_used) => match required_u64(doc, "bitsLeft"@) {
                        Ok(bits_left) => match required_u64(doc, "requestsLeft"@) {
                            Ok(requests_left) => match required_u64(doc, "advisoryDelay"@) {
                                Ok(advisory_delay) => Ok(
                                    RandomResultView {
                                        random,
                                        bits_used,
                                        bits_left,
                                        requests_left,
                                        advisory_delay,
                                    },
                                ),
                                Err(e) => Err(e),
                            },
                            Err(e) => Err(e),
                        },
                        Err(e) => Err(e),
                    },
                    Err(e) => Err(e),
                },
                Err(e) => Err(e),
            },
            Err(e) => Err(e),
        }
    }

    fn from_json(doc: &Json) -> (r: Result<RandomResult<T>, DecodeError>) {
        let random = read(doc, "random")?;
        let random = RandomData::<T>::from_json(&random)?;
        let bits_used = read_u64(doc, "bitsUsed")?;
        let bits_left = read_u64(doc, "bitsLeft")?;
        let requests_left = read_u64(doc, "requestsLeft")?;
        let advisory_delay = read_u64(doc, "advisoryDelay")?;
        Ok(RandomResult { random, bits_used, bits_left, requests_left, advisory_delay })
    }
}

/// The items of a reply alone, for a caller that wants no more: what surrounds
/// them in the reply is dropped.
impl<T> From<Response<RandomResult<T>>> for Vec<T> {
    fn from(response: Response<RandomResult<T>>) -> (data: Vec<T>)
        ensures
            data == response.result.random.data,
    {
        response.result.random.data
    }
}

impl<T> vstd::std_specs::convert::FromSpecImpl<Response<RandomResult<T>>> for Vec<T> {
    open spec fn obeys_from_spec() -> bool {
        true
    }

    open spec fn from_spec(response: Response<RandomResult<T>>) -> Vec<T> {
        response.result.random.data
    }
}

/// What `generateIntegers` returns.
pub type GenerateIntegersResult = RandomResult<i32>;

/// What `generateDecimalFractions` returns.
pub type GenerateDecimalFractionsResult = RandomResult<Number>;

/// What `generateGaussians` returns.
pub type GenerateGaussiansResult = RandomResult<Number>;

/// What `generateStrings` returns.
pub type GenerateStringsResult = RandomResult<String>;

/// What `generateUUIDs` returns.
pub type GenerateUUIDsResult = RandomResult<String>;

/// What `generateBlobs` returns: each item is binary data in base64.
pub type GenerateBlobsResult = RandomResult<String>;

impl<R: Payload> Response<R> {
    /// The reply that a document stands for: its members `jsonrpc`, `result` and
    /// `id`, read in this order.
    pub open spec fn of_json(doc: JsonValue) -> Result<ResponseView<R::V>, DecodeErrorView> {
        match required_string(doc, "jsonrpc"@) {
            Ok(json_rpc) => match required(doc, "result"@) {
                Ok(result) => match R::of_json(result) {
                    Ok(result) => match required_u64(doc, "id"@) {
                        Ok(id) => Ok(ResponseView { json_rpc, result, id: RequestId(id) }),
                        Err(e) => Err(e),
                    },
                    Err(e) => Err(e),
                },
                Err(e) => Err(e),
            },
            Err(e) => Err(e),
        }
    }

    /// The reply that a body stands for, given what the JSON parser made of it.
    pub open spec fn of_parsed(parsed: Result<JsonValue, Seq<char>>) -> Result<
        ResponseView<R::V>,
        DecodeErrorView,
    > {
        match parsed {
            Ok(doc) => Self::of_json(doc),
            Err(message) => Err(DecodeErrorView::Syntax(message)),
        }
    }

    /// The reply that a body stands for.
    pub open spec fn of_body(body: Seq<char>) -> Result<ResponseView<R::V>, DecodeErrorView> {
        Self::of_parsed(parsed_text(body))
    }

    /// What a call yields whose reply has this status and body: the reply that
    /// the body stands for, where the status is in the success range, and the
    /// failure that status and body stand for otherwise.
    pub open spec fn of_reply(status: u16, body: Seq<char>) -> Result<
        ResponseView<R::V>,
        ErrorView,
    > {
        if status_is_success(status) {
            match Self::of_body(body) {
                Ok(response) => Ok(response),
                Err(e) => Err(ErrorView::Json(e)),
            }
        } else {
            Err(Error::of_reply(status, body))
        }
    }

    /// Reads a reply from the document that stands for it.
    pub fn from_json(doc: &Json) -> (r: Result<Response<R>, DecodeError>)
        ensures
            decoded(r) == Self::of_json(doc@),
    {
        let json_rpc = read_string(doc, "jsonrpc")?;
        let result = read(doc, "result")?;
        let result = R::from_json(&result)?;
        let id = read_u64(doc, "id")?;
        Ok(Response { json_rpc, result, id: RequestId(id) })
    }

    /// Reads a reply, given what the JSON parser made of its body.
    pub fn from_parsed(parsed: Result<Json, String>) -> (r: Result<Response<R>, DecodeError>)
        ensures
            decoded(r) == Self::of_parsed(
                match parsed {
                    Ok(doc) => Ok(doc@),
                    Err(message) => Err(message@),
                },
            ),
    {
        match parsed {
            Ok(doc) => Self::from_json(&doc),
            Err(message) => Err(DecodeError::Syntax(message)),
        }
    }

    /// Reads a reply from its body.
    pub fn from_body(body: &str) -> (r: Result<Response<R>, DecodeError>)
        ensures
            decoded(r) == Self::of_body(body@),
    {
        Self::from_parsed(Json::parse(body))
    }

    /// Tells what a call yields whose reply has this status and body.
    pub fn from_reply(status: u16, body: String) -> (r: Result<Response<R>, Error>)
        ensures
            match r {
                Ok(response) => Self::of_reply(status, body@) == Ok::<
                    ResponseView<R::V>,
                    ErrorView,
                >(response@),
                Err(e) => Self::of_reply(status, body@) == Err::<ResponseView<R::V>, ErrorView>(
                    e@,
                ),
            },
    {
        if is_success(status) {
            match Self::from_body(body.as_str()) {
                Ok(response) => Ok(response),
                Err(e) => Err(Error::Json(e)),
            }
        } else {
            Err(Error::from_response(status, body))
        }
    }
}

} // verus!
