//! The client as a source of random numbers and bytes for a general interface,
//! alone or with another generator to fall back on.
//!
//! A number is one integer drawn from the widest range that the service
//! documents. Bytes are drawn as blobs of eight bits, one for each byte.

use vstd::prelude::*;
use crate::client::Random;
use crate::error::{DecodeError, DecodeErrorView, Error, ErrorView, Parameter};
use crate::params::{BOUND_MAX, BOUND_MIN};
use crate::requests::{GenerateBlobsRequest, GenerateIntegersRequest};
use crate::results::{content_of, GenerateBlobsResult, GenerateIntegersResult};
use crate::model::Response;

verus! {

/// The size in bits of the blob that is drawn for one byte.
pub const BYTE_BITS: u32 = 8;

/// The bit pattern of an `i32`, read as a `u32`.
pub open spec fn word_of(n: i32) -> u32 {
    if n >= 0 {
        n as u32
    } else {
        (n + 0x1_0000_0000) as u32
    }
}

/// An `i32` widened to 64 bits with its sign, read as a `u64`.
pub open spec fn long_word_of(n: i32) -> u64 {
    if n >= 0 {
        n as u64
    } else {
        (n + 0x1_0000_0000_0000_0000) as u64
    }
}

/// Returns the bit pattern of an `i32`, read as a `u32`.
pub fn word(n: i32) -> (r: u32)
    ensures
        r == word_of(n),
{
    if n >= 0 {
        n as u32
    } else {
        let wide: i64 = n as i64 + 0x1_0000_0000;
        wide as u32
    }
}

/// Returns an `i32` widened to 64 bits with its sign, read as a `u64`.
pub fn long_word(n: i32) -> (r: u64)
    ensures
        r == long_word_of(n),
{
    if n >= 0 {
        n as u64
    } else {
        let below: i64 = -(n as i64);
        u64::MAX - (below as u64) + 1
    }
}

/// The value of a decimal digit.
pub open spec fn digit_of(c: char) -> Option<int> {
    if '0' <= c <= '9' {
        Some(c as int - '0' as int)
    } else {
        None
    }
}

/// The number that a text of decimal digits stands for. An empty text, or one
/// with another character, stands for none.
pub open spec fn digits_of(s: Seq<char>) -> Option<int>
    decreases s.len(),
{
    if s.len() == 0 {
        None
    } else if s.len() == 1 {
        digit_of(s[0])
    } else {
        match digits_of(s.drop_last()) {
            Some(value) => match digit_of(s.last()) {
                Some(digit) => Some(value * 10 + digit),
                None => None,
            },
            None => None,
        }
    }
}

/// The byte that a text stands for: decimal digits, with or without a plus sign
/// before them, whose number is at most 255.
pub open spec fn byte_of(s: Seq<char>) -> Option<u8> {
    let digits = if s.len() > 0 && s[0] == '+' {
        s.subrange(1, s.len() as int)
    } else {
        s
    };
    match digits_of(digits) {
        Some(value) => if value <= 255 {
            Some(value as u8)
        } else {
            None
        },
        None => None,
    }
}

/// Reads a byte from a text of decimal digits, with or without a plus sign
/// before them.
pub fn parse_byte(text: &str) -> (r: Option<u8>)
    ensures
        r == byte_of(text@),
{
    let n = text.unicode_len();
    if n == 0 {
        return None;
    }
    let start: usize = if text.get_char(0) == '+' {
        1
    } else {
        0
    };
    let ghost digits = text@.subrange(start as int, n as int);
    proof {
        if start == 0 {
            assert(digits == text@);
        }
    }
    if start == n {
        return None;
    }
    let mut value: u32 = 0;
    let mut i: usize = start;
    while i < n
        invariant
            n == text@.len(),
            start < n,
            start <= i <= n,
            digits == text@.subrange(start as int, n as int),
            byte_of(text@) == match digits_of(digits) {
                Some(v) => if v <= 255 {
                    Some(v as u8)
                } else {
                    None
                },
                None => None,
            },
            value <= 256,
            i == start ==> value == 0,
            i > start ==> (digits_of(digits.subrange(0, i - start)) matches Some(v) && v >= 0
                && value == (if v > 255 {
                256
            } else {
                v
            })),
        decreases n - i,
    {
        let c = text.get_char(i);
        let ghost upto = digits.subrange(0, i + 1 - start);
        proof {
            assert(upto.last() == c);
            assert(upto.drop_last() == digits.subrange(0, i - start));
        }
        if c < '0' || c > '9' {
            proof {
                lemma_digits_need_digits(digits, i - start);
            }
            return None;
        }
        let digit: u32 = c as u32 - '0' as u32;
        if value < 256 {
            value = value * 10 + digit;
            if value > 255 {
                value = 256;
            }
        }
        proof {
            if i == start {
                assert(upto.len() == 1);
                assert(upto[0] == c);
            }
        }
        i += 1;
    }
    proof {
        assert(digits.subrange(0, n - start) == digits);
    }
    if value > 255 {
        None
    } else {
        Some(value as u8)
    }
}

/// A text with a character that is no digit stands for no number.
pub proof fn lemma_digits_need_digits(s: Seq<char>, at: int)
    requires
        0 <= at < s.len(),
        digit_of(s[at]) is None,
    ensures
        digits_of(s) is None,
    decreases s.len(),
{
    if s.len() > 1 {
        if at < s.len() - 1 {
            lemma_digits_need_digits(s.drop_last(), at);
        }
    }
}

/// The bytes that the items of a reply stand for: the first `len` items, each
/// read as a byte. A reply with fewer items, or with one that is no byte,
/// stands for none.
pub open spec fn bytes_of(data: Seq<Seq<char>>, len: nat) -> Option<Seq<u8>> {
    if len <= data.len() && forall|i: int| 0 <= i < len ==> (#[trigger] byte_of(data[i])) is Some {
        Some(Seq::new(len, |i: int| byte_of(data[i]).unwrap()))
    } else {
        None
    }
}

impl Random {
    /// Prepares the call that draws one number: one integer from the widest range
    /// that the service documents, -1e9 to 1e9.
    pub fn rand_next_i32(&self) -> (r: Result<GenerateIntegersRequest, Error>)
        ensures
            r matches Ok(request) && request.holds(self.key(), BOUND_MIN, BOUND_MAX, 1, true),
    {
        self.generate_integers(BOUND_MIN, BOUND_MAX, 1, true)
    }

    /// Whether `r` is what preparing the call for `len` bytes yields: a call for
    /// as many blobs of eight bits, where there are from 1 to 100 of them.
    pub open spec fn bytes_call(
        api_key: Seq<char>,
        len: usize,
        r: Result<GenerateBlobsRequest, Error>,
    ) -> bool {
        if 1 <= len <= 100 {
            r matches Ok(request) && request.holds(api_key, len as u16, BYTE_BITS)
        } else {
            r matches Err(e) && e@ == ErrorView::InvalidParameter(Parameter::Limit)
        }
    }

    /// Prepares the call that draws `len` bytes. One call serves at most 100.
    pub fn try_fill_bytes(&self, len: usize) -> (r: Result<GenerateBlobsRequest, Error>)
        ensures
            Random::bytes_call(self.key(), len, r),
    {
        if len > 0xffff {
            return Err(Error::InvalidParameter(Parameter::Limit));
        }
        self.generate_blobs(len as u16, BYTE_BITS)
    }
}

/// Takes the number out of the reply to the call that [`Random::rand_next_i32`]
/// prepares: the first integer. A reply without an integer is an error.
pub fn first_integer(reply: &Response<GenerateIntegersResult>) -> (r: Result<i32, Error>)
    ensures
        match r {
            Ok(n) => reply.result.random.data@.len() > 0 && n == reply.result.random.data@[0],
            Err(e) => reply.result.random.data@.len() == 0 && e@ == ErrorView::Json(
                DecodeErrorView::Missing("data"@),
            ),
        },
{
    if reply.result.random.data.len() > 0 {
        Ok(reply.result.random.data[0])
    } else {
        Err(Error::Json(DecodeError::Missing("data".to_owned())))
    }
}

/// Takes `len` bytes out of the reply to the call that
/// [`Random::try_fill_bytes`] prepares. A reply with fewer items, or with an
/// item that is no byte, is an error.
pub fn bytes(reply: &Response<GenerateBlobsResult>, len: usize) -> (r: Result<Vec<u8>, Error>)
    ensures
        match r {
            Ok(found) => bytes_of(content_of(reply.result.random.data@), len as nat) == Some(
                found@,
            ),
            Err(e) => bytes_of(content_of(reply.result.random.data@), len as nat) is None && e@
                == ErrorView::Json(DecodeErrorView::Invalid("data"@)),
        },
{
    let data = &reply.result.random.data;
    let ghost texts = content_of(data@);
    if data.len() < len {
        return Err(Error::Json(DecodeError::Invalid("data".to_owned())));
    }
    let mut found: Vec<u8> = Vec::new();
    let mut i: usize = 0;
    while i < len
        invariant
            len <= data.len(),
            i <= len,
            data@ == reply.result.random.data@,
            texts == content_of(data@),
            found.len() == i,
            forall|k: int| 0 <= k < i ==> (#[trigger] byte_of(texts[k])) == Some(found[k]),
        decreases len - i,
    {
        match parse_byte(data[i].as_str()) {
            Some(byte) => {
                found.push(byte);
            },
            None => {
                assert(byte_of(texts[i as int]) is None);
                return Err(Error::Json(DecodeError::Invalid("data".to_owned())));
            },
        }
        i += 1;
    }
    proof {
        assert(found@ =~= Seq::new(len as nat, |k: int| byte_of(texts[k]).unwrap()));
    }
    Ok(found)
}

/// The client together with a generator that serves where the service does not.
#[derive(Debug)]
pub struct FallibleRandom<T> {
    /// The generator to fall back on.
    pub fallback: T,
    /// The client of the service.
    pub random: Random,
}

/// Where a value comes from.
#[derive(Debug)]
pub enum Source<V> {
    /// The service gave this value.
    Service(V),
    /// The service failed: the fallback is to be asked.
    Fallback,
}

impl<T> FallibleRandom<T> {
    /// Decides where a value comes from, given what the service yielded: from
    /// the service where it answered, and from the fallback after any failure,
    /// which is dropped.
    pub fn settle<V>(yielded: Result<V, Error>) -> (r: Source<V>)
        ensures
            match yielded {
                Ok(value) => r == Source::Service(value),
                Err(_) => r is Fallback,
            },
    {
        match yielded {
            Ok(value) => Source::Service(value),
            Err(_) => Source::Fallback,
        }
    }

    /// Decides where a 32-bit number comes from.
    pub fn next_u32(yielded: Result<i32, Error>) -> (r: Source<u32>)
        ensures
            match yielded {
                Ok(n) => r == Source::Service(word_of(n)),
                Err(_) => r is Fallback,
            },
    {
        match yielded {
            Ok(n) => Source::Service(word(n)),
            Err(_) => Source::Fallback,
        }
    }

    /// Decides where a 64-bit number comes from.
    pub fn next_u64(yielded: Result<i32, Error>) -> (r: Source<u64>)
        ensures
            match yielded {
                Ok(n) => r == Source::Service(long_word_of(n)),
                Err(_) => r is Fallback,
            },
    {
        match yielded {
            Ok(n) => Source::Service(long_word(n)),
            Err(_) => Source::Fallback,
        }
    }
}

} // verus!
