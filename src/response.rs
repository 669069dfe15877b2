//! Decoding of response bodies, and the outcome of one request once the race
//! between the response and its cancellation signal is decided.

use vstd::prelude::*;
use crate::encoding::{content_encoding, declared_encoding, encoding_of, first_value, Encoding};

verus! {

/// What flate2's gzip decoder makes of a whole byte stream: `None` where it fails.
pub uninterp spec fn gzip_decoded(raw: Seq<u8>) -> Option<Seq<u8>>;

/// What flate2's raw deflate decoder makes of a whole byte stream: `None` where it fails.
pub uninterp spec fn deflate_decoded(raw: Seq<u8>) -> Option<Seq<u8>>;

/// What the brotli decoder makes of a whole byte stream: `None` where it fails.
pub uninterp spec fn brotli_decoded(raw: Seq<u8>) -> Option<Seq<u8>>;

/// Relies on flate2::read::GzDecoder, read to the end: the output, or an
/// error, depends on the input bytes alone.
#[verifier::external_body]
fn gunzip(raw: &[u8]) -> (r: Result<Vec<u8>, String>)
    ensures
        match gzip_decoded(raw@) {
            Some(b) => r is Ok && r->Ok_0@ == b,
            None => r is Err,
        },
{
    let mut out = Vec::new();
    match std::io::Read::read_to_end(&mut flate2::read::GzDecoder::new(raw), &mut out) {
        Ok(_) => Ok(out),
        Err(e) => Err(e.to_string()),
    }
}

/// Relies on flate2::read::DeflateDecoder, read to the end: the output, or an
/// error, depends on the input bytes alone.
#[verifier::external_body]
fn inflate(raw: &[u8]) -> (r: Result<Vec<u8>, String>)
    ensures
        match deflate_decoded(raw@) {
            Some(b) => r is Ok && r->Ok_0@ == b,
            None => r is Err,
        },
{
    let mut out = Vec::new();
    match std::io::Read::read_to_end(&mut flate2::read::DeflateDecoder::new(raw), &mut out) {
        Ok(_) => Ok(out),
        Err(e) => Err(e.to_string()),
    }
}

/// Relies on brotli::Decompressor, read to the end: the output, or an error,
/// depends on the input bytes alone.
#[verifier::external_body]
fn unbrotli(raw: &[u8]) -> (r: Result<Vec<u8>, String>)
    ensures
        match brotli_decoded(raw@) {
            Some(b) => r is Ok && r->Ok_0@ == b,
            None => r is Err,
        },
{
    let mut out = Vec::new();
    match std::io::Read::read_to_end(&mut brotli::Decompressor::new(raw, 4096), &mut out) {
        Ok(_) => Ok(out),
        Err(e) => Err(e.to_string()),
    }
}

/// Why a request produced no response.
#[derive(Debug)]
pub enum ExecError {
    /// The caller cancelled the request before its response was complete.
    Cancelled,
    /// The transport failed: connection, TLS, DNS or timeout.
    Transport(String),
    /// The body did not decode under its declared content-encoding.
    Decode(String),
}

/// A response as it came off the wire: the body is still encoded.
#[derive(Debug)]
pub struct RawResponse {
    pub status: u16,
    pub headers: Vec<(String, String)>,
    pub body: Vec<u8>,
}

/// A completed response, with its body decoded and its headers as received.
#[derive(Debug)]
pub struct ResponseResult {
    pub status: u16,
    pub headers: Vec<(String, String)>,
    pub body: Vec<u8>,
}

/// Which event ended the race between sending a request and its cancellation signal.
#[derive(Debug)]
pub enum RaceOutcome {
    Cancelled,
    TransportFailed(String),
    Received(RawResponse),
}

impl ResponseResult {
    pub fn status(&self) -> (r: u16)
        ensures
            r == self.status,
    {
        self.status
    }

    pub fn headers(&self) -> (r: &Vec<(String, String)>)
        ensures
            r == &self.headers,
    {
        &self.headers
    }

    pub fn body(&self) -> (r: &Vec<u8>)
        ensures
            r == &self.body,
    {
        &self.body
    }
}

/// The decoded form of `raw` under coding `e`; `None` where it does not decode.
pub open spec fn decoded(e: Encoding, raw: Seq<u8>) -> Option<Seq<u8>> {
    match e {
        Encoding::Gzip => gzip_decoded(raw),
        Encoding::Deflate => deflate_decoded(raw),
        Encoding::Brotli => brotli_decoded(raw),
        Encoding::Identity => Some(raw),
    }
}

/// `r` is what decoding `raw` under `e` returns: the whole decoded body, or a
/// decode error and nothing of the body.
pub open spec fn decode_result(e: Encoding, raw: Seq<u8>, r: Result<Vec<u8>, ExecError>) -> bool {
    match decoded(e, raw) {
        Some(b) => r is Ok && r->Ok_0@ == b,
        None => r is Err && r->Err_0 is Decode,
    }
}

/// `r` is the result owed for a request whose race ended with `o`.
pub open spec fn outcome_result(o: RaceOutcome, r: Result<ResponseResult, ExecError>) -> bool {
    match o {
        RaceOutcome::Cancelled => r is Err && r->Err_0 is Cancelled,
        RaceOutcome::TransportFailed(d) => r is Err && r->Err_0 == ExecError::Transport(d),
        RaceOutcome::Received(raw) => match decoded(declared_encoding(raw.headers@), raw.body@) {
            Some(b) => {
                &&& r is Ok
                &&& r->Ok_0.status == raw.status
                &&& r->Ok_0.headers == raw.headers
                &&& r->Ok_0.body@ == b
            },
            None => r is Err && r->Err_0 is Decode,
        },
    }
}

/// Decodes a whole body under coding `e`; identity hands the bytes back unchanged.
pub fn decode_body(e: Encoding, raw: Vec<u8>) -> (r: Result<Vec<u8>, ExecError>)
    ensures
        decode_result(e, raw@, r),
{
    let res = match e {
        Encoding::Gzip => gunzip(raw.as_slice()),
        Encoding::Deflate => inflate(raw.as_slice()),
        Encoding::Brotli => unbrotli(raw.as_slice()),
        Encoding::Identity => {
            return Ok(raw);
        },
    };
    match res {
        Ok(b) => Ok(b),
        Err(d) => Err(ExecError::Decode(d)),
    }
}

/// Turns a complete raw response into its result: the body is decoded under
/// the coding its first `content-encoding` header declares, and the status
/// and headers are kept as they are.
pub fn decode_response(raw: RawResponse) -> (r: Result<ResponseResult, ExecError>)
    ensures
        outcome_result(RaceOutcome::Received(raw), r),
{
    let e = content_encoding(&raw.headers);
    let RawResponse { status, headers, body } = raw;
    match decode_body(e, body) {
        Ok(b) => Ok(ResponseResult { status, headers, body: b }),
        Err(err) => Err(err),
    }
}

/// The result of a request whose race ended with `o`.
pub fn finish(o: RaceOutcome) -> (r: Result<ResponseResult, ExecError>)
    ensures
        outcome_result(o, r),
{
    match o {
        RaceOutcome::Cancelled => Err(ExecError::Cancelled),
        RaceOutcome::TransportFailed(d) => Err(ExecError::Transport(d)),
        RaceOutcome::Received(raw) => decode_response(raw),
    }
}

/// A response with no `content-encoding` header, or one whose value names no
/// supported coding, yields its raw body byte for byte, with status and
/// headers unchanged.
pub proof fn unencoded_body_passes_through(raw: RawResponse, r: Result<ResponseResult, ExecError>)
    requires
        first_value(raw.headers@, "content-encoding"@) is None || encoding_of(
            first_value(raw.headers@, "content-encoding"@)->Some_0,
        ) == Encoding::Identity,
        outcome_result(RaceOutcome::Received(raw), r),
    ensures
        r is Ok,
        r->Ok_0.body@ == raw.body@,
        r->Ok_0.status == raw.status,
        r->Ok_0.headers == raw.headers,
{
}

} // verus!
