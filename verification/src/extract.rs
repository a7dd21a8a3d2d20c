//! From what was read of a request to what its handler is given: the decoded
//! body, or the client error that says why there is none.

use crate::diagnostic::{
    decode_message, transport_message, BadRequest, DecodeDiagnostic, TransportReadFailure,
};
use crate::json::Json;
use vstd::prelude::*;

verus! {

/// Whether `result` is what a read that ended in `read` comes to before any
/// decoding: the bytes as they are, or the client error for the failure.
pub open spec fn body_settled(
    read: Result<&[u8], TransportReadFailure>,
    result: Result<&[u8], BadRequest>,
) -> bool {
    match read {
        Ok(bytes) => result == Ok::<&[u8], BadRequest>(bytes),
        Err(failure) => result is Err && result->Err_0@ == transport_message(failure@),
    }
}

/// Whether `result` is what a decoding pass that ended in `decoded` comes to:
/// the value in its container, or the client error for the diagnostic.
pub open spec fn value_settled<T>(
    decoded: Result<T, DecodeDiagnostic>,
    result: Result<Json<T>, BadRequest>,
) -> bool {
    match decoded {
        Ok(value) => result is Ok && result->Ok_0@ == value,
        Err(diagnostic) => result is Err && result->Err_0@ == decode_message(diagnostic@),
    }
}

/// Whether `result` is what the whole pipeline comes to for a request whose
/// read ended in `read`: for a body that arrived, what some outcome of
/// `decoder` on exactly these bytes settles to; for a read that failed, the
/// client error for that failure, whatever the decoder would have done.
pub open spec fn extracted<T, D: FnOnce(&[u8]) -> Result<T, DecodeDiagnostic>>(
    read: Result<&[u8], TransportReadFailure>,
    decoder: D,
    result: Result<Json<T>, BadRequest>,
) -> bool {
    match read {
        Ok(bytes) => exists|decoded: Result<T, DecodeDiagnostic>|
            decoder.ensures((bytes,), decoded) && value_settled(decoded, result),
        Err(failure) => result is Err && result->Err_0@ == transport_message(failure@),
    }
}

/// Whether a decoder has one answer for a body: any two outcomes that it may
/// give for these bytes cannot be told apart.
pub open spec fn single_valued<T, D: FnOnce(&[u8]) -> Result<T, DecodeDiagnostic>>(
    decoder: D,
    bytes: &[u8],
) -> bool {
    forall|first: Result<T, DecodeDiagnostic>, second: Result<T, DecodeDiagnostic>|
        decoder.ensures((bytes,), first) && decoder.ensures((bytes,), second) ==> same_outcome(
            first,
            second,
        )
}

/// Whether two results cannot be told apart: the same value, or client errors
/// with the same message.
pub open spec fn same_result<T>(
    first: Result<Json<T>, BadRequest>,
    second: Result<Json<T>, BadRequest>,
) -> bool {
    match (first, second) {
        (Ok(a), Ok(b)) => a@ == b@,
        (Err(a), Err(b)) => a@ == b@,
        _ => false,
    }
}

/// Whether two outcomes of the decoding pass cannot be told apart: the same
/// value, or diagnostics with the same path and the same cause.
pub open spec fn same_outcome<T>(
    first: Result<T, DecodeDiagnostic>,
    second: Result<T, DecodeDiagnostic>,
) -> bool {
    match (first, second) {
        (Ok(a), Ok(b)) => a == b,
        (Err(a), Err(b)) => a@ == b@,
        _ => false,
    }
}

/// A decoded value reaches the handler as it was decoded: settling a success
/// gives a container, and what the container holds is that value.
pub proof fn lemma_success_keeps_value<T>(value: T, result: Result<Json<T>, BadRequest>)
    requires
        value_settled(Ok::<T, DecodeDiagnostic>(value), result),
    ensures
        result is Ok,
        result->Ok_0@ == value,
{
}

/// Failure and success exclude each other: a diagnostic never settles to a
/// value, and its client error carries the message of that diagnostic.
pub proof fn lemma_failure_gives_no_value<T>(
    diagnostic: DecodeDiagnostic,
    result: Result<Json<T>, BadRequest>,
)
    requires
        value_settled(Err::<T, DecodeDiagnostic>(diagnostic), result),
    ensures
        result is Err,
        result->Err_0@ == decode_message(diagnostic@),
{
}

/// Nothing is remembered between requests: where the decoding pass ends the
/// same way twice, settling gives the same value or the same message twice.
pub proof fn lemma_same_outcome_same_result<T>(
    first: Result<T, DecodeDiagnostic>,
    second: Result<T, DecodeDiagnostic>,
    first_result: Result<Json<T>, BadRequest>,
    second_result: Result<Json<T>, BadRequest>,
)
    requires
        same_outcome(first, second),
        value_settled(first, first_result),
        value_settled(second, second_result),
    ensures
        same_result(first_result, second_result),
{
}

/// Extracting twice from the same read, with a decoder that has one answer
/// for a body, ends the same way both times: the same value, or client errors
/// with the same message.
pub proof fn lemma_extraction_repeats<T, D: FnOnce(&[u8]) -> Result<T, DecodeDiagnostic>>(
    read: Result<&[u8], TransportReadFailure>,
    decoder: D,
    first: Result<Json<T>, BadRequest>,
    second: Result<Json<T>, BadRequest>,
)
    requires
        read matches Ok(bytes) ==> single_valued(decoder, bytes),
        extracted(read, decoder, first),
        extracted(read, decoder, second),
    ensures
        same_result(first, second),
{
    if let Ok(bytes) = read {
        let a = choose|decoded: Result<T, DecodeDiagnostic>|
            decoder.ensures((bytes,), decoded) && value_settled(decoded, first);
        let b = choose|decoded: Result<T, DecodeDiagnostic>|
            decoder.ensures((bytes,), decoded) && value_settled(decoded, second);
        lemma_same_outcome_same_result(a, b, first, second);
    }
}

/// Settles the outcome of reading the body: bytes that arrived are passed
/// on untouched, a failure of the transport becomes a client error.
pub fn accept_body<'a>(read: Result<&'a [u8], TransportReadFailure>) -> (result: Result<
    &'a [u8],
    BadRequest,
>)
    ensures
        body_settled(read, result),
{
    match read {
        Ok(bytes) => Ok(bytes),
        Err(failure) => Err(failure.reject()),
    }
}

impl<T> Json<T> {
    /// Settles the outcome of the decoding pass: a value is put into its
    /// container unchanged, a diagnostic becomes a client error.
    pub fn from_decoded(decoded: Result<T, DecodeDiagnostic>) -> (result: Result<Json<T>, BadRequest>)
        ensures
            value_settled(decoded, result),
    {
        match decoded {
            Ok(value) => Ok(Json(value)),
            Err(diagnostic) => Err(diagnostic.reject()),
        }
    }

    /// Runs the whole pipeline on what was read of one request: a body that
    /// arrived is handed to `decoder` once and the outcome settled; where the
    /// read failed, the client error says so and nothing is decoded.
    pub fn from_body<D>(read: Result<&[u8], TransportReadFailure>, decoder: D) -> (result: Result<
        Json<T>,
        BadRequest,
    >) where D: FnOnce(&[u8]) -> Result<T, DecodeDiagnostic>
        requires
            read matches Ok(bytes) ==> decoder.requires((bytes,)),
        ensures
            extracted(read, decoder, result),
    {
        match accept_body(read) {
            Ok(bytes) => {
                let decoded = decoder(bytes);
                Json::from_decoded(decoded)
            },
            Err(rejection) => Err(rejection),
        }
    }
}

} // verus!
