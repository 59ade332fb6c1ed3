//! The value encoding at the store's boundary.
//!
//! A value lives in its entry's file as a compact, self-describing binary
//! encoding (CBOR). The store itself moves bytes; this module gives the
//! encode and decode pair for integer values, so that a caller can keep
//! integers in a store without touching the encoding itself. The encoding
//! of an integer is named by `cbor_int` and produced and consumed by the
//! serializer underneath; nothing else is assumed of its shape.

use vstd::prelude::*;

use crate::paths::{path_of, valid_key};
use crate::store::{spec_read_error, DiskMap, ReadOutcome, WriteRequest};
use crate::Error;

verus! {

/// The binary encoding of an integer value.
pub uninterp spec fn cbor_int(v: i64) -> Seq<u8>;

/// Relies on serde_cbor::to_vec: the encoding of an integer depends on
/// the value alone, and serializing an integer into a fresh buffer cannot
/// fail.
#[verifier::external_body]
fn encode_int(v: i64) -> (r: Vec<u8>)
    ensures
        r@ == cbor_int(v),
{
    match serde_cbor::to_vec(&v) {
        Ok(bytes) => bytes,
        Err(_) => Vec::new(),
    }
}

/// Relies on serde_cbor::from_slice: decoding depends on the bytes alone,
/// and the bytes that to_vec produced for an integer decode back to that
/// integer.
#[verifier::external_body]
fn decode_int(bytes: &Vec<u8>) -> (r: Option<i64>)
    ensures
        forall|v: i64| bytes@ == cbor_int(v) ==> r == Some(v),
{
    match serde_cbor::from_slice::<i64>(bytes.as_slice()) {
        Ok(v) => Some(v),
        Err(_) => None,
    }
}

/// Reads an integer value out of an entry's bytes. Bytes that are no
/// integer's encoding are malformed content: `CannotReadFromFile`.
pub fn read_int(bytes: &Vec<u8>) -> (r: Result<i64, Error>)
    ensures
        forall|v: i64| bytes@ == cbor_int(v) ==> r == Ok::<i64, Error>(v),
        (r matches Err(e) ==> e == Error::CannotReadFromFile),
{
    match decode_int(bytes) {
        Some(v) => Ok(v),
        None => Err(Error::CannotReadFromFile),
    }
}

/// Concludes a get of an integer value: the entry's bytes decoded, or the
/// error of the step at which the operation stopped.
pub fn get_int_result(outcome: ReadOutcome) -> (r: Result<i64, Error>)
    ensures
        forall|v: i64|
            (outcome matches ReadOutcome::Content(b) && b@ == cbor_int(v)) ==> r == Ok::<
                i64,
                Error,
            >(v),
        (r matches Err(e) ==> e == spec_read_error(outcome)),
        !(outcome matches ReadOutcome::Content(_)) ==> r == Err::<i64, Error>(
            spec_read_error(outcome),
        ),
{
    match outcome {
        ReadOutcome::Content(bytes) => read_int(&bytes),
        ReadOutcome::OpenFailed => Err(Error::CannotOpenFile),
        ReadOutcome::LockFailed => Err(Error::CannotGetLock),
        ReadOutcome::ReadFailed => Err(Error::CannotReadFromFile),
    }
}

impl DiskMap {
    /// The write request of `insert(key, value)` for an integer value:
    /// as `insert`, with the value's encoding as payload.
    pub fn insert_int(&self, key: &str, value: i64) -> (req: WriteRequest)
        requires
            valid_key(key@),
        ensures
            req.path@ == path_of(self@, key@),
            req.create_new == true,
            req.payload@ == cbor_int(value),
    {
        self.insert(key, encode_int(value))
    }

    /// The write request of `overwrite(key, value)` for an integer value.
    pub fn overwrite_int(&self, key: &str, value: i64) -> (req: WriteRequest)
        requires
            valid_key(key@),
        ensures
            req.path@ == path_of(self@, key@),
            req.create_new == false,
            req.payload@ == cbor_int(value),
    {
        self.overwrite(key, encode_int(value))
    }

    /// The read-modify-write step of `alter(key, f)` for an integer
    /// value: the entry's bytes decoded, `f` applied, and the result's
    /// encoding made the write request's payload. Bytes that are no
    /// integer's encoding stop the operation with `CannotReadFromFile`,
    /// a failed read step with its own error.
    pub fn alter_int<F: Fn(i64) -> i64>(&self, key: &str, read: ReadOutcome, f: F) -> (r: Result<
        WriteRequest,
        Error,
    >)
        requires
            valid_key(key@),
            forall|v: i64| call_requires(f, (v,)),
        ensures
            !(read matches ReadOutcome::Content(_)) ==> r == Err::<WriteRequest, Error>(
                spec_read_error(read),
            ),
            forall|v: i64|
                (read matches ReadOutcome::Content(b) && b@ == #[trigger] cbor_int(v)) ==> (r matches Ok(req)
                    && req.path@ == path_of(self@, key@) && req.create_new == false && (
                exists|w: i64| #[trigger] call_ensures(f, (v,), w) && req.payload@ == cbor_int(w))),
            (r matches Err(e) ==> e == spec_read_error(read)),
    {
        match read {
            ReadOutcome::Content(bytes) => {
                match read_int(&bytes) {
                    Ok(v) => {
                        let w = f(v);
                        Ok(self.overwrite_int(key, w))
                    },
                    Err(e) => Err(e),
                }
            },
            ReadOutcome::OpenFailed => Err(Error::CannotOpenFile),
            ReadOutcome::LockFailed => Err(Error::CannotGetLock),
            ReadOutcome::ReadFailed => Err(Error::CannotReadFromFile),
        }
    }
}

} // verus!
