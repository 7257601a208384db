//! The capability surface a task context calls into, and the lifecycle
//! contract of its HTTP operations.
//!
//! A request moves through a small state machine: it is started, headers and
//! body chunks are buffered while it is writable, a zero-length body chunk
//! finalizes it and puts it in flight, and waiting observes its resolution.
//! The contracts below serialize that interaction over an abstract map from
//! request id to phase, so that every implementation — including the boxed
//! forwarding one at the bottom of this file — is held to the same order of
//! operations.

use vstd::prelude::*;

use crate::clock::Timestamp;
use crate::status::HttpRequestStatus;

verus! {

/// Opaque type for offchain HTTP requests: a host-assigned 16-bit handle,
/// unique among currently-outstanding requests.  Task code never constructs
/// a meaningful one, it only receives them from `http_request_start`.
#[derive(Clone, Copy, PartialEq, Eq, Structural, Debug)]
pub struct HttpRequestId(pub u16);

/// Lifecycle phase of an outstanding HTTP request, as far as the contract
/// can observe it.
#[derive(Clone, Copy, PartialEq, Eq, Structural, Debug)]
pub enum RequestPhase {
    /// Headers may still be added and body chunks written.
    Writable,
    /// A zero-length body chunk was written: the request is in flight or
    /// already resolved, and no further header or body data is accepted.
    Finalized,
}

/// The phase of `id` in the outstanding-request map `m`, or `None` when the
/// host does not track `id` (never assigned, or already reclaimed).
pub open spec fn phase_of(m: Map<u16, RequestPhase>, id: HttpRequestId) -> Option<RequestPhase> {
    if m.contains_key(id.0) {
        Some(m[id.0])
    } else {
        None
    }
}

/// An extended externalities for offchain workers: the single surface
/// through which an isolated task context reaches outbound HTTP, local
/// storage, signing, time and randomness.
pub trait Externalities {
    /// Abstract model of the requests the host currently tracks for this
    /// task context, by id.  Ids absent from the map are not recognized;
    /// reuse of an id after the host reclaims it is host-defined.  The
    /// default model is the empty map; a verified implementation overrides
    /// it with its own.
    open spec fn request_phases(&self) -> Map<u16, RequestPhase> {
        Map::empty()
    }

    /// Abstract model of the host-local persistent key/value store.  This
    /// storage is not part of consensus: it is only shared with tasks on the
    /// same machine, and it is persisted between runs.  The default model is
    /// the empty map; a verified implementation overrides it with its own.
    open spec fn storage(&self) -> Map<Seq<u8>, Seq<u8>> {
        Map::empty()
    }

    /// Submit a transaction to the pool for propagation to others.
    /// Rejection is a binary signal with no further detail.
    fn submit_transaction(&mut self, extrinsic: Vec<u8>) -> Result<(), ()>;

    /// Sign the given piece of data with the current authority key, or
    /// return `None` when signing is not available in this context.
    fn sign(&mut self, data: &[u8]) -> Option<[u8; 64]>;

    /// Returns the current Unix timestamp in milliseconds.
    fn timestamp(&mut self) -> Timestamp;

    /// Pause the execution until `deadline` is reached; returns immediately
    /// if it already passed.
    fn sleep_until(&mut self, deadline: Timestamp);

    /// Returns a truly random, non-deterministic seed generated by the host
    /// environment.
    fn random_seed(&mut self) -> [u8; 32];

    /// Sets a value in the local storage: afterwards the store maps `key` to
    /// `value`, and every other key is unchanged.
    fn local_storage_set(&mut self, key: &[u8], value: &[u8])
        ensures
            final(self).storage() == old(self).storage().insert(key@, value@),
    ;

    /// Reads a value from the local storage: `Some` exactly when the key is
    /// present, carrying the stored bytes, and the store itself is left
    /// unchanged.
    fn local_storage_read(&mut self, key: &[u8]) -> (r: Option<Vec<u8>>)
        ensures
            final(self).storage() == old(self).storage(),
            r is Some <==> old(self).storage().contains_key(key@),
            r matches Some(v) ==> v@ == old(self).storage()[key@],
    ;

    /// Initiates an HTTP request with the given verb and URL.  `meta` is a
    /// reserved, codec-encoded extension field that implementations must
    /// tolerate and ignore.  On success the returned id is fresh — it was
    /// not outstanding before the call — and its request is writable.
    /// Failure (the host could not schedule the request) carries no detail.
    fn http_request_start(&mut self, method: &str, uri: &str, meta: &[u8]) -> (r: Result<
        HttpRequestId,
        (),
    >)
        ensures
            r matches Ok(id) ==> phase_of(old(self).request_phases(), id) is None,
            r matches Ok(id) ==> phase_of(final(self).request_phases(), id) == Some(
                RequestPhase::Writable,
            ),
    ;

    /// Append one header to the request.  Fails if the id is unknown or the
    /// request already passed the point where headers may be added; on
    /// success the request stays writable.
    fn http_request_add_header(&mut self, request_id: HttpRequestId, name: &str, value: &str) -> (r:
        Result<(), ()>)
        ensures
            phase_of(old(self).request_phases(), request_id) != Some(RequestPhase::Writable)
                ==> r is Err,
            r is Ok ==> phase_of(final(self).request_phases(), request_id) == Some(
                RequestPhase::Writable,
            ),
            r is Err && phase_of(old(self).request_phases(), request_id) == Some(
                RequestPhase::Finalized,
            ) ==> phase_of(final(self).request_phases(), request_id) != Some(
                RequestPhase::Writable,
            ),
    ;

    /// Write a chunk of the request body, blocking at most until `deadline`
    /// (`None` blocks with no timeout).
    ///
    /// Writing an empty chunk finalizes the request: afterwards it is no
    /// longer writable, so any further write attempt fails.  A write also
    /// fails when the id is unknown, when the deadline is reached first, or
    /// when the connection could not accept the data.
    fn http_request_write_body(
        &mut self,
        request_id: HttpRequestId,
        chunk: &[u8],
        deadline: Option<Timestamp>,
    ) -> (r: Result<(), ()>)
        ensures
            phase_of(old(self).request_phases(), request_id) != Some(RequestPhase::Writable)
                ==> r is Err,
            r is Ok && chunk@.len() == 0 ==> phase_of(final(self).request_phases(), request_id)
                == Some(RequestPhase::Finalized),
            r is Ok && chunk@.len() > 0 ==> phase_of(final(self).request_phases(), request_id)
                == Some(RequestPhase::Writable),
            r is Err && phase_of(old(self).request_phases(), request_id) == Some(
                RequestPhase::Finalized,
            ) ==> phase_of(final(self).request_phases(), request_id) != Some(
                RequestPhase::Writable,
            ),
    ;

    /// Block and wait for the responses of the given requests, at most until
    /// `deadline` (`None` blocks indefinitely).
    ///
    /// The call is infallible by design: it returns one status per input id,
    /// positionally aligned with `ids` — never a filtered or deduplicated
    /// set.  Ids the host does not track are reported `Unknown` rather than
    /// failing the batch, unready requests at deadline expiry are reported
    /// `Timeout` rather than omitted, and every reported status is
    /// well-formed.
    fn http_response_wait(&mut self, ids: &[HttpRequestId], deadline: Option<Timestamp>) -> (r: Vec<
        HttpRequestStatus,
    >)
        ensures
            r@.len() == ids@.len(),
            forall|i: int|
                0 <= i < ids@.len() ==> (#[trigger] r@[i]).wf(),
            forall|i: int|
                0 <= i < ids@.len() && phase_of(old(self).request_phases(), ids@[i]) is None
                    ==> #[trigger] r@[i] == HttpRequestStatus::Unknown,
    ;

    /// Read all response headers received so far, as key/value byte pairs.
    /// Does not block; an unknown id yields the empty sequence rather than a
    /// distinct failure signal.
    fn http_response_headers(&mut self, request_id: HttpRequestId) -> (r: Vec<(Vec<u8>, Vec<u8>)>)
        ensures
            phase_of(old(self).request_phases(), request_id) is None ==> r@.len() == 0,
    ;

    /// Read a chunk of the response body into `buffer`, blocking at most
    /// until `deadline` (`None` blocks indefinitely).
    ///
    /// Returns the number of bytes written — zero signals end of body, and
    /// the count never exceeds the buffer's length, whose size the call
    /// leaves unchanged.  Fails if the deadline elapses before any data is
    /// available or the remote side closed the connection abnormally.
    fn http_response_read_body(
        &mut self,
        request_id: HttpRequestId,
        buffer: &mut Vec<u8>,
        deadline: Option<Timestamp>,
    ) -> (r: Result<usize, ()>)
        ensures
            final(buffer)@.len() == old(buffer)@.len(),
            r matches Ok(n) ==> n <= old(buffer)@.len(),
    ;
}

impl<T: Externalities + ?Sized> Externalities for Box<T> {
    open spec fn request_phases(&self) -> Map<u16, RequestPhase> {
        (**self).request_phases()
    }

    open spec fn storage(&self) -> Map<Seq<u8>, Seq<u8>> {
        (**self).storage()
    }

    fn submit_transaction(&mut self, extrinsic: Vec<u8>) -> Result<(), ()> {
        (**self).submit_transaction(extrinsic)
    }

    fn sign(&mut self, data: &[u8]) -> Option<[u8; 64]> {
        (**self).sign(data)
    }

    fn timestamp(&mut self) -> Timestamp {
        (**self).timestamp()
    }

    fn sleep_until(&mut self, deadline: Timestamp) {
        (**self).sleep_until(deadline)
    }

    fn random_seed(&mut self) -> [u8; 32] {
        (**self).random_seed()
    }

    fn local_storage_set(&mut self, key: &[u8], value: &[u8]) {
        (**self).local_storage_set(key, value)
    }

    fn local_storage_read(&mut self, key: &[u8]) -> (r: Option<Vec<u8>>) {
        (**self).local_storage_read(key)
    }

    fn http_request_start(&mut self, method: &str, uri: &str, meta: &[u8]) -> (r: Result<
        HttpRequestId,
        (),
    >) {
        (**self).http_request_start(method, uri, meta)
    }

    fn http_request_add_header(&mut self, request_id: HttpRequestId, name: &str, value: &str) -> (r:
        Result<(), ()>) {
        (**self).http_request_add_header(request_id, name, value)
    }

    fn http_request_write_body(
        &mut self,
        request_id: HttpRequestId,
        chunk: &[u8],
        deadline: Option<Timestamp>,
    ) -> (r: Result<(), ()>) {
        (**self).http_request_write_body(request_id, chunk, deadline)
    }

    fn http_response_wait(&mut self, ids: &[HttpRequestId], deadline: Option<Timestamp>) -> (r: Vec<
        HttpRequestStatus,
    >) {
        (**self).http_response_wait(ids, deadline)
    }

    fn http_response_headers(&mut self, request_id: HttpRequestId) -> (r: Vec<(Vec<u8>, Vec<u8>)>) {
        (**self).http_response_headers(request_id)
    }

    fn http_response_read_body(
        &mut self,
        request_id: HttpRequestId,
        buffer: &mut Vec<u8>,
        deadline: Option<Timestamp>,
    ) -> (r: Result<usize, ()>) {
        (**self).http_response_read_body(request_id, buffer, deadline)
    }
}

} // verus!
