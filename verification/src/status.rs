//! Codec between the 32-bit wire status and the closed status vocabulary.

use vstd::prelude::*;

verus! {

/// Status of an HTTP request, as reported by the host when waiting on a
/// response.
#[derive(Clone, Copy, PartialEq, Eq, Structural, Debug)]
pub enum HttpRequestStatus {
    /// The deadline was reached while we waited for this request to finish.
    DeadlineReached,
    /// The request timed out.
    Timeout,
    /// The request status of this id is not known.
    Unknown,
    /// The request finished with the given HTTP status code.
    Finished(u16),
}

impl HttpRequestStatus {
    /// A well-formed `Finished` status only carries codes in the HTTP range
    /// `100..=999`; values below 100 are reserved for internal states and
    /// never appear as a finished code.
    pub open spec fn wf(self) -> bool {
        match self {
            HttpRequestStatus::Finished(code) => 100 <= code <= 999,
            _ => true,
        }
    }

    /// The status a 32-bit wire value decodes to: the three internal states
    /// sit at 0, 10 and 20, the range `100..=999` carries upstream HTTP
    /// status codes, and every other value is malformed.
    pub open spec fn spec_from_u32(status: u32) -> Option<HttpRequestStatus> {
        if status == 0 {
            Some(HttpRequestStatus::Unknown)
        } else if status == 10 {
            Some(HttpRequestStatus::DeadlineReached)
        } else if status == 20 {
            Some(HttpRequestStatus::Timeout)
        } else if 100 <= status <= 999 {
            Some(HttpRequestStatus::Finished(status as u16))
        } else {
            None
        }
    }

    /// The 32-bit wire value a status encodes to; the exact inverse of
    /// `spec_from_u32` on well-formed statuses.
    pub open spec fn spec_as_u32(self) -> u32 {
        match self {
            HttpRequestStatus::Unknown => 0,
            HttpRequestStatus::DeadlineReached => 10,
            HttpRequestStatus::Timeout => 20,
            HttpRequestStatus::Finished(code) => code as u32,
        }
    }

    /// Parse a `u32` as a request status.
    ///
    /// The first hundred codes indicate internal states; the rest are HTTP
    /// response status codes.  Returns `None` on any value outside the wire
    /// table, which signals a malformed host response.
    pub fn from_u32(status: u32) -> (r: Option<HttpRequestStatus>)
        ensures
            r == Self::spec_from_u32(status),
            r matches Some(s) ==> s.wf(),
    {
        if status == 0 {
            Some(HttpRequestStatus::Unknown)
        } else if status == 10 {
            Some(HttpRequestStatus::DeadlineReached)
        } else if status == 20 {
            Some(HttpRequestStatus::Timeout)
        } else if 100 <= status && status <= 999 {
            Some(HttpRequestStatus::Finished(status as u16))
        } else {
            None
        }
    }

    /// Convert the status into a `u32`.
    ///
    /// This is the opposite conversion to `from_u32`.
    pub fn as_u32(&self) -> (r: u32)
        ensures
            r == self.spec_as_u32(),
    {
        match *self {
            HttpRequestStatus::Unknown => 0,
            HttpRequestStatus::DeadlineReached => 10,
            HttpRequestStatus::Timeout => 20,
            HttpRequestStatus::Finished(code) => code as u32,
        }
    }
}

/// Law: a wire code decodes at all exactly when it is one of the three
/// internal states 0, 10 and 20 or lies in the HTTP range `100..=999`;
/// every other value — the reserved gaps below 100 and everything above
/// 999 — decodes to `None`.
pub proof fn lemma_accepted_codes(code: u32)
    ensures
        HttpRequestStatus::spec_from_u32(code) is Some <==> (code == 0 || code == 10 || code == 20
            || (100 <= code <= 999)),
{
}

/// Law: encoding a well-formed status and decoding the result gives back the
/// same status.
pub proof fn lemma_round_trip_from_status(s: HttpRequestStatus)
    requires
        s.wf(),
    ensures
        HttpRequestStatus::spec_from_u32(s.spec_as_u32()) == Some(s),
{
}

/// Law: decoding an accepted wire code and encoding the result gives back the
/// same code.
pub proof fn lemma_round_trip_from_code(code: u32)
    requires
        HttpRequestStatus::spec_from_u32(code) is Some,
    ensures
        HttpRequestStatus::spec_from_u32(code)->Some_0.spec_as_u32() == code,
{
}

} // verus!
