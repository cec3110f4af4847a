//! Result codes shared by every operation of the library.
//!
//! `OK` reports success; `ERROR` and every code greater than `OK` signal
//! failure or short-circuit, so callers branch on comparison, not only on
//! equality. `AGAIN` means the host cannot accept work right now and will
//! re-invoke the caller later.

use vstd::prelude::*;

verus! {

/// The code carried by [`Status::OK`].
pub const NGX_OK: i64 = 0;

/// The code carried by [`Status::ERROR`].
pub const NGX_ERROR: i64 = -1;

/// The code carried by [`Status::AGAIN`].
pub const NGX_AGAIN: i64 = -2;

/// Tagged result code: `OK`, `ERROR`, `AGAIN`, or a protocol-level status
/// in the positive range.
#[derive(PartialEq, Eq, Structural, Clone, Copy, Debug)]
pub struct Status(pub i64);

impl Status {
    /// The success status.
    pub fn ok() -> (s: Status)
        ensures
            s.0 == NGX_OK,
    {
        Status(NGX_OK)
    }

    /// The failure status.
    pub fn error() -> (s: Status)
        ensures
            s.0 == NGX_ERROR,
    {
        Status(NGX_ERROR)
    }

    /// The would-block status: the caller is re-invoked by the host later.
    pub fn again() -> (s: Status)
        ensures
            s.0 == NGX_AGAIN,
    {
        Status(NGX_AGAIN)
    }

    /// True exactly on the success code.
    pub fn is_ok(&self) -> (r: bool)
        ensures
            r == (self.0 == NGX_OK),
    {
        self.0 == NGX_OK
    }

    /// A failed or short-circuiting status: `ERROR`, or any code greater
    /// than `OK` (the protocol-level range).
    pub open spec fn spec_is_failure(self) -> bool {
        self.0 == NGX_ERROR || self.0 > NGX_OK
    }

    /// True exactly where the status signals failure or short-circuit.
    pub fn is_failure(&self) -> (r: bool)
        ensures
            r == self.spec_is_failure(),
    {
        self.0 == NGX_ERROR || self.0 > NGX_OK
    }
}

impl PartialOrd for Status {
    fn partial_cmp(&self, other: &Status) -> (r: Option<core::cmp::Ordering>) {
        if self.0 < other.0 {
            Some(core::cmp::Ordering::Less)
        } else if self.0 == other.0 {
            Some(core::cmp::Ordering::Equal)
        } else {
            Some(core::cmp::Ordering::Greater)
        }
    }
}

impl vstd::std_specs::cmp::PartialOrdSpecImpl for Status {
    open spec fn obeys_partial_cmp_spec() -> bool {
        true
    }

    open spec fn partial_cmp_spec(&self, other: &Status) -> Option<core::cmp::Ordering> {
        if self.0 < other.0 {
            Some(core::cmp::Ordering::Less)
        } else if self.0 == other.0 {
            Some(core::cmp::Ordering::Equal)
        } else {
            Some(core::cmp::Ordering::Greater)
        }
    }
}

} // verus!
