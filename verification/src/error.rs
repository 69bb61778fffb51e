//! Error types reported by the driver.
use vstd::prelude::*;

verus! {

/// The kind of failure that an exchange with the meter can end in.
#[derive(Debug, Clone, PartialEq)]
pub enum UartErrorKind {
    Read,
    ReadInsuffisantBytes,
    BadCrc,
    Write,
    WriteInsuffisantBytes,
    Other,
}

/// An error raised while exchanging bytes with the meter.
///
/// For the size-mismatch kinds, `expected_len` and `actual_len` carry the
/// byte count the protocol called for and the count the transport reported;
/// both are zero for every other kind.
#[derive(Debug, Clone)]
pub struct UartError {
    pub message: String,
    pub kind: UartErrorKind,
    pub expected_len: usize,
    pub actual_len: usize,
}

impl UartError {
    pub fn new(kind: UartErrorKind, message: String) -> (e: Self)
        ensures
            e.kind == kind,
            e.message@ == message@,
            e.expected_len == 0,
            e.actual_len == 0,
    {
        Self { message, kind, expected_len: 0, actual_len: 0 }
    }

    pub fn from(kind: UartErrorKind) -> (e: Self)
        ensures
            e.kind == kind,
            e.message@ == Seq::<char>::empty(),
            e.expected_len == 0,
            e.actual_len == 0,
    {
        Self { message: String::new(), kind, expected_len: 0, actual_len: 0 }
    }

    pub fn other(message: String) -> (e: Self)
        ensures
            e.kind == UartErrorKind::Other,
            e.message@ == message@,
            e.expected_len == 0,
            e.actual_len == 0,
    {
        Self { message, kind: UartErrorKind::Other, expected_len: 0, actual_len: 0 }
    }

    /// An error for a transfer that moved a different number of bytes than
    /// the protocol called for.
    pub fn size_mismatch(kind: UartErrorKind, expected_len: usize, actual_len: usize) -> (e: Self)
        ensures
            e.kind == kind,
            e.message@ == Seq::<char>::empty(),
            e.expected_len == expected_len,
            e.actual_len == actual_len,
    {
        Self { message: String::new(), kind, expected_len, actual_len }
    }
}

/// An error raised while reconfiguring the meter's bitrate; wraps the
/// transport error that caused it.
#[derive(Debug, Clone)]
pub struct ChangeBitrateError {
    pub parent: UartError,
}

impl ChangeBitrateError {
    pub fn new(parent: UartError) -> (e: Self)
        ensures
            e.parent == parent,
    {
        Self { parent }
    }
}

} // verus!
