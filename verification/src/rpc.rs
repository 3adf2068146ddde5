//! The contract between the gateway and the storage service: the messages
//! of the two remote procedures and the status that a failed call carries.

use vstd::prelude::*;

verus! {

/// The status codes of the RPC layer.
#[derive(Clone, Copy, PartialEq, Eq, Structural, Debug, Hash)]
pub enum RpcCode {
    Okay,
    Cancelled,
    Unknown,
    InvalidArgument,
    DeadlineExceeded,
    NotFound,
    AlreadyExists,
    PermissionDenied,
    ResourceExhausted,
    FailedPrecondition,
    Aborted,
    OutOfRange,
    Unimplemented,
    Internal,
    Unavailable,
    DataLoss,
    Unauthenticated,
}

impl RpcCode {
    /// The number that stands for the code on the wire.
    pub open spec fn number(self) -> int {
        match self {
            RpcCode::Okay => 0,
            RpcCode::Cancelled => 1,
            RpcCode::Unknown => 2,
            RpcCode::InvalidArgument => 3,
            RpcCode::DeadlineExceeded => 4,
            RpcCode::NotFound => 5,
            RpcCode::AlreadyExists => 6,
            RpcCode::PermissionDenied => 7,
            RpcCode::ResourceExhausted => 8,
            RpcCode::FailedPrecondition => 9,
            RpcCode::Aborted => 10,
            RpcCode::OutOfRange => 11,
            RpcCode::Unimplemented => 12,
            RpcCode::Internal => 13,
            RpcCode::Unavailable => 14,
            RpcCode::DataLoss => 15,
            RpcCode::Unauthenticated => 16,
        }
    }

    /// The code that a number on the wire stands for: the code with that
    /// number where there is one, `Unknown` for every other number.
    pub open spec fn of_number(n: int) -> RpcCode {
        if exists|code: RpcCode| #[trigger] code.number() == n {
            choose|code: RpcCode| #[trigger] code.number() == n
        } else {
            RpcCode::Unknown
        }
    }

    /// No two codes share a number, and the numbers are 0 to 16.
    pub proof fn numbers_are_distinct(a: RpcCode, b: RpcCode)
        ensures
            0 <= a.number() <= 16,
            a.number() == b.number() ==> a == b,
    {
    }

    /// Reading back the number of a code gives the code.
    pub proof fn of_number_inverts_number(code: RpcCode)
        ensures
            RpcCode::of_number(code.number()) == code,
    {
        let n = code.number();
        let found = choose|c: RpcCode| #[trigger] c.number() == n;
        Self::numbers_are_distinct(found, code);
    }

    /// A number that no code has reads as `Unknown`.
    pub proof fn of_number_defaults_to_unknown(n: int)
        requires
            n < 0 || n > 16,
        ensures
            RpcCode::of_number(n) == RpcCode::Unknown,
    {
        assert forall|code: RpcCode| #[trigger] code.number() != n by {
            Self::numbers_are_distinct(code, code);
        }
    }

    /// The code as its number on the wire.
    pub fn as_i32(&self) -> (n: i32)
        ensures
            n == self.number(),
    {
        match self {
            RpcCode::Okay => 0,
            RpcCode::Cancelled => 1,
            RpcCode::Unknown => 2,
            RpcCode::InvalidArgument => 3,
            RpcCode::DeadlineExceeded => 4,
            RpcCode::NotFound => 5,
            RpcCode::AlreadyExists => 6,
            RpcCode::PermissionDenied => 7,
            RpcCode::ResourceExhausted => 8,
            RpcCode::FailedPrecondition => 9,
            RpcCode::Aborted => 10,
            RpcCode::OutOfRange => 11,
            RpcCode::Unimplemented => 12,
            RpcCode::Internal => 13,
            RpcCode::Unavailable => 14,
            RpcCode::DataLoss => 15,
            RpcCode::Unauthenticated => 16,
        }
    }

    /// The code for a number read off the wire; a number that names no code
    /// is taken as `Unknown`.
    pub fn from_i32(n: i32) -> (code: RpcCode)
        ensures
            code == RpcCode::of_number(n as int),
    {
        let code = match n {
            0 => RpcCode::Okay,
            1 => RpcCode::Cancelled,
            2 => RpcCode::Unknown,
            3 => RpcCode::InvalidArgument,
            4 => RpcCode::DeadlineExceeded,
            5 => RpcCode::NotFound,
            6 => RpcCode::AlreadyExists,
            7 => RpcCode::PermissionDenied,
            8 => RpcCode::ResourceExhausted,
            9 => RpcCode::FailedPrecondition,
            10 => RpcCode::Aborted,
            11 => RpcCode::OutOfRange,
            12 => RpcCode::Unimplemented,
            13 => RpcCode::Internal,
            14 => RpcCode::Unavailable,
            15 => RpcCode::DataLoss,
            16 => RpcCode::Unauthenticated,
            _ => RpcCode::Unknown,
        };
        proof {
            if 0 <= n <= 16 {
                assert(code.number() == n);
                Self::of_number_inverts_number(code);
            } else {
                Self::of_number_defaults_to_unknown(n as int);
            }
        }
        code
    }
}

/// What a failed call carries back: a code and a message for the reader.
#[derive(Debug, PartialEq, Eq)]
pub struct RpcStatus {
    pub code: RpcCode,
    pub message: String,
}

/// An `RpcStatus` as specifications see it.
pub struct RpcStatusView {
    pub code: RpcCode,
    pub message: Seq<char>,
}

impl View for RpcStatus {
    type V = RpcStatusView;

    open spec fn view(&self) -> RpcStatusView {
        RpcStatusView { code: self.code, message: self.message@ }
    }
}

impl RpcStatus {
    /// A status with the given code and message.
    pub fn new(code: RpcCode, message: &str) -> (status: Self)
        ensures
            status@ == (RpcStatusView { code, message: message@ }),
    {
        RpcStatus { code, message: message.to_owned() }
    }

    /// The status that reports a missing entry.
    pub fn not_found(message: &str) -> (status: Self)
        ensures
            status@ == (RpcStatusView { code: RpcCode::NotFound, message: message@ }),
    {
        RpcStatus::new(RpcCode::NotFound, message)
    }
}

impl Clone for RpcStatus {
    fn clone(&self) -> (copy: Self)
        ensures
            copy == *self,
    {
        RpcStatus { code: self.code, message: self.message.clone() }
    }
}

/// A key with the value stored under it, as specifications see it. It is the
/// view of the two messages that carry such a pair.
pub struct Entry {
    pub key: Seq<char>,
    pub value: Seq<char>,
}

/// Asks the storage service to keep `value` under `key`.
#[derive(Debug, PartialEq, Eq)]
pub struct StoreRequest {
    pub key: String,
    pub value: String,
}

impl View for StoreRequest {
    type V = Entry;

    open spec fn view(&self) -> Entry {
        Entry { key: self.key@, value: self.value@ }
    }
}

impl Clone for StoreRequest {
    fn clone(&self) -> (copy: Self)
        ensures
            copy == *self,
    {
        StoreRequest { key: self.key.clone(), value: self.value.clone() }
    }
}

/// Asks the storage service for the value kept under `key`.
#[derive(Debug, PartialEq, Eq)]
pub struct LoadRequest {
    pub key: String,
}

impl Clone for LoadRequest {
    fn clone(&self) -> (copy: Self)
        ensures
            copy == *self,
    {
        LoadRequest { key: self.key.clone() }
    }
}

/// The answer to a `LoadRequest`: the key that was asked for and its value.
#[derive(Debug, PartialEq, Eq)]
pub struct LoadReply {
    pub key: String,
    pub value: String,
}

impl View for LoadReply {
    type V = Entry;

    open spec fn view(&self) -> Entry {
        Entry { key: self.key@, value: self.value@ }
    }
}

impl Clone for LoadReply {
    fn clone(&self) -> (copy: Self)
        ensures
            copy == *self,
    {
        LoadReply { key: self.key.clone(), value: self.value.clone() }
    }
}

/// The outcome of a store call as specifications see it.
pub open spec fn store_result_view(result: Result<(), RpcStatus>) -> Result<(), RpcStatusView> {
    match result {
        Ok(_) => Ok(()),
        Err(status) => Err(status@),
    }
}

/// The outcome of a load call as specifications see it.
pub open spec fn load_result_view(result: Result<LoadReply, RpcStatus>) -> Result<
    Entry,
    RpcStatusView,
> {
    match result {
        Ok(reply) => Ok(reply@),
        Err(status) => Err(status@),
    }
}

} // verus!
