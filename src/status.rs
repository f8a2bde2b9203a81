//! Status codes of the embedding interface and the error taxonomy built from them.
use vstd::prelude::*;

verus! {

/// A status reported by the embedding interface. Every fallible operation of this library
/// returns one of the error variants.
#[derive(Clone, Copy, Debug, PartialEq, Eq, Structural)]
pub enum NapiStatus {
    NapiOk,
    InvalidArg,
    ObjectExpected,
    StringExpected,
    NameExpected,
    FunctionExpected,
    NumberExpected,
    BooleanExpected,
    ArrayExpected,
    GenericFailure,
    PendingException,
    Cancelled,
    EscapeCalledTwice,
    HandleScopeMismatch,
    CallbackScopeMismatch,
    QueueFull,
    Closing,
    BigintExpected,
    DateExpected,
    ArraybufferExpected,
    DetachableArraybufferExpected,
    WouldDeadlock,
}

/// The result of an operation of the embedding interface.
pub type NapiResult<T> = Result<T, NapiStatus>;

/// The integer code the embedding interface uses for each status.
pub open spec fn status_code(s: NapiStatus) -> u32 {
    match s {
        NapiStatus::NapiOk => 0,
        NapiStatus::InvalidArg => 1,
        NapiStatus::ObjectExpected => 2,
        NapiStatus::StringExpected => 3,
        NapiStatus::NameExpected => 4,
        NapiStatus::FunctionExpected => 5,
        NapiStatus::NumberExpected => 6,
        NapiStatus::BooleanExpected => 7,
        NapiStatus::ArrayExpected => 8,
        NapiStatus::GenericFailure => 9,
        NapiStatus::PendingException => 10,
        NapiStatus::Cancelled => 11,
        NapiStatus::EscapeCalledTwice => 12,
        NapiStatus::HandleScopeMismatch => 13,
        NapiStatus::CallbackScopeMismatch => 14,
        NapiStatus::QueueFull => 15,
        NapiStatus::Closing => 16,
        NapiStatus::BigintExpected => 17,
        NapiStatus::DateExpected => 18,
        NapiStatus::ArraybufferExpected => 19,
        NapiStatus::DetachableArraybufferExpected => 20,
        NapiStatus::WouldDeadlock => 21,
    }
}

/// The message that describes a status.
pub open spec fn status_message(s: NapiStatus) -> Seq<char> {
    match s {
        NapiStatus::NapiOk => "napi ok"@,
        NapiStatus::InvalidArg => "invalid arg"@,
        NapiStatus::ObjectExpected => "object expected"@,
        NapiStatus::StringExpected => "string expected"@,
        NapiStatus::NameExpected => "name expected"@,
        NapiStatus::FunctionExpected => "function expected"@,
        NapiStatus::NumberExpected => "number expected"@,
        NapiStatus::BooleanExpected => "boolean expected"@,
        NapiStatus::ArrayExpected => "array expected"@,
        NapiStatus::GenericFailure => "generic failure"@,
        NapiStatus::PendingException => "pending exception"@,
        NapiStatus::Cancelled => "cancelled"@,
        NapiStatus::EscapeCalledTwice => "escape called twice"@,
        NapiStatus::HandleScopeMismatch => "handle scope mismatch"@,
        NapiStatus::CallbackScopeMismatch => "callback scope mismatch"@,
        NapiStatus::QueueFull => "queue full"@,
        NapiStatus::Closing => "closing"@,
        NapiStatus::BigintExpected => "bigint expected"@,
        NapiStatus::DateExpected => "date expected"@,
        NapiStatus::ArraybufferExpected => "arraybuffer expected"@,
        NapiStatus::DetachableArraybufferExpected => "detachable arraybuffer expected"@,
        NapiStatus::WouldDeadlock => "would deadlock"@,
    }
}

/// The largest status code the embedding interface defines.
pub const LAST_STATUS_CODE: u32 = 21;

impl NapiStatus {
    /// The integer code of this status.
    pub fn code(&self) -> (r: u32)
        ensures
            r == status_code(*self),
    {
        match self {
            NapiStatus::NapiOk => 0,
            NapiStatus::InvalidArg => 1,
            NapiStatus::ObjectExpected => 2,
            NapiStatus::StringExpected => 3,
            NapiStatus::NameExpected => 4,
            NapiStatus::FunctionExpected => 5,
            NapiStatus::NumberExpected => 6,
            NapiStatus::BooleanExpected => 7,
            NapiStatus::ArrayExpected => 8,
            NapiStatus::GenericFailure => 9,
            NapiStatus::PendingException => 10,
            NapiStatus::Cancelled => 11,
            NapiStatus::EscapeCalledTwice => 12,
            NapiStatus::HandleScopeMismatch => 13,
            NapiStatus::CallbackScopeMismatch => 14,
            NapiStatus::QueueFull => 15,
            NapiStatus::Closing => 16,
            NapiStatus::BigintExpected => 17,
            NapiStatus::DateExpected => 18,
            NapiStatus::ArraybufferExpected => 19,
            NapiStatus::DetachableArraybufferExpected => 20,
            NapiStatus::WouldDeadlock => 21,
        }
    }

    /// The status with the given integer code; `None` for a code the interface does not
    /// define.
    pub fn from_code(code: u32) -> (r: Option<NapiStatus>)
        ensures
            r is Some <==> code <= LAST_STATUS_CODE,
            r matches Some(s) ==> status_code(s) == code,
    {
        match code {
            0 => Some(NapiStatus::NapiOk),
            1 => Some(NapiStatus::InvalidArg),
            2 => Some(NapiStatus::ObjectExpected),
            3 => Some(NapiStatus::StringExpected),
            4 => Some(NapiStatus::NameExpected),
            5 => Some(NapiStatus::FunctionExpected),
            6 => Some(NapiStatus::NumberExpected),
            7 => Some(NapiStatus::BooleanExpected),
            8 => Some(NapiStatus::ArrayExpected),
            9 => Some(NapiStatus::GenericFailure),
            10 => Some(NapiStatus::PendingException),
            11 => Some(NapiStatus::Cancelled),
            12 => Some(NapiStatus::EscapeCalledTwice),
            13 => Some(NapiStatus::HandleScopeMismatch),
            14 => Some(NapiStatus::CallbackScopeMismatch),
            15 => Some(NapiStatus::QueueFull),
            16 => Some(NapiStatus::Closing),
            17 => Some(NapiStatus::BigintExpected),
            18 => Some(NapiStatus::DateExpected),
            19 => Some(NapiStatus::ArraybufferExpected),
            20 => Some(NapiStatus::DetachableArraybufferExpected),
            21 => Some(NapiStatus::WouldDeadlock),
            _ => None,
        }
    }

    /// Turns a status into a result: `Ok(())` for the ok status, the status itself as the
    /// error otherwise.
    pub fn into_result(self) -> (r: NapiResult<()>)
        ensures
            self == NapiStatus::NapiOk ==> r == Ok::<(), NapiStatus>(()),
            self != NapiStatus::NapiOk ==> r == Err::<(), NapiStatus>(self),
    {
        match self {
            NapiStatus::NapiOk => Ok(()),
            _ => Err(self),
        }
    }
    /// The message that describes this status.
    pub fn message(&self) -> (r: &'static str)
        ensures
            r@ == status_message(*self),
    {
        match self {
            NapiStatus::NapiOk => "napi ok",
            NapiStatus::InvalidArg => "invalid arg",
            NapiStatus::ObjectExpected => "object expected",
            NapiStatus::StringExpected => "string expected",
            NapiStatus::NameExpected => "name expected",
            NapiStatus::FunctionExpected => "function expected",
            NapiStatus::NumberExpected => "number expected",
            NapiStatus::BooleanExpected => "boolean expected",
            NapiStatus::ArrayExpected => "array expected",
            NapiStatus::GenericFailure => "generic failure",
            NapiStatus::PendingException => "pending exception",
            NapiStatus::Cancelled => "cancelled",
            NapiStatus::EscapeCalledTwice => "escape called twice",
            NapiStatus::HandleScopeMismatch => "handle scope mismatch",
            NapiStatus::CallbackScopeMismatch => "callback scope mismatch",
            NapiStatus::QueueFull => "queue full",
            NapiStatus::Closing => "closing",
            NapiStatus::BigintExpected => "bigint expected",
            NapiStatus::DateExpected => "date expected",
            NapiStatus::ArraybufferExpected => "arraybuffer expected",
            NapiStatus::DetachableArraybufferExpected => "detachable arraybuffer expected",
            NapiStatus::WouldDeadlock => "would deadlock",
        }
    }
}

} // verus!
