//! Errors and the pending exception. At most one exception is pending; throwing while
//! one is pending keeps the pending one.
use vstd::prelude::*;
use vstd::string::StringSliceAdditionalSpecFns;
use vstd::utf8::encode_utf8;
use crate::host::{created, plain, Data, ErrorKind, HostView, JsValue, NapiEnv, NapiHost, Payload};
use crate::status::{NapiResult, NapiStatus};
use crate::value::{JsError, JsString};

verus! {

/// The text holds a NUL byte, which a C string cannot carry.
pub open spec fn has_nul(s: Seq<char>) -> bool {
    encode_utf8(s).contains(0u8)
}

/// Whether `s` holds a NUL byte.
pub fn contains_nul(s: &str) -> (r: bool)
    ensures
        r == has_nul(s@),
{
    let b = s.as_bytes();
    let mut i: usize = 0;
    while i < b.len()
        invariant
            b@ == s.spec_bytes(),
            i <= b@.len(),
            forall|j: int| 0 <= j < i ==> b@[j] != 0u8,
        decreases b@.len() - i,
    {
        if b[i] == 0u8 {
            assert(b@[i as int] == 0u8);
            return true;
        }
        i = i + 1;
    }
    false
}

/// `after` is `before` with a new message string holding `msg`, then a new error of kind
/// `kind` carrying it; `e` is the handle to the error.
pub open spec fn error_created(
    before: HostView,
    after: HostView,
    e: JsValue,
    kind: ErrorKind,
    msg: Seq<char>,
) -> bool {
    exists|mid: HostView, m: JsValue|
        {
            &&& created(before, mid, m, Data::Text(msg))
            &&& created(mid, after, e, Data::Error(kind, mid.target(m.raw)))
        }
}

/// `after` is `before` with an error of kind `kind` carrying `msg` made and, when no
/// exception was pending, made the pending exception.
pub open spec fn thrown(before: HostView, after: HostView, kind: ErrorKind, msg: Seq<char>) -> bool {
    exists|mid: HostView, e: JsValue|
        {
            &&& error_created(before, mid, e, kind, msg)
            &&& if before.exception is None {
                after == (HostView { exception: Some(mid.target(e.raw)), ..mid })
            } else {
                after == mid
            }
        }
}

impl JsError {
    /// A new error of kind `kind` whose message is `msg`.
    pub fn with_kind(env: NapiEnv, host: &mut NapiHost, kind: ErrorKind, msg: &str) -> (r: NapiResult<JsError>)
        requires
            old(host)@.wf(),
        ensures
            final(host)@.wf(),
            old(host)@.succeeds(final(host)@),
            r matches Ok(e) && error_created(old(host)@, final(host)@, e.0, kind, msg@),
            r matches Ok(e) && final(host)@.valid(e.0),
    {
        let ghost before = host@;
        let m = JsString::new(env, host, msg)?;
        let ghost mid = host@;
        let slot = host.target_of(m.0)?;
        let e = host.create(plain(Payload::Error(kind, slot)));
        assert(created(before, mid, m.0, Data::Text(msg@)));
        assert(created(mid, host@, e, Data::Error(kind, mid.target(m.0.raw))));
        Ok(JsError(e))
    }
}

impl JsError {
    /// A new handle to the message of the error: `InvalidArg` for a dead handle, a value
    /// that is no error, or an error whose message the host has collected.
    pub fn message(&self, host: &mut NapiHost) -> (r: NapiResult<JsString>)
        requires
            old(host)@.wf(),
        ensures
            final(host)@.wf(),
            old(host)@.succeeds(final(host)@),
            !old(host)@.valid(self.0) ==> r == Err::<JsString, NapiStatus>(NapiStatus::InvalidArg)
                && final(host)@ == old(host)@,
            old(host)@.valid(self.0) ==> match old(host)@.data(self.0.raw) {
                Data::Error(_, m) => if m < old(host)@.values.len() && !old(host)@.values[m as int].collected {
                    (r matches Ok(s) && crate::host::handle_made(old(host)@, final(host)@, s.0, m))
                } else {
                    r == Err::<JsString, NapiStatus>(NapiStatus::InvalidArg) && final(host)@ == old(host)@
                },
                _ => r == Err::<JsString, NapiStatus>(NapiStatus::InvalidArg) && final(host)@ == old(host)@,
            },
    {
        let t = host.target_of(self.0)?;
        match &host.entity(t).payload {
            Payload::Error(_, m) => {
                let m = *m;
                if m >= host.value_count() || host.entity(m).collected {
                    return Err(NapiStatus::InvalidArg);
                }
                Ok(JsString(host.new_handle(m)))
            },
            _ => Err(NapiStatus::InvalidArg),
        }
    }
}

/// What making an error of kind `kind` from the message value `msg` does: `InvalidArg` for
/// a dead handle, `StringExpected` for a message that is no string; otherwise a new error
/// carrying that message.
pub open spec fn error_from(before: HostView, after: HostView, r: NapiResult<JsError>, kind: ErrorKind, msg: JsString) -> bool {
    if !before.valid(msg.0) {
        r == Err::<JsError, NapiStatus>(NapiStatus::InvalidArg) && after == before
    } else if !(before.data(msg.0.raw) is Text) {
        r == Err::<JsError, NapiStatus>(NapiStatus::StringExpected) && after == before
    } else {
        r matches Ok(e) && created(before, after, e.0, Data::Error(kind, before.target(msg.0.raw)))
    }
}

fn error_of(env: NapiEnv, host: &mut NapiHost, kind: ErrorKind, msg: JsString) -> (r: NapiResult<JsError>)
    requires
        old(host)@.wf(),
    ensures
        final(host)@.wf(),
        old(host)@.succeeds(final(host)@),
        error_from(old(host)@, final(host)@, r, kind, msg),
{
    let t = host.target_of(msg.0)?;
    match &host.entity(t).payload {
        Payload::Text(_) => {},
        _ => return Err(NapiStatus::StringExpected),
    }
    Ok(JsError(host.create(plain(Payload::Error(kind, t)))))
}

impl JsError {
    /// A new `Error` whose message is the string `msg`.
    pub fn error(env: NapiEnv, host: &mut NapiHost, msg: JsString) -> (r: NapiResult<JsError>)
        requires
            old(host)@.wf(),
        ensures
            final(host)@.wf(),
            old(host)@.succeeds(final(host)@),
            error_from(old(host)@, final(host)@, r, ErrorKind::Error, msg),
    {
        error_of(env, host, ErrorKind::Error, msg)
    }

    /// A new `TypeError` whose message is the string `msg`.
    pub fn type_error(env: NapiEnv, host: &mut NapiHost, msg: JsString) -> (r: NapiResult<JsError>)
        requires
            old(host)@.wf(),
        ensures
            final(host)@.wf(),
            old(host)@.succeeds(final(host)@),
            error_from(old(host)@, final(host)@, r, ErrorKind::TypeError, msg),
    {
        error_of(env, host, ErrorKind::TypeError, msg)
    }

    /// A new `RangeError` whose message is the string `msg`.
    pub fn range_error(env: NapiEnv, host: &mut NapiHost, msg: JsString) -> (r: NapiResult<JsError>)
        requires
            old(host)@.wf(),
        ensures
            final(host)@.wf(),
            old(host)@.succeeds(final(host)@),
            error_from(old(host)@, final(host)@, r, ErrorKind::RangeError, msg),
    {
        error_of(env, host, ErrorKind::RangeError, msg)
    }
}

/// Makes an error of kind `kind` with message `msg` the pending exception, unless one is
/// pending already.
pub(crate) fn throw_kind(host: &mut NapiHost, kind: ErrorKind, msg: &str) -> (r: NapiResult<()>)
    requires
        old(host)@.wf(),
    ensures
        final(host)@.wf(),
        old(host)@.succeeds(final(host)@),
        r == Ok::<(), NapiStatus>(()),
        thrown(old(host)@, final(host)@, kind, msg@),
{
    let env = host.env();
    let ghost before = host@;
    let e = JsError::with_kind(env, host, kind, msg)?;
    let ghost mid = host@;
    if host.exception().is_none() {
        let slot = host.target_of(e.0)?;
        host.set_exception(Some(slot));
    }
    assert(error_created(before, mid, e.0, kind, msg@));
    Ok(())
}

/// Throws an error of kind `kind` with message `msg`, keeping an exception that is already
/// pending. `StringExpected` for a message holding a NUL byte, leaving the host unchanged.
fn throw_text(host: &mut NapiHost, kind: ErrorKind, msg: &str) -> (r: NapiResult<()>)
    requires
        old(host)@.wf(),
    ensures
        final(host)@.wf(),
        old(host)@.succeeds(final(host)@),
        has_nul(msg@) ==> r == Err::<(), NapiStatus>(NapiStatus::StringExpected) && final(host)@
            == old(host)@,
        !has_nul(msg@) ==> r == Ok::<(), NapiStatus>(()) && thrown(old(host)@, final(host)@, kind, msg@),
{
    if contains_nul(msg) {
        return Err(NapiStatus::StringExpected);
    }
    throw_kind(host, kind, msg)
}

impl NapiEnv {
    /// Makes the value behind `value` the pending exception. `PendingException` when one is
    /// pending already (which is kept), `InvalidArg` for a dead handle.
    pub fn throw(&self, host: &mut NapiHost, value: JsValue) -> (r: NapiResult<()>)
        requires
            old(host)@.wf(),
        ensures
            final(host)@.wf(),
            old(host)@.succeeds(final(host)@),
            !old(host)@.valid(value) ==> r == Err::<(), NapiStatus>(NapiStatus::InvalidArg)
                && final(host)@ == old(host)@,
            old(host)@.valid(value) && old(host)@.exception is Some ==> r == Err::<(), NapiStatus>(
                NapiStatus::PendingException,
            ) && final(host)@ == old(host)@,
            old(host)@.valid(value) && old(host)@.exception is None ==> r == Ok::<(), NapiStatus>(
                (),
            ) && final(host)@ == (HostView {
                exception: Some(old(host)@.target(value.raw)),
                ..old(host)@
            }),
    {
        let slot = host.target_of(value)?;
        if host.exception().is_some() {
            return Err(NapiStatus::PendingException);
        }
        host.set_exception(Some(slot));
        Ok(())
    }

    /// Throws an `Error` with message `msg`, keeping an exception already pending.
    /// `StringExpected` for a message holding a NUL byte.
    pub fn throw_error(&self, host: &mut NapiHost, msg: &str) -> (r: NapiResult<()>)
        requires
            old(host)@.wf(),
        ensures
            final(host)@.wf(),
            old(host)@.succeeds(final(host)@),
            has_nul(msg@) ==> r == Err::<(), NapiStatus>(NapiStatus::StringExpected) && final(host)@
                == old(host)@,
            !has_nul(msg@) ==> r == Ok::<(), NapiStatus>(()) && thrown(
                old(host)@,
                final(host)@,
                ErrorKind::Error,
                msg@,
            ),
    {
        throw_text(host, ErrorKind::Error, msg)
    }

    /// Throws a `TypeError` with message `msg`, keeping an exception already pending.
    /// `StringExpected` for a message holding a NUL byte.
    pub fn throw_type_error(&self, host: &mut NapiHost, msg: &str) -> (r: NapiResult<()>)
        requires
            old(host)@.wf(),
        ensures
            final(host)@.wf(),
            old(host)@.succeeds(final(host)@),
            has_nul(msg@) ==> r == Err::<(), NapiStatus>(NapiStatus::StringExpected) && final(host)@
                == old(host)@,
            !has_nul(msg@) ==> r == Ok::<(), NapiStatus>(()) && thrown(
                old(host)@,
                final(host)@,
                ErrorKind::TypeError,
                msg@,
            ),
    {
        throw_text(host, ErrorKind::TypeError, msg)
    }

    /// Throws a `TypeError` with message `msg`; the code `code` must be a C string too.
    /// `StringExpected` when either holds a NUL byte.
    pub fn throw_type_error_code(&self, host: &mut NapiHost, msg: &str, code: &str) -> (r:
        NapiResult<()>)
        requires
            old(host)@.wf(),
        ensures
            final(host)@.wf(),
            old(host)@.succeeds(final(host)@),
            has_nul(msg@) || has_nul(code@) ==> r == Err::<(), NapiStatus>(NapiStatus::StringExpected)
                && final(host)@ == old(host)@,
            !has_nul(msg@) && !has_nul(code@) ==> r == Ok::<(), NapiStatus>(()) && thrown(
                old(host)@,
                final(host)@,
                ErrorKind::TypeError,
                msg@,
            ),
    {
        if contains_nul(code) {
            return Err(NapiStatus::StringExpected);
        }
        throw_text(host, ErrorKind::TypeError, msg)
    }

    /// Throws a `RangeError` with message `msg`, keeping an exception already pending.
    /// `StringExpected` for a message holding a NUL byte.
    pub fn throw_range_error(&self, host: &mut NapiHost, msg: &str) -> (r: NapiResult<()>)
        requires
            old(host)@.wf(),
        ensures
            final(host)@.wf(),
            old(host)@.succeeds(final(host)@),
            has_nul(msg@) ==> r == Err::<(), NapiStatus>(NapiStatus::StringExpected) && final(host)@
                == old(host)@,
            !has_nul(msg@) ==> r == Ok::<(), NapiStatus>(()) && thrown(
                old(host)@,
                final(host)@,
                ErrorKind::RangeError,
                msg@,
            ),
    {
        throw_text(host, ErrorKind::RangeError, msg)
    }

    /// Whether an exception is pending.
    pub fn is_exception_pending(&self, host: &NapiHost) -> (r: NapiResult<bool>)
        ensures
            r == Ok::<bool, NapiStatus>(host@.exception is Some),
    {
        Ok(host.exception().is_some())
    }

    /// Takes the pending exception, handing back a new handle to it; `None` when none is
    /// pending.
    pub fn get_and_clear_last_exception(&self, host: &mut NapiHost) -> (r: NapiResult<Option<JsError>>)
        requires
            old(host)@.wf(),
        ensures
            final(host)@.wf(),
            old(host)@.succeeds(final(host)@),
            old(host)@.exception is None ==> r == Ok::<Option<JsError>, NapiStatus>(None)
                && final(host)@ == old(host)@,
            old(host)@.exception matches Some(x) ==> r matches Ok(Some(e)) && crate::host::handle_made(
                (HostView { exception: None, ..old(host)@ }),
                final(host)@,
                e.0,
                x,
            ),
    {
        match host.exception() {
            None => Ok(None),
            Some(x) => {
                host.set_exception(None);
                if host.entity(x).collected {
                    return Err(NapiStatus::GenericFailure);
                }
                Ok(Some(JsError(host.new_handle(x))))
            },
        }
    }

    /// A new `Error` whose message is `msg`.
    pub fn error(&self, host: &mut NapiHost, msg: &str) -> (r: NapiResult<JsError>)
        requires
            old(host)@.wf(),
        ensures
            final(host)@.wf(),
            old(host)@.succeeds(final(host)@),
            r matches Ok(e) && error_created(old(host)@, final(host)@, e.0, ErrorKind::Error, msg@),
    {
        JsError::with_kind(*self, host, ErrorKind::Error, msg)
    }
    /// Reports `err` to the host as an uncaught exception: it becomes the pending
    /// exception, whatever was pending before. `InvalidArg` for a dead handle.
    pub fn fatal_exception(&self, host: &mut NapiHost, err: JsError) -> (r: NapiResult<()>)
        requires
            old(host)@.wf(),
        ensures
            final(host)@.wf(),
            old(host)@.succeeds(final(host)@),
            !old(host)@.valid(err.0) ==> r == Err::<(), NapiStatus>(NapiStatus::InvalidArg)
                && final(host)@ == old(host)@,
            old(host)@.valid(err.0) ==> r == Ok::<(), NapiStatus>(()) && final(host)@ == (HostView {
                exception: Some(old(host)@.target(err.0.raw)),
                ..old(host)@
            }),
    {
        let slot = host.target_of(err.0)?;
        host.set_exception(Some(slot));
        Ok(())
    }
    /// Throws an `Error` with message `msg`; the code `code` must be a C string too.
    /// `StringExpected` when either holds a NUL byte.
    pub fn throw_error_code(&self, host: &mut NapiHost, msg: &str, code: &str) -> (r: NapiResult<()>)
        requires
            old(host)@.wf(),
        ensures
            final(host)@.wf(),
            old(host)@.succeeds(final(host)@),
            has_nul(msg@) || has_nul(code@) ==> r == Err::<(), NapiStatus>(NapiStatus::StringExpected)
                && final(host)@ == old(host)@,
            !has_nul(msg@) && !has_nul(code@) ==> r == Ok::<(), NapiStatus>(()) && thrown(
                old(host)@,
                final(host)@,
                ErrorKind::Error,
                msg@,
            ),
    {
        if contains_nul(code) {
            return Err(NapiStatus::StringExpected);
        }
        throw_text(host, ErrorKind::Error, msg)
    }

    /// Throws a `RangeError` with message `msg`; the code `code` must be a C string too.
    /// `StringExpected` when either holds a NUL byte.
    pub fn throw_range_error_code(&self, host: &mut NapiHost, msg: &str, code: &str) -> (r: NapiResult<()>)
        requires
            old(host)@.wf(),
        ensures
            final(host)@.wf(),
            old(host)@.succeeds(final(host)@),
            has_nul(msg@) || has_nul(code@) ==> r == Err::<(), NapiStatus>(NapiStatus::StringExpected)
                && final(host)@ == old(host)@,
            !has_nul(msg@) && !has_nul(code@) ==> r == Ok::<(), NapiStatus>(()) && thrown(
                old(host)@,
                final(host)@,
                ErrorKind::RangeError,
                msg@,
            ),
    {
        if contains_nul(code) {
            return Err(NapiStatus::StringExpected);
        }
        throw_text(host, ErrorKind::RangeError, msg)
    }
}

} // verus!
