//! A verified native layer over a host runtime's C-ABI embedding interface.
//!
//! The embedding interface is held as plain state (`NapiHost`): the values it owns, the
//! table of handles native code holds to them, the stack of open handle scopes, persistent
//! references, background work items, threadsafe functions and deferred promises. Every
//! rule of the ownership model (scoped handle lifetimes, escape once, finalizers that fire
//! once, work queued once, closing threadsafe functions) is stated on that state and proved.
use vstd::prelude::*;

pub mod api;
pub mod status;
pub mod kinds;
pub mod host;
pub mod scope;
pub mod value;
pub mod primitive;
pub mod work;
pub mod tsfn;
pub mod reference;
pub mod exception;
pub mod callback;
pub mod promise;
pub mod env;
pub mod object;
pub mod buffer;
pub mod traits;
pub mod descriptor;
pub mod lifecycle;
pub mod class;
pub mod context;
pub mod laws;

verus! {

/// The embedding-interface version this layer is written against.
pub const NAPI_VERSION: u32 = 8;

/// The embedding-interface version selected for this build: the version every feature used
/// by the library needs at least.
pub fn napi_version_guard() -> (r: u32)
    ensures
        r == NAPI_VERSION,
{
    NAPI_VERSION
}

} // verus!
