//! The small enumerations of the embedding interface.
use vstd::prelude::*;

verus! {

/// The type tag the embedding interface reports for a value.
#[derive(Clone, Copy, Debug, PartialEq, Eq, Structural)]
pub enum NapiValuetype {
    Undefined,
    Null,
    Boolean,
    Number,
    String,
    Symbol,
    Object,
    Function,
    External,
    Bigint,
}

/// The element type of a typed array.
#[derive(Clone, Copy, Debug, PartialEq, Eq, Structural)]
pub enum NapiTypedarrayType {
    Int8Array,
    Uint8Array,
    Uint8ClampedArray,
    Int16Array,
    Uint16Array,
    Int32Array,
    Uint32Array,
    Float32Array,
    Float64Array,
    Bigint64Array,
    Biguint64Array,
}

/// The size in bytes of one element of a typed array of this type.
pub open spec fn element_size(t: NapiTypedarrayType) -> nat {
    match t {
        NapiTypedarrayType::Int8Array => 1,
        NapiTypedarrayType::Uint8Array => 1,
        NapiTypedarrayType::Uint8ClampedArray => 1,
        NapiTypedarrayType::Int16Array => 2,
        NapiTypedarrayType::Uint16Array => 2,
        NapiTypedarrayType::Int32Array => 4,
        NapiTypedarrayType::Uint32Array => 4,
        NapiTypedarrayType::Float32Array => 4,
        NapiTypedarrayType::Float64Array => 8,
        NapiTypedarrayType::Bigint64Array => 8,
        NapiTypedarrayType::Biguint64Array => 8,
    }
}

impl NapiTypedarrayType {
    /// The size in bytes of one element.
    pub fn element_size(&self) -> (r: usize)
        ensures
            r == element_size(*self),
    {
        match self {
            NapiTypedarrayType::Int8Array => 1,
            NapiTypedarrayType::Uint8Array => 1,
            NapiTypedarrayType::Uint8ClampedArray => 1,
            NapiTypedarrayType::Int16Array => 2,
            NapiTypedarrayType::Uint16Array => 2,
            NapiTypedarrayType::Int32Array => 4,
            NapiTypedarrayType::Uint32Array => 4,
            NapiTypedarrayType::Float32Array => 4,
            NapiTypedarrayType::Float64Array => 8,
            NapiTypedarrayType::Bigint64Array => 8,
            NapiTypedarrayType::Biguint64Array => 8,
        }
    }
}

/// Whether a key listing includes the prototype chain.
#[derive(Clone, Copy, Debug, PartialEq, Eq, Structural)]
pub enum NapiKeyCollectionMode {
    KeyIncludePrototypes,
    KeyOwnOnly,
}

/// Which keys a key listing keeps.
#[derive(Clone, Copy, Debug, PartialEq, Eq, Structural)]
pub enum NapiKeyFilter {
    KeyAllProperties,
    Writable,
    Enumerable,
    Configurable,
    SkipStrings,
    SkipSymbols,
}

/// Whether integer keys are listed as numbers or as strings.
#[derive(Clone, Copy, Debug, PartialEq, Eq, Structural)]
pub enum NapiKeyConversion {
    KeepNumbers,
    NumbersToStrings,
}

/// How a thread lets go of a threadsafe function: `Release` lets queued calls drain,
/// `Abort` closes it at once.
#[derive(Clone, Copy, Debug, PartialEq, Eq, Structural)]
pub enum NapiThreadsafeFunctionReleaseMode {
    Release,
    Abort,
}

/// Whether a call on a full threadsafe function queue waits or fails.
#[derive(Clone, Copy, Debug, PartialEq, Eq, Structural)]
pub enum NapiThreadsafeFunctionCallMode {
    Nonblocking,
    Blocking,
}

/// One attribute of a property.
#[derive(Clone, Copy, Debug, PartialEq, Eq, Structural)]
pub enum NapiPropertyAttributes {
    Default,
    Writable,
    Enumerable,
    Configurable,
    Static,
    DefaultMethod,
    DefaultJsproperty,
}

/// The bits the embedding interface uses for a property attribute.
pub open spec fn attribute_bits(a: NapiPropertyAttributes) -> u32 {
    match a {
        NapiPropertyAttributes::Default => 0,
        NapiPropertyAttributes::Writable => 1,
        NapiPropertyAttributes::Enumerable => 2,
        NapiPropertyAttributes::Configurable => 4,
        NapiPropertyAttributes::Static => 1024,
        NapiPropertyAttributes::DefaultMethod => 5,
        NapiPropertyAttributes::DefaultJsproperty => 7,
    }
}

impl NapiPropertyAttributes {
    /// The bits of this attribute.
    pub fn bits(&self) -> (r: u32)
        ensures
            r == attribute_bits(*self),
    {
        match self {
            NapiPropertyAttributes::Default => 0,
            NapiPropertyAttributes::Writable => 1,
            NapiPropertyAttributes::Enumerable => 2,
            NapiPropertyAttributes::Configurable => 4,
            NapiPropertyAttributes::Static => 1024,
            NapiPropertyAttributes::DefaultMethod => 5,
            NapiPropertyAttributes::DefaultJsproperty => 7,
        }
    }
}

} // verus!
