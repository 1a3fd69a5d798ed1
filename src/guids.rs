//! Globally unique identifiers and property keys, held as plain integers.
use vstd::prelude::*;

verus! {

/// A 128-bit globally unique identifier, in the integer order of its text
/// form: `{4DB4F1DE-8B5D-4E8A-9B83-B5164A4F0206}` is `0x4db4f1de_8b5d_4e8a_9b83_b5164a4f0206`.
#[derive(Clone, Copy, Debug, PartialEq, Eq, Structural)]
pub struct Guid {
    pub value: u128,
}

/// The identifier of a property of an image: the property set's identifier
/// and the property's number within that set.
#[derive(Clone, Copy, Debug, PartialEq, Eq, Structural)]
pub struct PropertyKey {
    pub fmtid: Guid,
    pub pid: u32,
}

/// Class identifier of the image decoder.
pub const NETPBM_DECODER_ID: u128 = 0x4db4f1de_8b5d_4e8a_9b83_b5164a4f0206;

/// Identifier of the container format that the decoder reads.
pub const CONTAINER_FORMAT_NETPBM_ID: u128 = 0x70ab66f5_cd48_43a1_aa29_10131b7f4ff1;

/// Identifier of the vendor of the decoder.
pub const VENDOR_VICTOR_ID: u128 = 0x8adbe21c_a720_424e_b238_45ad1052b98c;

/// Class identifier of the property store.
pub const PROPERTY_STORE_CLASS_ID: u128 = 0x72a984e2_345a_4227_aa13_b4f1278eb5ce;

impl Guid {
    pub fn from_u128(value: u128) -> (r: Guid)
        ensures
            r.value == value,
    {
        Guid { value }
    }

    pub fn to_u128(&self) -> (r: u128)
        ensures
            r == self.value,
    {
        self.value
    }

    /// The all-zero identifier, which names nothing.
    pub fn zero() -> (r: Guid)
        ensures
            r.value == 0,
    {
        Guid { value: 0 }
    }
}

impl PropertyKey {
    /// The key of a slot that holds no property: a zero set identifier and number.
    pub open spec fn null_spec() -> PropertyKey {
        PropertyKey { fmtid: Guid { value: 0 }, pid: 0 }
    }

    pub fn null() -> (r: PropertyKey)
        ensures
            r == PropertyKey::null_spec(),
    {
        PropertyKey { fmtid: Guid::zero(), pid: 0 }
    }
}

} // verus!
