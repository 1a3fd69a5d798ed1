//! The identifiers that the platform's metadata schema and component model
//! define, as the platform publishes them.
use vstd::prelude::*;

use crate::guids::{Guid, PropertyKey};

verus! {

/// Property set of the image properties (width, height and others).
pub const IMAGE_PROPERTY_SET: u128 = 0x6444048f_4c8b_11d1_8b70_080036b11a03;

/// Number of the horizontal size within the image property set.
pub const HORIZONTAL_SIZE_PID: u32 = 3;

/// Number of the vertical size within the image property set.
pub const VERTICAL_SIZE_PID: u32 = 4;

/// Interface that every component supports.
pub const IID_IUNKNOWN: u128 = 0x00000000_0000_0000_c000_000000000046;

/// Interface of a class factory.
pub const IID_ICLASS_FACTORY: u128 = 0x00000001_0000_0000_c000_000000000046;

/// Interface that binds a component to a stream.
pub const IID_IINITIALIZE_WITH_STREAM: u128 = 0xb824b49d_22ac_4161_ac8a_9916e8fa3f7f;

/// Interface that reads and writes properties.
pub const IID_IPROPERTY_STORE: u128 = 0x886d8eeb_8cf2_4446_8d02_cdba1dbdcf99;

pub open spec fn horizontal_size_spec() -> PropertyKey {
    PropertyKey { fmtid: Guid { value: IMAGE_PROPERTY_SET }, pid: HORIZONTAL_SIZE_PID }
}

pub open spec fn vertical_size_spec() -> PropertyKey {
    PropertyKey { fmtid: Guid { value: IMAGE_PROPERTY_SET }, pid: VERTICAL_SIZE_PID }
}

/// The key of an image's width in pixels.
pub fn horizontal_size_key() -> (r: PropertyKey)
    ensures
        r == horizontal_size_spec(),
{
    PropertyKey { fmtid: Guid { value: IMAGE_PROPERTY_SET }, pid: HORIZONTAL_SIZE_PID }
}

/// The key of an image's height in pixels.
pub fn vertical_size_key() -> (r: PropertyKey)
    ensures
        r == vertical_size_spec(),
{
    PropertyKey { fmtid: Guid { value: IMAGE_PROPERTY_SET }, pid: VERTICAL_SIZE_PID }
}

} // verus!

verus! {

/// An interface that an object of this module can be narrowed to.
#[derive(Clone, Copy, Debug, PartialEq, Eq, Structural)]
pub enum Interface {
    Unknown,
    ClassFactory,
    InitializeWithStream,
    PropertyStore,
}

/// The interface that an interface identifier names, if it is one of ours.
pub open spec fn interface_spec(iid: Guid) -> Option<Interface> {
    if iid.value == IID_IUNKNOWN {
        Some(Interface::Unknown)
    } else if iid.value == IID_ICLASS_FACTORY {
        Some(Interface::ClassFactory)
    } else if iid.value == IID_IINITIALIZE_WITH_STREAM {
        Some(Interface::InitializeWithStream)
    } else if iid.value == IID_IPROPERTY_STORE {
        Some(Interface::PropertyStore)
    } else {
        None
    }
}

pub fn interface_of(iid: &Guid) -> (r: Option<Interface>)
    ensures
        r == interface_spec(*iid),
{
    if iid.value == IID_IUNKNOWN {
        Some(Interface::Unknown)
    } else if iid.value == IID_ICLASS_FACTORY {
        Some(Interface::ClassFactory)
    } else if iid.value == IID_IINITIALIZE_WITH_STREAM {
        Some(Interface::InitializeWithStream)
    } else if iid.value == IID_IPROPERTY_STORE {
        Some(Interface::PropertyStore)
    } else {
        None
    }
}

} // verus!
