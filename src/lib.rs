//! An in-process image-metadata component: a read-only property store that a
//! host binds to an image stream, the class factory that makes such stores,
//! and the dispatch from class identifiers to factories, with the count of
//! live instances that decides whether the module may be unloaded.
use vstd::prelude::*;

pub mod error;
pub mod guids;
pub mod platform_ids;
pub mod property_store;
pub mod server;

pub use error::ComError;
pub use guids::{Guid, PropertyKey};
pub use platform_ids::Interface;
pub use property_store::{PropValue, PropertyRecord, PropertyStore, PropertyTable};
pub use server::{ClassFactory, ClassKind, DllCanUnloadNow, Server};

verus! {

/// The sum of two integers; the caller keeps it within `u64`.
pub fn add(left: u64, right: u64) -> (r: u64)
    requires
        left + right <= u64::MAX,
    ensures
        r == left + right,
{
    left + right
}

} // verus!
