//! The failures that the component reports, one for each condition.
use vstd::prelude::*;

verus! {

#[derive(Clone, Copy, Debug, PartialEq, Eq, Structural)]
pub enum ComError {
    /// An index at or past the number of properties, or any index before the
    /// store was bound to a stream.
    InvalidArgument,
    /// An attempt to change the read-only property set.
    AccessDenied,
    /// The object does not offer the requested interface.
    NoSuchInterface,
    /// The class identifier names no class of this module, or a class whose
    /// objects cannot be made.
    ClassNotAvailable,
    /// A request to make an object inside another object's identity.
    NoAggregation,
}

} // verus!
