//! The supported peripheral model and its stable identifier.

use vstd::prelude::*;

verus! {

/// Driver handle for the Shape 200 scale model. It holds the stable
/// identifier of the peripheral within the transport's address space and is
/// immutable after construction.
pub struct Shape200 {
    device_id: String,
}

impl Shape200 {
    /// The identifier this handle refers to.
    pub closed spec fn id(&self) -> Seq<char> {
        self.device_id@
    }

    /// Builds a handle for the peripheral with the given identifier.
    pub fn new(device_id: String) -> (s: Shape200)
        ensures
            s.id() == device_id@,
    {
        Shape200 { device_id }
    }

    /// The identifier this handle was built with.
    pub fn device_id(&self) -> (id: &String)
        ensures
            id@ == self.id(),
    {
        &self.device_id
    }
}

} // verus!
