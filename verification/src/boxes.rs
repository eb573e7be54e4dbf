//! Two boxes illustrating struct field visibility: an open box whose
//! contents anyone may read, and a closed box whose contents are private and
//! only reachable through its constructor.

use vstd::prelude::*;

verus! {

/// A box with a public field.
pub struct OpenBox<T> {
    pub contents: T,
}

/// A box with a private field: it can only be built through [`ClosedBox::new`].
pub struct ClosedBox<T> {
    contents: T,
}

impl<T> ClosedBox<T> {
    /// What the box holds.
    pub closed spec fn spec_contents(&self) -> T {
        self.contents
    }

    /// Packs `contents` into a closed box.
    pub fn new(contents: T) -> (boxed: ClosedBox<T>)
        ensures
            boxed.spec_contents() == contents,
    {
        ClosedBox { contents: contents }
    }
}

} // verus!
