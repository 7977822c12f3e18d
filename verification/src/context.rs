//! Layout inputs that a parent hands down to a node before it renders.

use vstd::prelude::*;
use crate::size::{Size, SizeView};

verus! {

/// The container width available to a node's content. A context always
/// holds a width that layout arithmetic accepts.
#[derive(Debug)]
pub struct Context {
    container_width: Size,
}

impl View for Context {
    type V = SizeView;

    /// The container width.
    closed spec fn view(&self) -> SizeView {
        self.container_width@
    }
}

impl Context {
    #[verifier::type_invariant]
    spec fn width_in_range(self) -> bool {
        self.container_width@.in_range()
    }

    /// A context with the given container width.
    pub fn new(container_width: Size) -> (r: Context)
        requires
            container_width@.in_range(),
        ensures
            r@ == container_width@,
    {
        Context { container_width }
    }

    /// The container width.
    pub fn container_width(&self) -> (r: Size)
        ensures
            r@ == self@,
            r@.in_range(),
    {
        proof {
            use_type_invariant(self);
        }
        self.container_width.clone()
    }
}

impl Clone for Context {
    fn clone(&self) -> (r: Context)
        ensures
            r@ == self@,
    {
        proof {
            use_type_invariant(self);
        }
        Context { container_width: self.container_width.clone() }
    }
}

} // verus!
