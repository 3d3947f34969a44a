//! Rendering contexts, as the context bootstrap supplies them.
//!
//! Context creation and extension discovery are collaborators of this
//! library: a context arrives here already built, and the library reads only
//! its identifier and its configured attributes.

use vstd::prelude::*;

verus! {

/// The identifier of a rendering context.  Every surface records the context
/// that created it, and mutation through any other context is an error.
#[derive(Clone, Copy, PartialEq, Eq, Structural, Debug)]
pub struct ContextID(pub u64);

/// The attributes a context was configured with, as far as surface creation
/// reads them: whether depth and stencil attachments are requested.
#[derive(Clone, Copy, PartialEq, Eq, Structural, Debug)]
pub struct ContextAttributes {
    pub depth: bool,
    pub stencil: bool,
}

/// A rendering context.  The bootstrap that creates contexts is a
/// collaborator of this library; the surface operations only read the fields
/// below.
#[derive(Clone, Copy, PartialEq, Eq, Structural, Debug)]
pub struct Context {
    pub id: ContextID,
    pub attributes: ContextAttributes,
}

} // verus!
