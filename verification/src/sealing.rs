//! Restricts who may implement the public creation capability.

use vstd::prelude::*;

verus! {

/// Marker supertrait of the public capability trait. It is implemented
/// only here, for the crate's own handle type, so no outside type can
/// claim the creation capability without performing the real creation
/// protocol.
pub trait Unbounded {}

impl Unbounded for crate::SocketHandle {}

} // verus!
