//! Capabilities that a widget advertises to the rest of the toolkit.

use vstd::prelude::*;

verus! {

/// A widget that can show an image beside or instead of its text.
pub trait ImageContainer {}

/// A widget whose value the user can change, so that a callback can be
/// registered to run on each change.
pub trait OnValueChange {}

} // verus!
