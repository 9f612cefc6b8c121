//! Text widgets (labels and text boxes) of a native GUI toolkit, modelled by
//! the attribute state that the toolkit keeps for each of them.

pub mod attrs;
pub mod capability;
pub mod native_str;
pub mod text;
