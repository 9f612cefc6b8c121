//! Names of the toolkit attributes that the text widgets use.

use vstd::prelude::*;

verus! {

/// The text of a label.
pub const TITLE: &'static str = "TITLE";

/// The text of a text box.
pub const VALUE: &'static str = "VALUE";

/// Whether a text box accepts and renders newlines.
pub const MULTILINE: &'static str = "MULTILINE";

/// The width of a text box in columns.
pub const VISIBLE_COLUMNS: &'static str = "VISIBLECOLUMNS";

/// The height of a text box in lines.
pub const VISIBLE_LINES: &'static str = "VISIBLELINES";

} // verus!
