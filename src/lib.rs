//! Icon inference for web pages: find the icon links a page declares,
//! classify the downloaded candidates and pick the largest one.

pub mod error;
pub mod icon;
pub mod inferer;
pub mod links;
pub mod select;
pub mod size_text;
pub mod text;
pub mod urls;

use vstd::prelude::*;

verus! {

/// Prepares the process for display scaling before any window opens. Scaling
/// awareness is only a setting of Windows processes, which this library does not
/// change, so on every platform there is nothing to do here.
pub fn set_dpi_aware() {
}

} // verus!
