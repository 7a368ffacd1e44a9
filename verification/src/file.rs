//! Values that are kept as text.

use vstd::prelude::*;

verus! {

/// A value that can be written as a text and read from one.
pub trait Serializable: Sized {
    /// The text of the value.
    fn save(&self) -> String;

    /// The value that a text holds, if it holds one.
    fn load(file_string: &str) -> Option<Self>;
}

} // verus!
