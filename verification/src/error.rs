//! The two ways a conversion can be refused.

use vstd::prelude::*;

verus! {

/// Why a conversion failed: either a word handed to the decoder is not in
/// the dictionary (the offending word is carried along), or boundary text
/// does not have the required shape.
#[derive(Debug, Clone, PartialEq, Eq)]
pub enum Ip3Error {
    /// A supplied word is absent from the dictionary.
    WordNotFound(String),
    /// Textual input is not a dotted quad or a three-word triple.
    MalformedInput,
}

} // verus!
