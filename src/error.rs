//! The library's error taxonomy.

use vstd::prelude::*;

verus! {

/// Why a send attempt failed.
#[derive(Debug, Clone, PartialEq, Eq)]
pub enum SendgridError {
    /// The custom headers could not be rendered as JSON text.
    Encoding,
    /// The HTTP exchange failed; the text describes how.
    Transport(String),
}

} // verus!
