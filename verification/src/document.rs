//! What a type must offer to be stored as a document.

use vstd::prelude::*;

verus! {

/// Documents have no fixed structure: any type that can name its primary
/// key will do.
///
/// The key must display itself using alphanumeric characters, `/` and `-`
/// only, or the service rejects the document.
pub trait Document {
    /// The type of the primary key.
    type UIDType;

    /// The primary key of the document.
    fn get_uid(&self) -> &Self::UIDType;
}

} // verus!
