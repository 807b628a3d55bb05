use vstd::prelude::*;

verus! {

/// A single blog entry, loaded once from the backing store at startup and
/// never mutated afterwards.
#[derive(Debug, Clone, PartialEq, Eq)]
pub struct BlogPost {
    /// Unique identifier assigned by the store.
    pub id: i64,
    /// Publication timestamp, integer epoch seconds.
    pub date_published: i64,
    /// Last-edit timestamp, integer epoch seconds.
    pub date_last_edited: i64,
    /// The sole lookup key; compared by exact codepoint equality.
    pub title: String,
    /// Opaque HTML/text body.
    pub content: String,
}

} // verus!
