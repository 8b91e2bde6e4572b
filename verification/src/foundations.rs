//! Plain value types shared by the footnote model.
//!
//! Content values, labels, and placed locations are opaque to this crate:
//! the model stores them, hands them back, and compares them for identity,
//! but never looks inside them. Each is therefore represented by a plain
//! handle. Layout lengths are kept in thousandths of an em, which makes
//! them exact integers and non-negative by construction.

use vstd::prelude::*;

verus! {

/// An opaque authored content value, such as a footnote's literal payload
/// or a separator rule. The footnote model never inspects a content value;
/// it only stores it and compares it for identity, so a plain handle
/// represents it.
#[derive(Clone, Copy, PartialEq, Eq, Structural, Debug, Hash)]
pub struct Content {
    /// Identifies this content value among all content values of one
    /// document.
    pub id: u64,
}

/// A user-assigned symbolic name that lets several footnote markers denote
/// one footnote.
#[derive(Clone, Copy, PartialEq, Eq, Structural, Debug, Hash)]
pub struct Label {
    /// Identifies this label among all labels of one document.
    pub id: u64,
}

/// The opaque identity a node acquires once the layout pass places it in
/// the final document. It is the key for counter lookups and for reference
/// resolution.
#[derive(Clone, Copy, PartialEq, Eq, Structural, Debug, Hash)]
pub struct Location {
    /// Identifies this placement among all placements of one document.
    pub id: u64,
}

/// A non-negative layout length, measured in thousandths of an em.
#[derive(Clone, Copy, PartialEq, Eq, Structural, Debug, Hash)]
pub struct Length {
    /// The length in thousandths of an em; one line height is 1000.
    pub milli_em: u64,
}

/// A font size relative to the ambient size, measured in thousandths of
/// an em.
#[derive(Clone, Copy, PartialEq, Eq, Structural, Debug, Hash)]
pub struct TextSize {
    /// The size in thousandths of an em; the ambient size is 1000.
    pub milli_em: u64,
}

} // verus!
