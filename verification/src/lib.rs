//! Footnote identity, cross-reference, and counting model for a document
//! compiler.
//!
//! A footnote is both an inline marker and a deferred listing entry at the
//! bottom of the page; the two must agree on their ordinal number. A marker
//! either carries the note's literal content or a symbolic reference to
//! another footnote's label, so several markers can denote one note. This
//! crate defines the data model, the resolution algorithm that follows
//! references to the declaring note's placed location, and the counting
//! contract that steps the footnote counter once per content-bearing note
//! and never for a reference.

pub mod counting;
pub mod entry;
pub mod foundations;
pub mod model;
pub mod resolve;
