//! The footnote element: its numbering configuration, its tagged-union
//! body, and the coercion boundary through which footnotes are authored.

use vstd::prelude::*;

use crate::foundations::{Content, Label, Location};

verus! {

/// A numbering pattern used to render the marker and the listing ordinal.
/// The footnote model only stores the pattern; a formatting service turns
/// an ordinal and a pattern into the displayed label.
#[derive(Clone, Copy, PartialEq, Eq, Structural, Debug)]
pub struct Numbering {
    /// The counting symbol of the pattern; `'1'` gives plain ascending
    /// arabic numbers.
    pub symbol: char,
}

/// The default numbering: plain ascending arabic numbers.
pub open spec fn spec_default_numbering() -> Numbering {
    Numbering { symbol: '1' }
}

/// The body of a footnote: either the note's literal content, or a label
/// referencing another footnote. Exactly one variant is active; a footnote
/// is never created without one of the two.
#[derive(Clone, Copy, PartialEq, Eq, Structural, Debug)]
pub enum FootnoteBody {
    /// The note's literal payload; this variant is the real footnote.
    Content(Content),
    /// A symbolic pointer to the real footnote's label. No payload of its
    /// own.
    Reference(Label),
}

/// The inline footnote marker element. It owns a numbering pattern and a
/// body; once the layout pass places it, it acquires a [`Location`] (see
/// [`Packed`]).
#[derive(Clone, Copy, PartialEq, Eq, Structural, Debug)]
pub struct FootnoteElem {
    /// How to number this footnote.
    pub numbering: Numbering,
    /// The content of the footnote, or the label of the footnote this one
    /// points to.
    pub body: FootnoteBody,
}

/// A footnote element built from the given body, with every configuration
/// field at its default.
pub open spec fn spec_new(body: FootnoteBody) -> FootnoteElem {
    FootnoteElem { numbering: spec_default_numbering(), body }
}

/// Whether the element's body is a reference to another footnote.
pub open spec fn spec_is_ref(elem: FootnoteElem) -> bool {
    match elem.body {
        FootnoteBody::Reference(_) => true,
        FootnoteBody::Content(_) => false,
    }
}

/// The element's literal content, if its body carries one.
pub open spec fn spec_body_content(elem: FootnoteElem) -> Option<Content> {
    match elem.body {
        FootnoteBody::Content(content) => Some(content),
        FootnoteBody::Reference(_) => None,
    }
}

impl FootnoteElem {
    /// Creates a new footnote with the given body and the default
    /// numbering.
    pub fn new(body: FootnoteBody) -> (r: Self)
        ensures
            r == spec_new(body),
    {
        FootnoteElem { numbering: Numbering { symbol: '1' }, body }
    }

    /// Creates a new footnote that has the passed content as its body.
    pub fn with_content(content: Content) -> (r: Self)
        ensures
            r == spec_new(FootnoteBody::Content(content)),
    {
        Self::new(FootnoteBody::Content(content))
    }

    /// Creates a new footnote referencing the footnote with the specified
    /// label.
    pub fn with_label(label: Label) -> (r: Self)
        ensures
            r == spec_new(FootnoteBody::Reference(label)),
    {
        Self::new(FootnoteBody::Reference(label))
    }

    /// Creates a new footnote referencing the footnote with the specified
    /// label, keeping every other field of the current footnote — notably
    /// its numbering. This is how a new marker is pointed at an existing
    /// note without restating its configuration.
    pub fn into_ref(&self, label: Label) -> (r: Self)
        ensures
            r == (FootnoteElem {
                numbering: self.numbering,
                body: FootnoteBody::Reference(label),
            }),
            r.numbering == self.numbering,
            r.body == FootnoteBody::Reference(label),
    {
        FootnoteElem { numbering: self.numbering, body: FootnoteBody::Reference(label) }
    }

    /// Tests if this footnote is a reference to another footnote.
    pub fn is_ref(&self) -> (r: bool)
        ensures
            r == spec_is_ref(*self),
    {
        match self.body {
            FootnoteBody::Reference(_) => true,
            FootnoteBody::Content(_) => false,
        }
    }

    /// Returns the content of the body of this footnote if it is not a
    /// reference.
    pub fn body_content(&self) -> (r: Option<Content>)
        ensures
            r == spec_body_content(*self),
    {
        match self.body {
            FootnoteBody::Content(content) => Some(content),
            FootnoteBody::Reference(_) => None,
        }
    }
}

/// A footnote element together with its placement. The layout pass assigns
/// a location once it places the element in the final document; until then
/// the location is `None`. Elements are immutable value-like data after
/// authoring, so packing never changes the element itself.
#[derive(Clone, Copy, PartialEq, Eq, Structural, Debug)]
pub struct Packed {
    /// The footnote element.
    pub elem: FootnoteElem,
    /// The location assigned by the layout pass, or `None` while the
    /// element has not been placed yet.
    pub location: Option<Location>,
}

impl Packed {
    /// Packs an element that the layout pass has not placed yet.
    pub fn unplaced(elem: FootnoteElem) -> (r: Self)
        ensures
            r == (Packed { elem, location: None }),
    {
        Packed { elem, location: None }
    }

    /// Packs an element placed at the given location.
    pub fn placed(elem: FootnoteElem, location: Location) -> (r: Self)
        ensures
            r == (Packed { elem, location: Some(location) }),
    {
        Packed { elem, location: Some(location) }
    }
}

/// The coercion boundary is lossless: building a footnote from a raw
/// content value and extracting the body's content returns that value
/// unchanged, and such a footnote is no reference; building one from a
/// label yields a reference with no literal content.
pub proof fn lemma_coercion_round_trip(content: Content, label: Label)
    ensures
        spec_body_content(spec_new(FootnoteBody::Content(content))) == Some(content),
        !spec_is_ref(spec_new(FootnoteBody::Content(content))),
        spec_body_content(spec_new(FootnoteBody::Reference(label))) == None::<Content>,
        spec_is_ref(spec_new(FootnoteBody::Reference(label))),
{
}

} // verus!
