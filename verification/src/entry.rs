//! The deferred listing entry: the block that renders a footnote at the
//! bottom of the page, with its layout parameters and default styling.
//!
//! The layout pass synthesizes one entry per distinct real footnote — not
//! per reference — when it renders the listing, and reconstructs them from
//! the current document tree on every pass. Entry styling must be uniform
//! across one page run (a sequence of pages with no explicit page break),
//! so entry style rules should be set before any page content; the
//! surrounding layout engine enforces this, not the entry itself.

use vstd::prelude::*;

use crate::foundations::{Content, Length, TextSize};
use crate::model::Packed;

verus! {

/// The content value standing for the default separator between document
/// body and footnote listing: a thin rule spanning three tenths of the
/// line width, drawn with a stroke half a point thick.
pub const DEFAULT_SEPARATOR_CONTENT_ID: u64 = 0;

/// An entry in a footnote listing, with the note it renders and the
/// layout parameters of the listing block. The parameters are pure
/// configuration; each is a non-negative length.
#[derive(Clone, Copy, PartialEq, Eq, Structural, Debug)]
pub struct FootnoteEntry {
    /// The footnote for this entry. It may itself be reference-bodied, in
    /// which case rendering resolves it first; its location determines the
    /// footnote counter state read for the ordinal.
    pub note: Packed,
    /// The separator between the document body and the footnote listing.
    pub separator: Content,
    /// The clearance between the document body and the separator.
    pub clearance: Length,
    /// The gap between footnote entries.
    pub gap: Length,
    /// The indent of each footnote entry.
    pub indent: Length,
}

/// An entry for the given footnote with every layout parameter at its
/// default: the separator rule, one line height of clearance, half a line
/// height of gap, one line height of indent.
pub open spec fn spec_new_entry(note: Packed) -> FootnoteEntry {
    FootnoteEntry {
        note,
        separator: Content { id: DEFAULT_SEPARATOR_CONTENT_ID },
        clearance: Length { milli_em: 1000 },
        gap: Length { milli_em: 500 },
        indent: Length { milli_em: 1000 },
    }
}

/// Style overrides an element registers with the style-resolution chain,
/// applied only where no more specific rule exists.
#[derive(Clone, Copy, PartialEq, Eq, Structural, Debug)]
pub struct Styles {
    /// Paragraph leading inside the entry.
    pub par_leading: Length,
    /// Text size inside the entry, relative to the ambient size.
    pub text_size: TextSize,
}

/// The default styling of a rendered entry: paragraph leading tightened
/// to half the base line height, text size scaled to 850 thousandths of
/// the ambient size.
pub open spec fn spec_default_entry_styles() -> Styles {
    Styles { par_leading: Length { milli_em: 500 }, text_size: TextSize { milli_em: 850 } }
}

impl FootnoteEntry {
    /// Creates an entry rendering the given footnote, with every layout
    /// parameter at its default.
    pub fn new(note: Packed) -> (r: Self)
        ensures
            r == spec_new_entry(note),
    {
        FootnoteEntry {
            note,
            separator: Content { id: DEFAULT_SEPARATOR_CONTENT_ID },
            clearance: Length { milli_em: 1000 },
            gap: Length { milli_em: 500 },
            indent: Length { milli_em: 1000 },
        }
    }

    /// The style overrides applied to an entry rendered without a more
    /// specific rule; see [`spec_default_entry_styles`].
    pub fn show_set(&self) -> (r: Styles)
        ensures
            r == spec_default_entry_styles(),
    {
        Styles { par_leading: Length { milli_em: 500 }, text_size: TextSize { milli_em: 850 } }
    }
}

} // verus!
