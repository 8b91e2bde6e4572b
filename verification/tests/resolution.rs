use footnote::foundations::{Content, Label, Location};
use footnote::model::{FootnoteElem, Packed};
use footnote::resolve::{Introspector, LabeledNote, ResolutionError};

#[test]
fn content_note_resolves_to_own_location() {
    let elem = FootnoteElem::with_content(Content { id: 5 });
    let note = Packed::placed(elem, Location { id: 7 });
    let index = Introspector { entries: Vec::new() };
    assert_eq!(note.declaration_location(&index), Ok(Location { id: 7 }));
}

#[test]
fn unplaced_content_note_reports_not_yet_placed() {
    let elem = FootnoteElem::with_content(Content { id: 5 });
    let note = Packed::unplaced(elem);
    let index = Introspector { entries: Vec::new() };
    assert_eq!(
        note.declaration_location(&index),
        Err(ResolutionError::NotYetPlaced)
    );
}

#[test]
fn single_reference_resolves_to_target_location() {
    let target = Packed::placed(
        FootnoteElem::with_content(Content { id: 1 }),
        Location { id: 10 },
    );
    let index = Introspector {
        entries: vec![LabeledNote {
            label: Label { id: 1 },
            note: target,
        }],
    };
    let marker = Packed::placed(
        FootnoteElem::with_label(Label { id: 1 }),
        Location { id: 11 },
    );
    assert_eq!(marker.declaration_location(&index), Ok(Location { id: 10 }));
}

#[test]
fn reference_chain_resolves_to_final_location() {
    // first -> middle -> last, where only last carries content.
    let last = Packed::placed(
        FootnoteElem::with_content(Content { id: 1 }),
        Location { id: 30 },
    );
    let middle = Packed::placed(
        FootnoteElem::with_label(Label { id: 3 }),
        Location { id: 20 },
    );
    let first = Packed::placed(
        FootnoteElem::with_label(Label { id: 2 }),
        Location { id: 10 },
    );
    let index = Introspector {
        entries: vec![
            LabeledNote {
                label: Label { id: 2 },
                note: middle,
            },
            LabeledNote {
                label: Label { id: 3 },
                note: last,
            },
        ],
    };
    assert_eq!(first.declaration_location(&index), Ok(Location { id: 30 }));
    assert_eq!(middle.declaration_location(&index), Ok(Location { id: 30 }));
}

#[test]
fn missing_label_reports_unresolved_reference() {
    let marker = Packed::placed(
        FootnoteElem::with_label(Label { id: 9 }),
        Location { id: 1 },
    );
    let index = Introspector { entries: Vec::new() };
    assert_eq!(
        marker.declaration_location(&index),
        Err(ResolutionError::UnresolvedReference)
    );
}

#[test]
fn duplicate_label_reports_unresolved_reference() {
    let a = Packed::placed(
        FootnoteElem::with_content(Content { id: 1 }),
        Location { id: 10 },
    );
    let b = Packed::placed(
        FootnoteElem::with_content(Content { id: 2 }),
        Location { id: 20 },
    );
    let index = Introspector {
        entries: vec![
            LabeledNote {
                label: Label { id: 1 },
                note: a,
            },
            LabeledNote {
                label: Label { id: 1 },
                note: b,
            },
        ],
    };
    let marker = Packed::placed(
        FootnoteElem::with_label(Label { id: 1 }),
        Location { id: 30 },
    );
    assert_eq!(
        marker.declaration_location(&index),
        Err(ResolutionError::UnresolvedReference)
    );
}

#[test]
fn direct_self_reference_reports_self_reference() {
    let marker = Packed::placed(
        FootnoteElem::with_label(Label { id: 1 }),
        Location { id: 10 },
    );
    let index = Introspector {
        entries: vec![LabeledNote {
            label: Label { id: 1 },
            note: marker,
        }],
    };
    assert_eq!(
        marker.declaration_location(&index),
        Err(ResolutionError::SelfReference)
    );
}

#[test]
fn mutual_cycle_reports_cyclic_reference() {
    // a references b's label and b references a's label; neither carries
    // content, so resolution can never reach a real footnote. The hop
    // budget guard reports the cycle instead of recursing forever.
    let a = Packed::placed(
        FootnoteElem::with_label(Label { id: 2 }),
        Location { id: 10 },
    );
    let b = Packed::placed(
        FootnoteElem::with_label(Label { id: 1 }),
        Location { id: 20 },
    );
    let index = Introspector {
        entries: vec![
            LabeledNote {
                label: Label { id: 1 },
                note: a,
            },
            LabeledNote {
                label: Label { id: 2 },
                note: b,
            },
        ],
    };
    assert_eq!(
        a.declaration_location(&index),
        Err(ResolutionError::CyclicReference)
    );
    assert_eq!(
        b.declaration_location(&index),
        Err(ResolutionError::CyclicReference)
    );
}

#[test]
fn two_references_to_one_note_resolve_alike() {
    let target = Packed::placed(
        FootnoteElem::with_content(Content { id: 1 }),
        Location { id: 42 },
    );
    let index = Introspector {
        entries: vec![LabeledNote {
            label: Label { id: 7 },
            note: target,
        }],
    };
    let first = Packed::placed(
        FootnoteElem::with_label(Label { id: 7 }),
        Location { id: 1 },
    );
    let second = Packed::placed(
        FootnoteElem::with_label(Label { id: 7 }),
        Location { id: 2 },
    );
    let at_first = first.declaration_location(&index);
    let at_second = second.declaration_location(&index);
    assert_eq!(at_first, Ok(Location { id: 42 }));
    assert_eq!(at_first, at_second);
}

#[test]
fn query_label_returns_unique_match() {
    let target = Packed::placed(
        FootnoteElem::with_content(Content { id: 8 }),
        Location { id: 3 },
    );
    let index = Introspector {
        entries: vec![LabeledNote {
            label: Label { id: 4 },
            note: target,
        }],
    };
    assert_eq!(index.query_label(Label { id: 4 }), Ok(target));
    assert_eq!(
        index.query_label(Label { id: 5 }),
        Err(ResolutionError::UnresolvedReference)
    );
}
