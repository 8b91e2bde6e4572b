use footnote::counting::{counter_after, CounterUpdate};
use footnote::entry::{FootnoteEntry, Styles, DEFAULT_SEPARATOR_CONTENT_ID};
use footnote::foundations::{Content, Label, Length, Location, TextSize};
use footnote::model::{FootnoteBody, FootnoteElem, Numbering, Packed};

#[test]
fn content_coercion_round_trips() {
    let content = Content { id: 9 };
    let elem = FootnoteElem::with_content(content);
    assert!(!elem.is_ref());
    assert_eq!(elem.body_content(), Some(content));
    assert_eq!(elem.body, FootnoteBody::Content(content));
    assert_eq!(elem.numbering, Numbering { symbol: '1' });
}

#[test]
fn label_coercion_makes_a_reference() {
    let label = Label { id: 3 };
    let elem = FootnoteElem::with_label(label);
    assert!(elem.is_ref());
    assert_eq!(elem.body_content(), None);
    assert_eq!(elem.body, FootnoteBody::Reference(label));
    assert_eq!(elem.numbering, Numbering { symbol: '1' });
}

#[test]
fn retarget_preserves_numbering_of_content_note() {
    let elem = FootnoteElem {
        numbering: Numbering { symbol: '*' },
        body: FootnoteBody::Content(Content { id: 1 }),
    };
    let retargeted = elem.into_ref(Label { id: 5 });
    assert_eq!(retargeted.numbering, Numbering { symbol: '*' });
    assert_eq!(retargeted.body, FootnoteBody::Reference(Label { id: 5 }));
}

#[test]
fn retarget_preserves_numbering_of_reference_note() {
    let elem = FootnoteElem {
        numbering: Numbering { symbol: 'a' },
        body: FootnoteBody::Reference(Label { id: 1 }),
    };
    let retargeted = elem.into_ref(Label { id: 2 });
    assert_eq!(retargeted.numbering, Numbering { symbol: 'a' });
    assert_eq!(retargeted.body, FootnoteBody::Reference(Label { id: 2 }));
}

#[test]
fn content_note_steps_the_counter_once() {
    let note = Packed::placed(
        FootnoteElem::with_content(Content { id: 1 }),
        Location { id: 1 },
    );
    assert_eq!(note.update(), Some(CounterUpdate::Step(1)));
}

#[test]
fn reference_note_contributes_no_step() {
    let note = Packed::placed(
        FootnoteElem::with_label(Label { id: 1 }),
        Location { id: 2 },
    );
    assert_eq!(note.update(), None);
}

#[test]
fn counter_counts_content_notes_only() {
    // Six nodes, three content-bearing, with the references scattered
    // before and after their targets: the counter still reads three.
    let content = |id: u64, loc: u64| {
        Packed::placed(
            FootnoteElem::with_content(Content { id }),
            Location { id: loc },
        )
    };
    let reference = |id: u64, loc: u64| {
        Packed::placed(
            FootnoteElem::with_label(Label { id }),
            Location { id: loc },
        )
    };
    let notes = vec![
        reference(1, 1),
        content(1, 2),
        content(2, 3),
        reference(2, 4),
        reference(1, 5),
        content(3, 6),
    ];
    assert_eq!(counter_after(&notes), 3);
}

#[test]
fn counter_of_no_notes_is_zero() {
    assert_eq!(counter_after(&Vec::new()), 0);
}

#[test]
fn entry_defaults_match_the_contract() {
    let note = Packed::placed(
        FootnoteElem::with_content(Content { id: 1 }),
        Location { id: 1 },
    );
    let entry = FootnoteEntry::new(note);
    assert_eq!(entry.note, note);
    assert_eq!(
        entry.separator,
        Content {
            id: DEFAULT_SEPARATOR_CONTENT_ID
        }
    );
    assert_eq!(entry.clearance, Length { milli_em: 1000 });
    assert_eq!(entry.gap, Length { milli_em: 500 });
    assert_eq!(entry.indent, Length { milli_em: 1000 });
}

#[test]
fn entry_show_set_tightens_leading_and_scales_text() {
    let note = Packed::placed(
        FootnoteElem::with_content(Content { id: 1 }),
        Location { id: 1 },
    );
    let entry = FootnoteEntry::new(note);
    assert_eq!(
        entry.show_set(),
        Styles {
            par_leading: Length { milli_em: 500 },
            text_size: TextSize { milli_em: 850 },
        }
    );
}
