//! The counting contract: a generic counter engine asks each placed
//! footnote, in document order, for an update directive. A content-bearing
//! note steps the counter by one unit; a reference contributes nothing and
//! instead displays the ordinal read at the real note's location. This is
//! what gives every footnote a unique sequential ordinal while every
//! reference to it shows the same one.

use vstd::prelude::*;

use crate::model::{spec_is_ref, Packed};

verus! {

/// A directive handed to the counter-update engine for one placed node.
#[derive(Clone, Copy, PartialEq, Eq, Structural, Debug)]
pub enum CounterUpdate {
    /// Advance the counter by the given number of units.
    Step(usize),
}

/// The directive a placed footnote contributes: a one-unit step for a
/// content-bearing body, nothing for a reference.
pub open spec fn spec_update(note: Packed) -> Option<CounterUpdate> {
    if spec_is_ref(note.elem) {
        None
    } else {
        Some(CounterUpdate::Step(1))
    }
}

/// How far a directive advances the counter.
pub open spec fn spec_step_of(directive: Option<CounterUpdate>) -> nat {
    match directive {
        Some(CounterUpdate::Step(units)) => units as nat,
        None => 0,
    }
}

/// The counter value after the engine processes the nodes in document
/// order, starting from zero and applying each node's directive in turn.
pub open spec fn spec_counter_after(notes: Seq<Packed>) -> nat
    decreases notes.len(),
{
    if notes.len() == 0 {
        0
    } else {
        spec_counter_after(notes.drop_last()) + spec_step_of(spec_update(notes.last()))
    }
}

/// How many of the nodes are content-bearing.
pub open spec fn spec_content_count(notes: Seq<Packed>) -> nat
    decreases notes.len(),
{
    if notes.len() == 0 {
        0
    } else {
        spec_content_count(notes.drop_last()) + (if spec_is_ref(notes.last().elem) {
            0nat
        } else {
            1nat
        })
    }
}

impl Packed {
    /// The update directive this footnote hands the counter engine:
    /// exactly one unit step if its body is content, none if it is a
    /// reference.
    pub fn update(&self) -> (r: Option<CounterUpdate>)
        ensures
            r == spec_update(*self),
    {
        if self.elem.is_ref() {
            None
        } else {
            Some(CounterUpdate::Step(1))
        }
    }
}

/// Counting law: processing any ordered sequence of nodes leaves the
/// counter at exactly the number of content-bearing nodes among them —
/// however the references are placed and ordered relative to their
/// targets, since a reference never contributes a step.
pub proof fn lemma_counter_counts_content(notes: Seq<Packed>)
    ensures
        spec_counter_after(notes) == spec_content_count(notes),
    decreases notes.len(),
{
    if notes.len() > 0 {
        lemma_counter_counts_content(notes.drop_last());
    }
}

/// Accumulates the update directives of the given nodes in document
/// order, as the counter engine does, and returns the final counter
/// value: the number of content-bearing nodes.
pub fn counter_after(notes: &Vec<Packed>) -> (r: usize)
    ensures
        r as nat == spec_counter_after(notes@),
        r as nat == spec_content_count(notes@),
{
    let mut total: usize = 0;
    let mut i: usize = 0;
    while i < notes.len()
        invariant
            i <= notes@.len(),
            total <= i,
            total as nat == spec_counter_after(notes@.take(i as int)),
        decreases notes@.len() - i,
    {
        let directive = notes[i].update();
        proof {
            assert(notes@.take(i as int + 1).drop_last() =~= notes@.take(i as int));
            assert(notes@.take(i as int + 1).last() == notes@[i as int]);
        }
        match directive {
            Some(CounterUpdate::Step(units)) => {
                assert(units == 1);
                total = total + units;
            },
            None => {},
        }
        i = i + 1;
    }
    proof {
        assert(notes@.take(notes@.len() as int) =~= notes@);
        lemma_counter_counts_content(notes@);
    }
    total
}

} // verus!
