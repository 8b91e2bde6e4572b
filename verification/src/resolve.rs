//! Declaration-location resolution: following a footnote's reference chain
//! through a read-only snapshot of the document index to the real,
//! content-bearing footnote, and computing the canonical placed location
//! used for counter lookups.

use vstd::prelude::*;

use crate::foundations::{Label, Location};
use crate::model::{spec_is_ref, FootnoteBody, Packed};

verus! {

/// Why resolving a footnote's declaration location failed. Every failure
/// is returned, never swallowed: resolution is the single choke point,
/// and each caller decides for itself how to react to each kind.
#[derive(Clone, Copy, PartialEq, Eq, Structural, Debug)]
pub enum ResolutionError {
    /// The location was requested before the layout pass assigned one: a
    /// caller-ordering bug, not a user authoring error.
    NotYetPlaced,
    /// The reference label matches no node at all, or more than one.
    UnresolvedReference,
    /// The footnote references itself: after one hop, resolution reaches
    /// the node's own location.
    SelfReference,
    /// Following references never reaches a content-bearing footnote: the
    /// labels form a cycle of length two or more. Resolution keeps a hop
    /// budget of one hop per index entry, which every acyclic chain stays
    /// within, so running out of budget means a cycle.
    CyclicReference,
}

/// One entry of the document index: a placed footnote tagged with a label.
#[derive(Clone, Copy, PartialEq, Eq, Structural, Debug)]
pub struct LabeledNote {
    /// The label under which the footnote can be referenced.
    pub label: Label,
    /// The labeled footnote, with whatever placement it has.
    pub note: Packed,
}

/// A read-only snapshot of the document index, fully populated before
/// resolution begins. Resolution only reads it; it is handed into each
/// call rather than kept as shared global state, so a small fabricated
/// index exercises the algorithm as well as a whole document's.
pub struct Introspector {
    /// The labeled footnotes of the document, in document order.
    pub entries: Vec<LabeledNote>,
}

impl View for Introspector {
    type V = Seq<LabeledNote>;

    open spec fn view(&self) -> Seq<LabeledNote> {
        self.entries@
    }
}

/// How many index entries carry the given label.
pub open spec fn count_matches(entries: Seq<LabeledNote>, label: Label) -> nat
    decreases entries.len(),
{
    if entries.len() == 0 {
        0
    } else {
        (if entries.first().label == label {
            1nat
        } else {
            0nat
        }) + count_matches(entries.drop_first(), label)
    }
}

/// The first index entry carrying the given label. Meaningful only when a
/// match exists; when exactly one exists it is the unique match.
pub open spec fn first_match(entries: Seq<LabeledNote>, label: Label) -> Packed
    decreases entries.len(),
{
    if entries.len() == 0 {
        arbitrary()
    } else if entries.first().label == label {
        entries.first().note
    } else {
        first_match(entries.drop_first(), label)
    }
}

/// What querying the index for a label yields: the unique footnote tagged
/// with it, or an error when zero or several carry it.
pub open spec fn spec_query_label(entries: Seq<LabeledNote>, label: Label) -> Result<
    Packed,
    ResolutionError,
> {
    if count_matches(entries, label) == 1 {
        Ok(first_match(entries, label))
    } else {
        Err(ResolutionError::UnresolvedReference)
    }
}

impl Introspector {
    /// Returns the unique footnote tagged with the given label, or
    /// [`ResolutionError::UnresolvedReference`] when no entry or more than
    /// one entry carries it.
    pub fn query_label(&self, label: Label) -> (r: Result<Packed, ResolutionError>)
        ensures
            r == spec_query_label(self@, label),
    {
        let n = self.entries.len();
        let mut i: usize = 0;
        let mut count: usize = 0;
        let mut found: Option<Packed> = None;
        proof {
            assert(self@.skip(0) =~= self@);
        }
        while i < n
            invariant
                n == self@.len(),
                i <= n,
                count <= i,
                count as nat + count_matches(self@.skip(i as int), label) == count_matches(
                    self@,
                    label,
                ),
                count == 0 ==> found == None::<Packed>,
                count == 0 ==> first_match(self@, label) == first_match(
                    self@.skip(i as int),
                    label,
                ),
                count >= 1 ==> found == Some(first_match(self@, label)),
            decreases n - i,
        {
            let entry = self.entries[i];
            proof {
                assert(self@.skip(i as int).first() == self@[i as int]);
                assert(self@.skip(i as int).drop_first() =~= self@.skip(i as int + 1));
            }
            if entry.label.id == label.id {
                if count == 0 {
                    found = Some(entry.note);
                }
                count = count + 1;
            }
            i = i + 1;
        }
        proof {
            assert(self@.skip(n as int) =~= Seq::<LabeledNote>::empty());
        }
        if count == 1 {
            match found {
                Some(target) => Ok(target),
                None => Err(ResolutionError::UnresolvedReference),
            }
        } else {
            Err(ResolutionError::UnresolvedReference)
        }
    }
}

/// What resolving a footnote's declaration location yields, with `fuel`
/// hops of budget left. A content-bearing body answers with its own
/// location (or `NotYetPlaced`), touching the index not at all; a
/// reference body queries the index for its unique target, rejects the
/// one-hop self-reference, and otherwise follows the target, spending one
/// unit of budget per hop.
pub open spec fn spec_resolve(note: Packed, entries: Seq<LabeledNote>, fuel: nat) -> Result<
    Location,
    ResolutionError,
>
    decreases fuel,
{
    match note.elem.body {
        FootnoteBody::Content(_) => match note.location {
            Some(location) => Ok(location),
            None => Err(ResolutionError::NotYetPlaced),
        },
        FootnoteBody::Reference(label) => match spec_query_label(entries, label) {
            Err(e) => Err(e),
            Ok(target) => if target.location == note.location {
                Err(ResolutionError::SelfReference)
            } else if fuel == 0 {
                Err(ResolutionError::CyclicReference)
            } else {
                spec_resolve(target, entries, (fuel - 1) as nat)
            },
        },
    }
}

/// What resolving a footnote against the given index yields: resolution
/// with a hop budget of one hop per index entry. An acyclic reference
/// chain visits each index entry at most once, so the budget never cuts
/// one short; only a reference cycle exhausts it.
pub open spec fn spec_declaration_location(note: Packed, entries: Seq<LabeledNote>) -> Result<
    Location,
    ResolutionError,
> {
    spec_resolve(note, entries, entries.len())
}

/// How many index queries resolving with `fuel` hops of budget makes: a
/// content-bearing body answers without querying at all; a reference body
/// queries once, and once more per further hop followed. This mirrors
/// [`spec_resolve`] hop for hop — the resolution algorithm queries the
/// index exactly once in each place this counts one.
pub open spec fn spec_resolve_queries(note: Packed, entries: Seq<LabeledNote>, fuel: nat) -> nat
    decreases fuel,
{
    match note.elem.body {
        FootnoteBody::Content(_) => 0,
        FootnoteBody::Reference(label) => match spec_query_label(entries, label) {
            Err(_) => 1,
            Ok(target) => if target.location == note.location {
                1
            } else if fuel == 0 {
                1
            } else {
                1 + spec_resolve_queries(target, entries, (fuel - 1) as nat)
            },
        },
    }
}

/// How many index queries resolving against the given index makes; the
/// companion of [`spec_declaration_location`].
pub open spec fn spec_declaration_queries(note: Packed, entries: Seq<LabeledNote>) -> nat {
    spec_resolve_queries(note, entries, entries.len())
}

/// Resolution with an explicit hop budget; see [`spec_resolve`].
fn resolve_with_fuel(note: &Packed, index: &Introspector, fuel: usize) -> (r: Result<
    Location,
    ResolutionError,
>)
    ensures
        r == spec_resolve(*note, index@, fuel as nat),
    decreases fuel,
{
    match note.elem.body {
        FootnoteBody::Content(_) => match note.location {
            Some(location) => Ok(location),
            None => Err(ResolutionError::NotYetPlaced),
        },
        FootnoteBody::Reference(label) => match index.query_label(label) {
            Err(e) => Err(e),
            Ok(target) => {
                let same = match (note.location, target.location) {
                    (Some(a), Some(b)) => a.id == b.id,
                    (None, None) => true,
                    _ => false,
                };
                if same {
                    Err(ResolutionError::SelfReference)
                } else if fuel == 0 {
                    Err(ResolutionError::CyclicReference)
                } else {
                    resolve_with_fuel(&target, index, fuel - 1)
                }
            },
        },
    }
}

impl Packed {
    /// Returns the location of the definition of this footnote: its own
    /// location for a content-bearing body, and the location reached by
    /// following references for a reference body. Fails with
    /// [`ResolutionError::NotYetPlaced`] when the defining note has no
    /// location yet, [`ResolutionError::UnresolvedReference`] when a label
    /// on the way matches zero or several nodes,
    /// [`ResolutionError::SelfReference`] when a reference resolves in one
    /// hop to its own location, and [`ResolutionError::CyclicReference`]
    /// when the references form a longer cycle. The longer-cycle guard is
    /// a deliberate choice: unguarded, resolution of a mutual cycle would
    /// never terminate, so a hop budget of one hop per index entry turns
    /// that into a reported error without affecting any acyclic chain.
    pub fn declaration_location(&self, index: &Introspector) -> (r: Result<
        Location,
        ResolutionError,
    >)
        ensures
            r == spec_declaration_location(*self, index@),
    {
        let fuel = index.entries.len();
        resolve_with_fuel(self, index, fuel)
    }
}

/// Node `a` points at node `b`: `a`'s body references a label whose unique
/// match in the index is `b`, placed elsewhere than `a` itself.
pub open spec fn links_to(entries: Seq<LabeledNote>, a: Packed, b: Packed) -> bool {
    match a.elem.body {
        FootnoteBody::Reference(label) => {
            &&& spec_query_label(entries, label) == Ok::<Packed, ResolutionError>(b)
            &&& a.location != b.location
        },
        FootnoteBody::Content(_) => false,
    }
}

/// Consecutive nodes of `chain` each point at the next.
pub open spec fn is_chain(entries: Seq<LabeledNote>, chain: Seq<Packed>) -> bool {
    forall|i: int| 0 <= i < chain.len() - 1 ==> links_to(entries, #[trigger] chain[i], chain[i + 1])
}

/// A successful label query answers with the note of an index entry;
/// this returns such an entry's position.
proof fn lemma_first_match_entry(entries: Seq<LabeledNote>, label: Label) -> (p: int)
    requires
        count_matches(entries, label) >= 1,
    ensures
        0 <= p < entries.len(),
        entries[p].label == label,
        entries[p].note == first_match(entries, label),
    decreases entries.len(),
{
    if entries.first().label == label {
        0
    } else {
        let q = lemma_first_match_entry(entries.drop_first(), label);
        assert(entries.drop_first()[q] == entries[q + 1]);
        q + 1
    }
}

/// Equal nodes in a chain force equal successors, hop for hop: a node's
/// link target is determined by its label alone.
proof fn lemma_chain_equal_suffixes(
    entries: Seq<LabeledNote>,
    chain: Seq<Packed>,
    i: int,
    j: int,
    d: int,
)
    requires
        is_chain(entries, chain),
        0 <= i < j < chain.len(),
        chain[i] == chain[j],
        0 <= d,
        j + d < chain.len(),
    ensures
        chain[i + d] == chain[j + d],
    decreases d,
{
    if d > 0 {
        lemma_chain_equal_suffixes(entries, chain, i, j, d - 1);
        assert(links_to(entries, chain[i + d - 1], chain[i + d]));
        assert(links_to(entries, chain[j + d - 1], chain[j + d]));
    }
}

/// A chain that ends in a content-bearing node never visits a node twice:
/// were a node repeated, equal suffixes would make some earlier node equal
/// the last one — yet every node before the last carries a reference body
/// and the last does not.
proof fn lemma_chain_no_duplicates(entries: Seq<LabeledNote>, chain: Seq<Packed>)
    requires
        is_chain(entries, chain),
        chain.len() >= 2,
        !spec_is_ref(chain.last().elem),
    ensures
        chain.no_duplicates(),
{
    assert forall|i: int, j: int|
        0 <= i < chain.len() && 0 <= j < chain.len() && i != j implies chain[i] != chain[j] by {
        let a = if i < j {
            i
        } else {
            j
        };
        let b = if i < j {
            j
        } else {
            i
        };
        if chain[a] == chain[b] {
            let d = chain.len() - 1 - b;
            lemma_chain_equal_suffixes(entries, chain, a, b, d);
            assert(chain[a + d] == chain[chain.len() - 1]);
            assert(links_to(entries, chain[a + d], chain[a + d + 1]));
        }
    }
}

/// A chain ending in a content-bearing node has at most one node more
/// than the index has entries: past the first node, each chain node is
/// the note of a distinct index entry.
proof fn lemma_chain_fits_index(entries: Seq<LabeledNote>, chain: Seq<Packed>)
    requires
        is_chain(entries, chain),
        chain.len() >= 2,
        !spec_is_ref(chain.last().elem),
    ensures
        chain.len() - 1 <= entries.len(),
{
    broadcast use vstd::seq_lib::seq_to_set_is_finite;
    broadcast use vstd::set::group_set_axioms;

    lemma_chain_no_duplicates(entries, chain);
    let tail = chain.subrange(1, chain.len() as int);
    assert forall|i: int, j: int|
        0 <= i < tail.len() && 0 <= j < tail.len() && i != j implies tail[i] != tail[j] by {
        assert(tail[i] == chain[i + 1]);
        assert(tail[j] == chain[j + 1]);
    }
    tail.unique_seq_to_set();
    let notes = entries.map_values(|entry: LabeledNote| entry.note);
    assert forall|x: Packed| tail.to_set().contains(x) implies notes.to_set().contains(x) by {
        let q = choose|q: int| 0 <= q < tail.len() && tail[q] == x;
        assert(links_to(entries, chain[q], chain[q + 1]));
        match chain[q].elem.body {
            FootnoteBody::Reference(label) => {
                let p = lemma_first_match_entry(entries, label);
                assert(notes[p] == x);
                assert(notes.contains(x));
            },
            FootnoteBody::Content(_) => {
                assert(false);
            },
        }
    }
    vstd::set_lib::lemma_len_subset(tail.to_set(), notes.to_set());
    notes.lemma_cardinality_of_set();
}

/// A content-bearing footnote placed at `location` resolves to exactly
/// that location with zero index queries — which is why the index may be
/// arbitrary here.
pub proof fn lemma_content_resolves_in_place(
    note: Packed,
    entries: Seq<LabeledNote>,
    location: Location,
)
    requires
        !spec_is_ref(note.elem),
        note.location == Some(location),
    ensures
        spec_declaration_location(note, entries) == Ok::<Location, ResolutionError>(location),
        spec_declaration_queries(note, entries) == 0,
{
}

/// Chain resolution, generalized over the remaining hop budget: a chain of
/// k reference hops resolves within any budget of at least k.
proof fn lemma_chain_resolves_with_fuel(
    entries: Seq<LabeledNote>,
    chain: Seq<Packed>,
    location: Location,
    fuel: nat,
)
    requires
        chain.len() >= 2,
        is_chain(entries, chain),
        !spec_is_ref(chain.last().elem),
        chain.last().location == Some(location),
        fuel >= chain.len() - 1,
    ensures
        spec_resolve(chain[0], entries, fuel) == Ok::<Location, ResolutionError>(location),
        spec_resolve_queries(chain[0], entries, fuel) == chain.len() - 1,
    decreases chain.len(),
{
    assert(links_to(entries, chain[0], chain[1]));
    if chain.len() == 2 {
        assert(chain.last() == chain[1]);
        assert(spec_resolve_queries(chain[1], entries, (fuel - 1) as nat) == 0);
    } else {
        let rest = chain.drop_first();
        assert forall|i: int| 0 <= i < rest.len() - 1 implies links_to(
            entries,
            #[trigger] rest[i],
            rest[i + 1],
        ) by {
            assert(rest[i] == chain[i + 1]);
            assert(rest[i + 1] == chain[i + 2]);
            assert(links_to(entries, chain[i + 1], chain[i + 2]));
        }
        assert(rest.last() == chain.last());
        lemma_chain_resolves_with_fuel(entries, rest, location, (fuel - 1) as nat);
        assert(rest[0] == chain[1]);
    }
}

/// Following a chain of one or more reference nodes, each pointing at the
/// next and the last node content-bearing and placed, resolution of the
/// first node answers with the last node's location — one index query per
/// hop, exactly one node fewer than the chain has. The hop budget never
/// interferes: such a chain threads through distinct index entries, so it
/// is at most one node longer than the index.
pub proof fn lemma_reference_chain_resolves(
    entries: Seq<LabeledNote>,
    chain: Seq<Packed>,
    location: Location,
)
    requires
        chain.len() >= 2,
        is_chain(entries, chain),
        !spec_is_ref(chain.last().elem),
        chain.last().location == Some(location),
    ensures
        spec_declaration_location(chain[0], entries) == Ok::<Location, ResolutionError>(location),
        spec_declaration_queries(chain[0], entries) == chain.len() - 1,
{
    lemma_chain_fits_index(entries, chain);
    lemma_chain_resolves_with_fuel(entries, chain, location, entries.len());
}

/// A reference whose label resolves in one hop to the node's own location
/// fails with [`ResolutionError::SelfReference`].
pub proof fn lemma_direct_self_reference_fails(
    note: Packed,
    entries: Seq<LabeledNote>,
    label: Label,
    target: Packed,
)
    requires
        note.elem.body == FootnoteBody::Reference(label),
        spec_query_label(entries, label) == Ok::<Packed, ResolutionError>(target),
        target.location == note.location,
    ensures
        spec_declaration_location(note, entries) == Err::<Location, ResolutionError>(
            ResolutionError::SelfReference,
        ),
{
}

/// Mutual-cycle resolution fails whatever hop budget is left: each hop
/// alternates between the two nodes until the budget runs out.
proof fn lemma_mutual_cycle_all_fuel(entries: Seq<LabeledNote>, a: Packed, b: Packed, fuel: nat)
    requires
        links_to(entries, a, b),
        links_to(entries, b, a),
    ensures
        spec_resolve(a, entries, fuel) == Err::<Location, ResolutionError>(
            ResolutionError::CyclicReference,
        ),
    decreases fuel,
{
    if fuel > 0 {
        lemma_mutual_cycle_all_fuel(entries, b, a, (fuel - 1) as nat);
    }
}

/// Two footnotes referencing each other never resolve: the hop budget
/// guard reports [`ResolutionError::CyclicReference`] instead of following
/// the references forever.
pub proof fn lemma_mutual_cycle_fails(entries: Seq<LabeledNote>, a: Packed, b: Packed)
    requires
        links_to(entries, a, b),
        links_to(entries, b, a),
    ensures
        spec_declaration_location(a, entries) == Err::<Location, ResolutionError>(
            ResolutionError::CyclicReference,
        ),
{
    lemma_mutual_cycle_all_fuel(entries, a, b, entries.len());
}

/// Two reference nodes pointing at the same content-bearing, placed note
/// resolve to the same location — so both markers, reading the counter at
/// that location, report the same ordinal.
pub proof fn lemma_shared_target_same_location(
    entries: Seq<LabeledNote>,
    a: Packed,
    b: Packed,
    target: Packed,
    location: Location,
)
    requires
        links_to(entries, a, target),
        links_to(entries, b, target),
        !spec_is_ref(target.elem),
        target.location == Some(location),
    ensures
        spec_declaration_location(a, entries) == Ok::<Location, ResolutionError>(location),
        spec_declaration_location(b, entries) == Ok::<Location, ResolutionError>(location),
{
    let chain_a = seq![a, target];
    assert forall|i: int| 0 <= i < chain_a.len() - 1 implies links_to(
        entries,
        #[trigger] chain_a[i],
        chain_a[i + 1],
    ) by {
        assert(chain_a[i] == a);
        assert(chain_a[i + 1] == target);
    }
    assert(chain_a.last() == target);
    lemma_reference_chain_resolves(entries, chain_a, location);
    let chain_b = seq![b, target];
    assert forall|i: int| 0 <= i < chain_b.len() - 1 implies links_to(
        entries,
        #[trigger] chain_b[i],
        chain_b[i + 1],
    ) by {
        assert(chain_b[i] == b);
        assert(chain_b[i + 1] == target);
    }
    assert(chain_b.last() == target);
    lemma_reference_chain_resolves(entries, chain_b, location);
}

} // verus!
