//! What holds of the draft of a union.

use super::{first_missing, is_stale, list_fault, without, UnionDraft};
use crate::text::byte_count;
use vstd::prelude::*;

verus! {

/// An identity of one to 256 bytes.
pub open spec fn can_be_named(id: Seq<char>) -> bool {
    id.len() > 0 && byte_count(id) <= 256
}

/// A view comes last among the inputs where it can be named, is none of them yet
/// and there are fewer than eight; else nothing changes and a reason is given.
pub proof fn added_view_comes_last(draft: UnionDraft, id: Seq<char>)
    ensures
        ({
            let fits = can_be_named(id) && !draft.inputs.contains(id) && draft.inputs.len() < 8;
            let after = draft.added(id);
            &&& fits <==> draft.refusal(id) is None
            &&& fits ==> after.inputs == draft.inputs.push(id) && after.error is None
            &&& !fits ==> after == draft
            &&& after.name == draft.name
            &&& after.pending == draft.pending
        }),
{
}

/// A view is another one.
pub open spec fn is_another(id: Seq<char>) -> spec_fn(Seq<char>) -> bool {
    |other: Seq<char>| other != id
}

/// A view that is taken out leaves all others, in their order.
pub proof fn removed_view_leaves_the_others(draft: UnionDraft, id: Seq<char>)
    ensures
        draft.removed(id).inputs == draft.inputs.filter(is_another(id)),
        draft.inputs.contains(id) ==> draft.removed(id).error is None,
        !draft.inputs.contains(id) ==> draft.removed(id) == draft,
        draft.removed(id).name == draft.name,
        draft.removed(id).pending == draft.pending,
{
    removal_is_a_filter(draft.inputs, id);
    if !draft.inputs.contains(id) {
        nothing_to_filter(draft.inputs, id);
    }
}

proof fn removal_is_a_filter(list: Seq<Seq<char>>, id: Seq<char>)
    ensures
        without(list, id) == list.filter(is_another(id)),
    decreases list.len(),
{
    reveal(Seq::filter);
    if list.len() > 0 {
        removal_is_a_filter(list.drop_last(), id);
    }
}

proof fn nothing_to_filter(list: Seq<Seq<char>>, id: Seq<char>)
    requires
        !list.contains(id),
    ensures
        list.filter(is_another(id)) == list,
    decreases list.len(),
{
    reveal(Seq::filter);
    if list.len() > 0 {
        let rest = list.drop_last();
        assert forall|i: int| 0 <= i < rest.len() implies rest[i] != id by {
            assert(rest[i] == list[i]);
        }
        assert(!rest.contains(id));
        nothing_to_filter(rest, id);
        assert(list.last() == list[list.len() - 1]);
        assert(rest.push(list.last()) =~= list);
    }
}

/// Nothing is wrong with a draft of two to eight inputs, none of them twice and
/// none of them the union itself; something is wrong with any other.
pub proof fn sound_draft_has_no_fault(draft: UnionDraft, union_id: Seq<char>)
    ensures
        draft.fault(union_id) is None <==> 2 <= draft.inputs.len() <= 8
            && draft.inputs.no_duplicates() && !draft.inputs.contains(union_id),
{
    list_is_sound(draft.inputs, union_id, 0);
    let inputs = draft.inputs;
    if list_fault(union_id, inputs, 0) is None {
        assert forall|i: int, j: int| 0 <= i < inputs.len() && 0 <= j < inputs.len() && i
            != j implies inputs[i] != inputs[j] by {
            let (a, b) = if i < j {
                (i, j)
            } else {
                (j, i)
            };
            if inputs[a] == inputs[b] {
                assert(inputs.take(b)[a] == inputs[b]);
                assert(inputs.take(b).contains(inputs[b]));
            }
        }
    }
    if inputs.no_duplicates() && !inputs.contains(union_id) {
        assert forall|i: int| 0 <= i < inputs.len() implies (#[trigger] inputs[i]) != union_id
            && !inputs.take(i).contains(inputs[i]) by {
            if inputs.take(i).contains(inputs[i]) {
                let k = choose|k: int| 0 <= k < inputs.take(i).len() && inputs.take(i)[k] == inputs[i];
                assert(inputs[k] == inputs[i]);
            }
        }
    }
}

proof fn list_is_sound(inputs: Seq<Seq<char>>, union_id: Seq<char>, from: int)
    requires
        0 <= from <= inputs.len(),
    ensures
        list_fault(union_id, inputs, from) is None <==> forall|i: int|
            from <= i < inputs.len() ==> (#[trigger] inputs[i]) != union_id && !inputs.take(
                i,
            ).contains(inputs[i]),
    decreases inputs.len() - from,
{
    if from < inputs.len() {
        list_is_sound(inputs, union_id, from + 1);
    }
}

/// A sound draft is accepted with each input in its place and at its own
/// revision. One of whose inputs has none is refused, and the draft is kept.
pub proof fn accepted_union_has_its_inputs(
    draft: UnionDraft,
    union_id: Seq<char>,
    revisions: spec_fn(Seq<char>) -> Option<u64>,
)
    requires
        2 <= draft.inputs.len() <= 8,
        draft.inputs.no_duplicates(),
        !draft.inputs.contains(union_id),
    ensures
        ({
            let (after, r) = draft.accepted(union_id, revisions);
            let whole = forall|i: int|
                0 <= i < draft.inputs.len() ==> revisions(#[trigger] draft.inputs[i]) is Some;
            &&& whole <==> r is Ok
            &&& r matches Ok(list) ==> {
                &&& list.len() == draft.inputs.len()
                &&& forall|i: int|
                    0 <= i < list.len() ==> (#[trigger] list[i]).0 == draft.inputs[i] && Some(
                        list[i].1,
                    ) == revisions(draft.inputs[i])
                &&& after.pending is None && after.error is None
            }
            &&& r is Err ==> after.error is Some && after.pending == draft.pending
            &&& after.inputs == draft.inputs && after.name == draft.name
        }),
{
    sound_draft_has_no_fault(draft, union_id);
    missing_is_found(draft.inputs, revisions, 0);
}

proof fn missing_is_found(
    inputs: Seq<Seq<char>>,
    revisions: spec_fn(Seq<char>) -> Option<u64>,
    from: int,
)
    requires
        0 <= from <= inputs.len(),
    ensures
        first_missing(inputs, revisions, from) is None <==> forall|i: int|
            from <= i < inputs.len() ==> revisions(#[trigger] inputs[i]) is Some,
    decreases inputs.len() - from,
{
    if from < inputs.len() {
        missing_is_found(inputs, revisions, from + 1);
    }
}

/// An unsound draft is refused and kept as it is.
pub proof fn unsound_draft_is_refused(
    draft: UnionDraft,
    union_id: Seq<char>,
    revisions: spec_fn(Seq<char>) -> Option<u64>,
)
    requires
        draft.inputs.len() < 2 || draft.inputs.len() > 8 || draft.inputs.contains(union_id)
            || !draft.inputs.no_duplicates(),
    ensures
        draft.accepted(union_id, revisions).0 == draft,
        draft.accepted(union_id, revisions).1 is Err,
{
    sound_draft_has_no_fault(draft, union_id);
}

/// A union is current exactly where each of its inputs is still at the revision
/// that it was accepted with.
pub proof fn current_union_has_its_revisions(
    inputs: Seq<(Seq<char>, u64)>,
    revisions: spec_fn(Seq<char>) -> Option<u64>,
)
    ensures
        !is_stale(inputs, revisions) <==> forall|i: int|
            0 <= i < inputs.len() ==> revisions((#[trigger] inputs[i]).0) == Some(inputs[i].1),
{
}

/// A submission is marked once, with its generation, and a refusal lets it be
/// tried again with the same inputs.
pub proof fn submission_is_marked(draft: UnionDraft, generation: u64, message: Seq<char>)
    ensures
        draft.pending is None ==> draft.submitted(generation).1 && draft.submitted(
            generation,
        ).0.pending == Some(generation),
        draft.pending is Some ==> draft.submitted(generation) == (draft, false),
        draft.submitted(generation).0.inputs == draft.inputs,
        draft.rejected(message).inputs == draft.inputs,
        draft.rejected(message).name == draft.name,
        draft.rejected(message).error == Some(message),
        draft.rejected(message).pending is None,
{
}

} // verus!
