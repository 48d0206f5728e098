//! The draft of a union: two or more views merged in the order of time.
//!
//! The draft is edited while the accepted union, fenced on the revisions of its
//! inputs, goes on serving rows. An input that has moved on since makes the
//! union stale; an input that is gone is refused and leaves everything as it is.

use crate::text::{byte_count, byte_len, copy_texts, same, some_text, texts};
use vstd::prelude::*;

pub mod laws;

verus! {

/// The most views that a draft takes.
pub const MAX_UNION_DIALOG_INPUTS: usize = 8;

/// The longest identity of a view, in bytes.
pub const MAX_UNION_DIALOG_VIEW_ID_BYTES: usize = 256;

/// The most views that are looked at in search of a cycle.
pub const MAX_VISITED: usize = 64;

/// An input of an accepted union with the revision it is fenced on.
#[derive(Clone, Debug, PartialEq, Eq)]
pub struct UnionInputRef {
    pub view_id: String,
    pub accepted_revision: u64,
}

/// The union that a view serves.
#[derive(Clone, Debug, PartialEq, Eq)]
pub struct AcceptedUnion {
    pub union_view_id: String,
    pub inputs: Vec<UnionInputRef>,
    pub revision: u64,
}

/// The inputs of an accepted union by what they say.
pub open spec fn fences(inputs: Seq<UnionInputRef>) -> Seq<(Seq<char>, u64)> {
    inputs.map_values(|input: UnionInputRef| (input.view_id@, input.accepted_revision))
}

/// The draft of a union.
#[derive(Clone, Debug, PartialEq, Eq)]
pub struct UnionDialog {
    inputs: Vec<String>,
    name: String,
    error: Option<String>,
    pending_generation: Option<u64>,
}

/// A draft by what it says.
#[verifier::ext_equal]
pub struct UnionDraft {
    pub inputs: Seq<Seq<char>>,
    pub name: Seq<char>,
    pub error: Option<Seq<char>>,
    pub pending: Option<u64>,
}

/// An identity that a view may have.
pub open spec fn is_identity(id: Seq<char>) -> bool {
    id.len() > 0 && byte_count(id) <= MAX_UNION_DIALOG_VIEW_ID_BYTES
}

/// The list without one of its members.
pub open spec fn without(list: Seq<Seq<char>>, id: Seq<char>) -> Seq<Seq<char>>
    decreases list.len(),
{
    if list.len() == 0 {
        seq![]
    } else {
        let rest = without(list.drop_last(), id);
        if list.last() != id {
            rest.push(list.last())
        } else {
            rest
        }
    }
}

/// What is wrong with the first input that is the union itself or was listed
/// before, among those from one place on.
pub open spec fn list_fault(union_id: Seq<char>, inputs: Seq<Seq<char>>, from: int) -> Option<Seq<char>>
    decreases inputs.len() - from,
{
    if from < 0 || from >= inputs.len() {
        None
    } else if inputs[from] == union_id {
        Some("a union cannot contain itself ('"@ + inputs[from] + "')"@)
    } else if inputs.take(from).contains(inputs[from]) {
        Some("'"@ + inputs[from] + "' is listed twice"@)
    } else {
        list_fault(union_id, inputs, from + 1)
    }
}

impl UnionDraft {
    /// The invariant of a draft: few inputs, none of them twice, and all of them
    /// identities of views.
    pub open spec fn valid(self) -> bool {
        &&& self.inputs.len() <= MAX_UNION_DIALOG_INPUTS
        &&& self.inputs.no_duplicates()
        &&& forall|i: int| 0 <= i < self.inputs.len() ==> is_identity(#[trigger] self.inputs[i])
    }

    /// Why an input cannot be added.
    pub open spec fn refusal(self, id: Seq<char>) -> Option<Seq<char>> {
        if !is_identity(id) {
            Some("view identity must be 1..=256 bytes"@)
        } else if self.inputs.contains(id) {
            Some("'"@ + id + "' is already an input of this union"@)
        } else if self.inputs.len() >= MAX_UNION_DIALOG_INPUTS {
            Some("a union takes at most 8 input views"@)
        } else {
            None
        }
    }

    pub open spec fn added(self, id: Seq<char>) -> UnionDraft {
        if self.refusal(id) is Some {
            self
        } else {
            UnionDraft { inputs: self.inputs.push(id), error: None, ..self }
        }
    }

    pub open spec fn removed(self, id: Seq<char>) -> UnionDraft {
        if self.inputs.contains(id) {
            UnionDraft { inputs: without(self.inputs, id), error: None, ..self }
        } else {
            self
        }
    }

    /// Why a union cannot be made of the draft.
    pub open spec fn fault(self, union_id: Seq<char>) -> Option<Seq<char>> {
        if self.inputs.len() < 2 {
            Some("a union needs at least two input views"@)
        } else if self.inputs.len() > MAX_UNION_DIALOG_INPUTS {
            Some("a union takes at most 8 input views"@)
        } else {
            list_fault(union_id, self.inputs, 0)
        }
    }

    pub open spec fn rejected(self, message: Seq<char>) -> UnionDraft {
        UnionDraft { error: Some(message), pending: None, ..self }
    }

    pub open spec fn submitted(self, generation: u64) -> (UnionDraft, bool) {
        if self.pending is Some {
            (self, false)
        } else {
            (UnionDraft { pending: Some(generation), ..self }, true)
        }
    }

    /// The draft is accepted with the revisions of its inputs. An unsound one is
    /// refused; an input without a revision is refused and said to be missing.
    pub open spec fn accepted(
        self,
        union_id: Seq<char>,
        revisions: spec_fn(Seq<char>) -> Option<u64>,
    ) -> (UnionDraft, Result<Seq<(Seq<char>, u64)>, Seq<char>>) {
        match self.fault(union_id) {
            Some(fault) => (self, Err(fault)),
            None => match first_missing(self.inputs, revisions, 0) {
                Some(id) => {
                    let message = "input view '"@ + id + "' is unavailable"@;
                    (UnionDraft { error: Some(message), ..self }, Err(message))
                },
                None => (
                    UnionDraft { error: None, pending: None, ..self },
                    Ok(self.inputs.map_values(|id: Seq<char>| (id, revisions(id)->0))),
                ),
            },
        }
    }
}

/// The first of the inputs that has no revision.
pub open spec fn first_missing(
    inputs: Seq<Seq<char>>,
    revisions: spec_fn(Seq<char>) -> Option<u64>,
    from: int,
) -> Option<Seq<char>>
    decreases inputs.len() - from,
{
    if from < 0 || from >= inputs.len() {
        None
    } else if revisions(inputs[from]) is None {
        Some(inputs[from])
    } else {
        first_missing(inputs, revisions, from + 1)
    }
}

/// What a lookup of revisions answers for every view.
pub open spec fn reports<F: Fn(&str) -> Option<u64>>(
    lookup: F,
    revisions: spec_fn(Seq<char>) -> Option<u64>,
) -> bool {
    forall|id: &str, r: Option<u64>| #[trigger] lookup.ensures((id,), r) ==> r == revisions(id@)
}

/// A lookup had a revision for a view.
pub open spec fn gave_some<F: Fn(&str) -> Option<u64>>(lookup: F, id: Seq<char>) -> bool {
    exists|revision: u64| #[trigger] gave(lookup, id, Some(revision))
}

/// A lookup had no revision for one of the inputs, and had one for each before.
pub open spec fn is_first_missing<F: Fn(&str) -> Option<u64>>(
    lookup: F,
    inputs: Seq<Seq<char>>,
    place: int,
) -> bool {
    &&& gave(lookup, inputs[place], None)
    &&& forall|i: int| 0 <= i < place ==> gave_some(lookup, #[trigger] inputs[i])
}

/// A list of views that may be missing.
pub open spec fn some_list(list: Option<Vec<String>>) -> Option<Seq<Seq<char>>> {
    match list {
        Some(list) => Some(texts(list@)),
        None => None,
    }
}

/// What a lookup of inputs answers for every view.
pub open spec fn depicts<F: Fn(&str) -> Option<Vec<String>>>(
    lookup: F,
    graph: spec_fn(Seq<char>) -> Option<Seq<Seq<char>>>,
) -> bool {
    forall|id: &str, r: Option<Vec<String>>| #[trigger]
        lookup.ensures((id,), r) ==> graph(id@) == some_list(r)
}

/// A lookup of revisions gave an answer for a view.
pub open spec fn gave<F: Fn(&str) -> Option<u64>>(
    lookup: F,
    id: Seq<char>,
    answer: Option<u64>,
) -> bool {
    exists|name: &str| name@ == id && #[trigger] lookup.ensures((name,), answer)
}

/// A lookup of inputs gave an answer for a view.
pub open spec fn listed<F: Fn(&str) -> Option<Vec<String>>>(
    lookup: F,
    id: Seq<char>,
    answer: Option<Seq<Seq<char>>>,
) -> bool {
    exists|name: &str, r: Option<Vec<String>>|
        name@ == id && #[trigger] lookup.ensures((name,), r) && answer == some_list(r)
}

/// A graph holds for each of some views an answer that a lookup gave.
pub open spec fn answered<F: Fn(&str) -> Option<Vec<String>>>(
    lookup: F,
    graph: spec_fn(Seq<char>) -> Option<Seq<Seq<char>>>,
    seen: Seq<Seq<char>>,
) -> bool {
    forall|i: int| 0 <= i < seen.len() ==> listed(lookup, #[trigger] seen[i], graph(seen[i]))
}

/// The inputs of a view.
pub open spec fn edges(graph: spec_fn(Seq<char>) -> Option<Seq<Seq<char>>>, id: Seq<char>) -> Seq<
    Seq<char>,
> {
    match graph(id) {
        None => seq![],
        Some(list) => list,
    }
}

/// Why a union is refused after a search of what it depends on.
pub enum Cycle {
    /// The union depends on itself.
    Reached,
    /// It depends on too many views to tell.
    TooMany,
}

/// The search from the views that are still to be looked at, the last of them
/// first.
pub open spec fn search(
    graph: spec_fn(Seq<char>) -> Option<Seq<Seq<char>>>,
    union_id: Seq<char>,
    work: Seq<Seq<char>>,
    visited: Seq<Seq<char>>,
) -> Option<Cycle>
    decreases MAX_VISITED + 1 - visited.len(), work.len(),
{
    if work.len() == 0 {
        None
    } else {
        let next = work.last();
        let rest = work.drop_last();
        if next == union_id {
            Some(Cycle::Reached)
        } else if visited.contains(next) {
            search(graph, union_id, rest, visited)
        } else if visited.len() >= MAX_VISITED {
            Some(Cycle::TooMany)
        } else {
            search(graph, union_id, rest + edges(graph, next), visited.push(next))
        }
    }
}

/// The views whose inputs a search looks up, in order.
pub open spec fn seen_by(
    graph: spec_fn(Seq<char>) -> Option<Seq<Seq<char>>>,
    union_id: Seq<char>,
    work: Seq<Seq<char>>,
    visited: Seq<Seq<char>>,
) -> Seq<Seq<char>>
    decreases MAX_VISITED + 1 - visited.len(), work.len(),
{
    if work.len() == 0 {
        visited
    } else {
        let next = work.last();
        let rest = work.drop_last();
        if next == union_id {
            visited
        } else if visited.contains(next) {
            seen_by(graph, union_id, rest, visited)
        } else if visited.len() >= MAX_VISITED {
            visited
        } else {
            seen_by(graph, union_id, rest + edges(graph, next), visited.push(next))
        }
    }
}

/// What a search found is what is answered.
pub open spec fn is_told(r: Result<(), String>, found: Option<Cycle>, union_id: Seq<char>) -> bool {
    match r {
        Ok(_) => found is None,
        Err(error) => found matches Some(cycle) && error@ == cycle_text(cycle, union_id),
    }
}

/// The words of a refusal.
pub open spec fn cycle_text(cycle: Cycle, union_id: Seq<char>) -> Seq<char> {
    match cycle {
        Cycle::Reached => "union inputs reach back to '"@ + union_id + "'"@,
        Cycle::TooMany => "dependency graph exceeds 64 views; refusing the union"@,
    }
}

fn quoted(lead: &str, id: &str, tail: &str) -> (r: String)
    ensures
        r@ == lead@ + id@ + tail@,
{
    let mut text = lead.to_owned();
    text.append(id);
    text.append(tail);
    text
}

/// Whether a list holds a text.
fn lists(list: &Vec<String>, id: &str, n: usize) -> (r: bool)
    requires
        n <= list@.len(),
    ensures
        r == texts(list@).take(n as int).contains(id@),
{
    let ghost all = texts(list@).take(n as int);
    let mut i: usize = 0;
    while i < n
        invariant
            i <= n <= list@.len(),
            all == texts(list@).take(n as int),
            forall|j: int| 0 <= j < i ==> all[j] != id@,
        decreases n - i,
    {
        assert(all[i as int] == list@[i as int]@);
        if same(list[i].as_str(), id) {
            return true;
        }
        i += 1;
    }
    false
}

fn holds_text(list: &Vec<String>, id: &str) -> (r: bool)
    ensures
        r == texts(list@).contains(id@),
{
    assert(texts(list@).take(list@.len() as int) =~= texts(list@));
    lists(list, id, list.len())
}

/// No input may be the union itself or be listed twice.
pub fn validate_union_ids(union_view_id: &str, inputs: &Vec<String>) -> (r: Result<(), String>)
    ensures
        match r {
            Ok(_) => list_fault(union_view_id@, texts(inputs@), 0) is None,
            Err(error) => list_fault(union_view_id@, texts(inputs@), 0) == Some(error@),
        },
{
    let ghost all = texts(inputs@);
    let mut i: usize = 0;
    while i < inputs.len()
        invariant
            i <= inputs@.len(),
            all == texts(inputs@),
            list_fault(union_view_id@, all, 0) == list_fault(union_view_id@, all, i as int),
        decreases inputs.len() - i,
    {
        let id = inputs[i].as_str();
        assert(all[i as int] == id@);
        if same(id, union_view_id) {
            return Err(quoted("a union cannot contain itself ('", id, "')"));
        }
        if lists(inputs, id, i) {
            return Err(quoted("'", id, "' is listed twice"));
        }
        i += 1;
    }
    Ok(())
}

/// Puts the inputs of a view behind the work that is left.
fn extend_work(work: &mut Vec<String>, inputs: Vec<String>)
    ensures
        texts(final(work)@) == texts(old(work)@) + texts(inputs@),
{
    let ghost before = texts(work@);
    let ghost start = work@;
    let ghost all = inputs@;
    let mut inputs = inputs;
    work.append(&mut inputs);
    proof {
        assert(work@ =~= start + all);
        assert(texts(work@) =~= before + texts(all));
    }
}

/// A graph agrees with what is known of some views.
spec fn extends(
    graph: spec_fn(Seq<char>) -> Option<Seq<Seq<char>>>,
    known: Map<Seq<char>, Option<Seq<Seq<char>>>>,
) -> bool {
    forall|id: Seq<char>| #[trigger] known.contains_key(id) ==> graph(id) == known[id]
}

/// A search whose every lookup is known.
proof fn search_is_over<F: Fn(&str) -> Option<Vec<String>>>(
    resolve: F,
    union_id: Seq<char>,
    start: Seq<Seq<char>>,
    visited: Seq<Seq<char>>,
    known: Map<Seq<char>, Option<Seq<Seq<char>>>>,
    found: Option<Cycle>,
)
    requires
        forall|id: Seq<char>| #[trigger]
            known.contains_key(id) ==> listed(resolve, id, known[id]),
        forall|i: int| 0 <= i < visited.len() ==> known.contains_key(#[trigger] visited[i]),
        forall|graph: spec_fn(Seq<char>) -> Option<Seq<Seq<char>>>| #[trigger]
            extends(graph, known) ==> search(graph, union_id, start, seq![]) == found && seen_by(
                graph,
                union_id,
                start,
                seq![],
            ) == visited,
    ensures
        exists|graph: spec_fn(Seq<char>) -> Option<Seq<Seq<char>>>| #[trigger]
            answered(resolve, graph, seen_by(graph, union_id, start, seq![])) && search(
                graph,
                union_id,
                start,
                seq![],
            ) == found,
        forall|graph: spec_fn(Seq<char>) -> Option<Seq<Seq<char>>>| #[trigger]
            depicts(resolve, graph) ==> search(graph, union_id, start, seq![]) == found,
{
    let graph = |id: Seq<char>|
        if known.contains_key(id) {
            known[id]
        } else {
            None::<Seq<Seq<char>>>
        };
    assert(extends(graph, known));
    assert(answered(resolve, graph, seen_by(graph, union_id, start, seq![])));
    assert forall|other: spec_fn(Seq<char>) -> Option<Seq<Seq<char>>>| #[trigger]
        depicts(resolve, other) implies search(other, union_id, start, seq![]) == found by {
        assert forall|id: Seq<char>| #[trigger] known.contains_key(id) implies other(id)
            == known[id] by {
            assert(listed(resolve, id, known[id]));
        }
        assert(extends(other, known));
    }
}

impl Default for UnionDialog {
    fn default() -> (r: UnionDialog)
        ensures
            r@ == (UnionDraft {
                inputs: Seq::empty(),
                name: Seq::empty(),
                error: None,
                pending: None,
            }),
            r@.valid(),
    {
        let r = UnionDialog {
            inputs: Vec::new(),
            name: String::new(),
            error: None,
            pending_generation: None,
        };
        assert(texts(r.inputs@) =~= seq![]);
        r
    }
}

impl View for UnionDialog {
    type V = UnionDraft;

    closed spec fn view(&self) -> UnionDraft {
        UnionDraft {
            inputs: texts(self.inputs@),
            name: self.name@,
            error: some_text(self.error),
            pending: self.pending_generation,
        }
    }
}

impl UnionDialog {
    /// An empty draft.
    pub fn new() -> (r: UnionDialog)
        ensures
            r@ == (UnionDraft {
                inputs: Seq::empty(),
                name: Seq::empty(),
                error: None,
                pending: None,
            }),
            r@.valid(),
    {
        UnionDialog::default()
    }

    /// The inputs in the order in which the union merges them.
    pub fn inputs(&self) -> (r: &Vec<String>)
        ensures
            texts(r@) == self@.inputs,
    {
        &self.inputs
    }

    pub fn name(&self) -> (r: &str)
        ensures
            r@ == self@.name,
    {
        self.name.as_str()
    }

    pub fn set_name(&mut self, name: String)
        ensures
            final(self)@ == (UnionDraft { name: name@, ..old(self)@ }),
    {
        self.name = name;
    }

    /// The last refusal, beside the draft that it was about.
    pub fn error(&self) -> (r: Option<&str>)
        ensures
            r is Some <==> self@.error is Some,
            r matches Some(error) ==> self@.error == Some(error@),
    {
        match &self.error {
            Some(error) => Some(error.as_str()),
            None => None,
        }
    }

    pub fn pending_generation(&self) -> (r: Option<u64>)
        ensures
            r == self@.pending,
    {
        self.pending_generation
    }

    /// Adds a view to the draft.
    pub fn add_input(&mut self, view_id: String) -> (r: Result<(), String>)
        ensures
            final(self)@ == old(self)@.added(view_id@),
            match r {
                Ok(_) => old(self)@.refusal(view_id@) is None,
                Err(error) => old(self)@.refusal(view_id@) == Some(error@),
            },
            old(self)@.valid() ==> final(self)@.valid(),
    {
        let id = view_id.as_str();
        if id.is_empty() || byte_len(id) > MAX_UNION_DIALOG_VIEW_ID_BYTES {
            return Err("view identity must be 1..=256 bytes".to_owned());
        }
        if holds_text(&self.inputs, id) {
            return Err(quoted("'", id, "' is already an input of this union"));
        }
        if self.inputs.len() >= MAX_UNION_DIALOG_INPUTS {
            return Err("a union takes at most 8 input views".to_owned());
        }
        let ghost before = texts(self.inputs@);
        let ghost added = view_id@;
        self.inputs.push(view_id);
        self.error = None;
        proof {
            assert(texts(self.inputs@) =~= before.push(added));
            if old(self)@.valid() {
                adding_keeps_validity(old(self)@, added);
            }
        }
        Ok(())
    }

    /// Takes a view out of the draft.
    pub fn remove_input(&mut self, view_id: &str) -> (r: bool)
        ensures
            final(self)@ == old(self)@.removed(view_id@),
            r == old(self)@.inputs.contains(view_id@),
            old(self)@.valid() ==> final(self)@.valid(),
    {
        let ghost all = texts(self.inputs@);
        let found = holds_text(&self.inputs, view_id);
        let mut i: usize = 0;
        let ghost mut seen: int = 0;
        assert(all.take(0) =~= seq![]);
        while i < self.inputs.len()
            invariant
                i <= self.inputs@.len(),
                0 <= seen <= all.len(),
                self.inputs@.len() - i == all.len() - seen,
                texts(self.inputs@).take(i as int) == without(all.take(seen), view_id@),
                texts(self.inputs@).skip(i as int) == all.skip(seen),
                *self == (UnionDialog { inputs: self.inputs, ..*old(self) }),
            decreases self.inputs.len() - i,
        {
            let ghost now = texts(self.inputs@);
            proof {
                assert(now[i as int] == now.skip(i as int)[0]);
                assert(all[seen] == all.skip(seen)[0]);
                assert(all.take(seen + 1).drop_last() =~= all.take(seen));
                assert(all.take(seen + 1).last() == all[seen]);
                assert(all.skip(seen + 1) =~= all.skip(seen).skip(1));
            }
            if same(self.inputs[i].as_str(), view_id) {
                self.inputs.remove(i);
                proof {
                    assert(texts(self.inputs@).take(i as int) =~= now.take(i as int));
                    assert(texts(self.inputs@).skip(i as int) =~= now.skip(i as int).skip(1));
                }
            } else {
                proof {
                    assert(now.take(i + 1) =~= now.take(i as int).push(now[i as int]));
                    assert(now.skip(i + 1) =~= now.skip(i as int).skip(1));
                }
                i += 1;
            }
            proof {
                seen = seen + 1;
            }
        }
        proof {
            assert(texts(self.inputs@).take(i as int) =~= texts(self.inputs@));
            assert(all.take(seen) =~= all);
            if !all.contains(view_id@) {
                removing_nothing(all, view_id@);
            }
        }
        if found {
            self.error = None;
        }
        proof {
            if old(self)@.valid() {
                removing_keeps_validity(old(self)@, view_id@);
            }
        }
        found
    }

    /// Whether a union can be made of the draft: two inputs at least, not too
    /// many, none of them twice, and not the union itself.
    pub fn validate_for_create(&self, union_view_id: &str) -> (r: Result<(), String>)
        ensures
            match r {
                Ok(_) => self@.fault(union_view_id@) is None,
                Err(error) => self@.fault(union_view_id@) == Some(error@),
            },
    {
        if self.inputs.len() < 2 {
            return Err("a union needs at least two input views".to_owned());
        }
        if self.inputs.len() > MAX_UNION_DIALOG_INPUTS {
            return Err("a union takes at most 8 input views".to_owned());
        }
        validate_union_ids(union_view_id, &self.inputs)
    }

    /// Whether the inputs depend on the union itself, by what a lookup says that
    /// unions are made of; each view is looked up once. Too large a graph is
    /// refused.
    pub fn validate_no_cycle<F: Fn(&str) -> Option<Vec<String>>>(
        &self,
        union_view_id: &str,
        resolve: F,
    ) -> (r: Result<(), String>)
        requires
            forall|id: &str| resolve.requires((id,)),
        ensures
            exists|graph: spec_fn(Seq<char>) -> Option<Seq<Seq<char>>>| #[trigger]
                answered(resolve, graph, seen_by(graph, union_view_id@, self@.inputs, seq![]))
                    && is_told(
                    r,
                    search(graph, union_view_id@, self@.inputs, seq![]),
                    union_view_id@,
                ),
            forall|graph: spec_fn(Seq<char>) -> Option<Seq<Seq<char>>>| #[trigger]
                depicts(resolve, graph) ==> is_told(
                    r,
                    search(graph, union_view_id@, self@.inputs, seq![]),
                    union_view_id@,
                ),
    {
        let mut visited: Vec<String> = Vec::new();
        let mut work: Vec<String> = copy_texts(&self.inputs);
        let ghost start = self@.inputs;
        let ghost mut known: Map<Seq<char>, Option<Seq<Seq<char>>>> = Map::empty();
        assert(texts(visited@) =~= seq![]);
        while work.len() > 0
            invariant
                forall|id: &str| resolve.requires((id,)),
                start == self@.inputs,
                visited@.len() <= MAX_VISITED,
                forall|id: Seq<char>| #[trigger]
                    known.contains_key(id) ==> listed(resolve, id, known[id]) && texts(
                        visited@,
                    ).contains(id),
                forall|i: int|
                    0 <= i < visited@.len() ==> known.contains_key(#[trigger] texts(visited@)[i]),
                forall|graph: spec_fn(Seq<char>) -> Option<Seq<Seq<char>>>| #[trigger]
                    extends(graph, known) ==> search(graph, union_view_id@, start, seq![])
                        == search(graph, union_view_id@, texts(work@), texts(visited@))
                        && seen_by(graph, union_view_id@, start, seq![]) == seen_by(
                        graph,
                        union_view_id@,
                        texts(work@),
                        texts(visited@),
                    ),
            decreases MAX_VISITED + 1 - visited@.len(), work@.len(),
        {
            let ghost before = texts(work@);
            let ghost seen = texts(visited@);
            let next = match work.pop() {
                Some(next) => next,
                None => {
                    return Ok(());
                },
            };
            assert(before.last() == next@);
            assert(texts(work@) =~= before.drop_last());
            if same(next.as_str(), union_view_id) {
                proof {
                    search_is_over(
                        resolve,
                        union_view_id@,
                        start,
                        seen,
                        known,
                        Some(Cycle::Reached),
                    );
                }
                return Err(quoted("union inputs reach back to '", union_view_id, "'"));
            }
            if holds_text(&visited, next.as_str()) {
                continue ;
            }
            if visited.len() >= MAX_VISITED {
                proof {
                    search_is_over(
                        resolve,
                        union_view_id@,
                        start,
                        seen,
                        known,
                        Some(Cycle::TooMany),
                    );
                }
                return Err("dependency graph exceeds 64 views; refusing the union".to_owned());
            }
            let found = resolve(next.as_str());
            let ghost rest = texts(work@);
            let ghost answer = some_list(found);
            let ghost older = known;
            proof {
                assert(listed(resolve, next@, answer));
                known = known.insert(next@, answer);
            }
            if let Some(inputs) = found {
                extend_work(&mut work, inputs);
            }
            visited.push(next);
            proof {
                assert(texts(visited@) =~= seen.push(next@));
                assert(texts(visited@).last() == next@);
                assert forall|id: Seq<char>| #[trigger] known.contains_key(id) implies listed(
                    resolve,
                    id,
                    known[id],
                ) && texts(visited@).contains(id) by {
                    if id != next@ {
                        assert(older.contains_key(id));
                        let k = choose|k: int| 0 <= k < seen.len() && seen[k] == id;
                        assert(texts(visited@)[k] == id);
                    }
                }
                assert forall|i: int| 0 <= i < visited@.len() implies known.contains_key(
                    #[trigger] texts(visited@)[i],
                ) by {
                    if i < seen.len() {
                        assert(older.contains_key(seen[i]));
                    }
                }
                assert forall|graph: spec_fn(Seq<char>) -> Option<Seq<Seq<char>>>| #[trigger]
                    extends(graph, known) implies search(graph, union_view_id@, start, seq![])
                    == search(graph, union_view_id@, texts(work@), texts(visited@)) && seen_by(
                    graph,
                    union_view_id@,
                    start,
                    seq![],
                ) == seen_by(graph, union_view_id@, texts(work@), texts(visited@)) by {
                    assert forall|id: Seq<char>| #[trigger] older.contains_key(id) implies graph(id)
                        == older[id] by {
                        assert(seen.contains(id));
                        assert(known.contains_key(id));
                    }
                    assert(extends(graph, older));
                    assert(known.contains_key(next@));
                    assert(texts(work@) =~= rest + edges(graph, next@));
                }
            }
        }
        assert(texts(work@).len() == 0);
        proof {
            search_is_over(resolve, union_view_id@, start, texts(visited@), known, None);
        }
        Ok(())
    }

    /// Accepts the draft with the revisions its inputs have now.
    pub fn accept<F: Fn(&str) -> Option<u64>>(
        &mut self,
        union_view_id: &str,
        revision: u64,
        current_revision: F,
    ) -> (r: Result<AcceptedUnion, String>)
        requires
            forall|id: &str| current_revision.requires((id,)),
        ensures
            old(self)@.fault(union_view_id@) matches Some(fault) ==> final(self)@ == old(self)@ && (
            r matches Err(error) && error@ == fault),
            old(self)@.fault(union_view_id@) is None ==> match r {
                Ok(union) => {
                    &&& union.union_view_id@ == union_view_id@
                    &&& union.revision == revision
                    &&& union.inputs@.len() == old(self)@.inputs.len()
                    &&& forall|i: int|
                        0 <= i < union.inputs@.len() ==> (#[trigger] union.inputs@[i]).view_id@
                            == old(self)@.inputs[i] && gave(
                            current_revision,
                            old(self)@.inputs[i],
                            Some(union.inputs@[i].accepted_revision),
                        )
                    &&& final(self)@ == (UnionDraft { error: None, pending: None, ..old(self)@ })
                },
                Err(error) => {
                    &&& exists|i: int|
                        0 <= i < old(self)@.inputs.len() && is_first_missing(
                            current_revision,
                            old(self)@.inputs,
                            i,
                        ) && error@ == "input view '"@ + #[trigger] old(self)@.inputs[i]
                            + "' is unavailable"@
                    &&& final(self)@ == (UnionDraft { error: Some(error@), ..old(self)@ })
                },
            },
            forall|revisions: spec_fn(Seq<char>) -> Option<u64>| #[trigger]
                reports(current_revision, revisions) ==> {
                    let (draft, result) = old(self)@.accepted(union_view_id@, revisions);
                    &&& final(self)@ == draft
                    &&& match r {
                        Ok(union) => union.union_view_id@ == union_view_id@ && union.revision
                            == revision && result == Ok::<Seq<(Seq<char>, u64)>, Seq<char>>(
                            fences(union.inputs@),
                        ),
                        Err(error) => result == Err::<Seq<(Seq<char>, u64)>, Seq<char>>(error@),
                    }
                },
            final(self)@.inputs == old(self)@.inputs,
            final(self)@.name == old(self)@.name,
    {
        if let Err(fault) = self.validate_for_create(union_view_id) {
            return Err(fault);
        }
        let ghost all = texts(self.inputs@);
        let mut inputs: Vec<UnionInputRef> = Vec::new();
        let mut i: usize = 0;
        while i < self.inputs.len()
            invariant
                i <= self.inputs@.len(),
                *self == *old(self),
                all == texts(self.inputs@),
                inputs@.len() == i,
                self@.fault(union_view_id@) is None,
                forall|j: int|
                    0 <= j < i ==> (#[trigger] inputs@[j]).view_id@ == all[j] && gave(
                        current_revision,
                        all[j],
                        Some(inputs@[j].accepted_revision),
                    ),
                forall|id: &str| current_revision.requires((id,)),
                forall|revisions: spec_fn(Seq<char>) -> Option<u64>| #[trigger]
                    reports(current_revision, revisions) ==> first_missing(all, revisions, 0)
                        == first_missing(all, revisions, i as int) && forall|j: int|
                        0 <= j < i ==> (#[trigger] fences(inputs@)[j]) == (
                            all[j],
                            revisions(all[j])->0,
                        ),
            decreases self.inputs.len() - i,
        {
            let id = &self.inputs[i];
            assert(all[i as int] == id@);
            let ghost before = inputs@;
            let answer = current_revision(id.as_str());
            assert(gave(current_revision, all[i as int], answer));
            match answer {
                Some(accepted_revision) => {
                    inputs.push(UnionInputRef { view_id: id.clone(), accepted_revision });
                    proof {
                        assert forall|revisions: spec_fn(Seq<char>) -> Option<u64>| #[trigger]
                            reports(current_revision, revisions) implies first_missing(
                            all,
                            revisions,
                            0,
                        ) == first_missing(all, revisions, i + 1) && forall|j: int|
                            0 <= j < i + 1 ==> (#[trigger] fences(inputs@)[j]) == (
                                all[j],
                                revisions(all[j])->0,
                            ) by {
                            assert forall|j: int| 0 <= j < i + 1 implies (#[trigger] fences(
                                inputs@,
                            )[j]) == (all[j], revisions(all[j])->0) by {
                                if j < i {
                                    assert(fences(before)[j] == fences(inputs@)[j]);
                                }
                            }
                        }
                    }
                },
                None => {
                    let message = quoted("input view '", id.as_str(), "' is unavailable");
                    proof {
                        assert forall|j: int| 0 <= j < i implies gave_some(
                            current_revision,
                            #[trigger] all[j],
                        ) by {
                            assert(gave(
                                current_revision,
                                all[j],
                                Some(inputs@[j].accepted_revision),
                            ));
                        }
                        assert(is_first_missing(current_revision, all, i as int));
                    }
                    self.error = Some(message.clone());
                    return Err(message);
                },
            }
            i += 1;
        }
        self.error = None;
        self.pending_generation = None;
        proof {
            assert forall|revisions: spec_fn(Seq<char>) -> Option<u64>| #[trigger]
                reports(current_revision, revisions) implies fences(inputs@) == all.map_values(
                |id: Seq<char>| (id, revisions(id)->0),
            ) by {
                assert(fences(inputs@) =~= all.map_values(
                    |id: Seq<char>| (id, revisions(id)->0),
                ));
            }
        }
        Ok(AcceptedUnion { union_view_id: union_view_id.to_owned(), inputs, revision })
    }

    /// Records a refusal; the draft stays as it is.
    pub fn reject_candidate(&mut self, message: String)
        ensures
            final(self)@ == old(self)@.rejected(message@),
    {
        self.error = Some(message);
        self.pending_generation = None;
    }

    /// Marks a submission under way, unless one is.
    pub fn mark_pending(&mut self, generation: u64) -> (r: bool)
        ensures
            (final(self)@, r) == old(self)@.submitted(generation),
    {
        if self.pending_generation.is_some() {
            return false;
        }
        self.pending_generation = Some(generation);
        true
    }

    /// Whether an input of an accepted union has another revision by now, or is
    /// gone.
    pub fn accepted_is_stale<F: Fn(&str) -> Option<u64>>(
        accepted: &AcceptedUnion,
        current_revision: F,
    ) -> (r: bool)
        requires
            forall|id: &str| current_revision.requires((id,)),
        ensures
            r ==> exists|i: int, answer: Option<u64>|
                0 <= i < accepted.inputs@.len() && answer != Some(
                    accepted.inputs@[i].accepted_revision,
                ) && #[trigger] gave(current_revision, accepted.inputs@[i].view_id@, answer),
            !r ==> forall|i: int|
                0 <= i < accepted.inputs@.len() ==> gave(
                    current_revision,
                    (#[trigger] accepted.inputs@[i]).view_id@,
                    Some(accepted.inputs@[i].accepted_revision),
                ),
            forall|revisions: spec_fn(Seq<char>) -> Option<u64>| #[trigger]
                reports(current_revision, revisions) ==> r == is_stale(
                    fences(accepted.inputs@),
                    revisions,
                ),
    {
        let ghost all = fences(accepted.inputs@);
        let mut i: usize = 0;
        while i < accepted.inputs.len()
            invariant
                i <= accepted.inputs@.len(),
                all == fences(accepted.inputs@),
                forall|id: &str| current_revision.requires((id,)),
                forall|revisions: spec_fn(Seq<char>) -> Option<u64>, j: int|
                    reports(current_revision, revisions) && 0 <= j < i ==> #[trigger] revisions(
                        all[j].0,
                    ) == Some(all[j].1),
                forall|j: int|
                    0 <= j < i ==> gave(
                        current_revision,
                        (#[trigger] accepted.inputs@[j]).view_id@,
                        Some(accepted.inputs@[j].accepted_revision),
                    ),
            decreases accepted.inputs.len() - i,
        {
            let input = &accepted.inputs[i];
            assert(all[i as int] == (input.view_id@, input.accepted_revision));
            let answer = current_revision(input.view_id.as_str());
            assert(gave(current_revision, accepted.inputs@[i as int].view_id@, answer));
            let current = match answer {
                Some(revision) => revision == input.accepted_revision,
                None => false,
            };
            if !current {
                proof {
                    assert forall|revisions: spec_fn(Seq<char>) -> Option<u64>| #[trigger]
                        reports(current_revision, revisions) implies is_stale(all, revisions) by {
                        assert(revisions(all[i as int].0) != Some(all[i as int].1));
                    }
                }
                return true;
            }
            i += 1;
        }
        false
    }
}

/// An input moved on from the revision that it is fenced on, or is gone.
pub open spec fn is_stale(
    inputs: Seq<(Seq<char>, u64)>,
    revisions: spec_fn(Seq<char>) -> Option<u64>,
) -> bool {
    exists|i: int| 0 <= i < inputs.len() && #[trigger] revisions(inputs[i].0) != Some(inputs[i].1)
}

proof fn adding_keeps_validity(draft: UnionDraft, id: Seq<char>)
    requires
        draft.valid(),
    ensures
        draft.added(id).valid(),
{
}

proof fn without_members(list: Seq<Seq<char>>, id: Seq<char>)
    ensures
        without(list, id).len() <= list.len(),
        !without(list, id).contains(id),
        forall|x: Seq<char>| x != id ==> #[trigger] without(list, id).contains(x) == list.contains(x),
        list.no_duplicates() ==> without(list, id).no_duplicates(),
    decreases list.len(),
{
    if list.len() > 0 {
        let rest = list.drop_last();
        let kept = without(rest, id);
        without_members(rest, id);
        assert(list =~= rest.push(list.last()));
        assert forall|x: Seq<char>| x != id implies #[trigger] without(list, id).contains(x)
            == list.contains(x) by {
            assert(kept.contains(x) == rest.contains(x));
            if list.contains(x) {
                let i = choose|i: int| 0 <= i < list.len() && list[i] == x;
                if i < rest.len() {
                    assert(rest[i] == x);
                    assert(rest.contains(x));
                    let k = choose|k: int| 0 <= k < kept.len() && kept[k] == x;
                    assert(without(list, id)[k] == x);
                } else {
                    assert(without(list, id).last() == x);
                }
            }
            if without(list, id).contains(x) {
                let k = choose|k: int|
                    0 <= k < without(list, id).len() && without(list, id)[k] == x;
                if k < kept.len() {
                    assert(kept[k] == x);
                    assert(kept.contains(x));
                    let i = choose|i: int| 0 <= i < rest.len() && rest[i] == x;
                    assert(list[i] == x);
                } else {
                    assert(list.last() == x);
                }
            }
        }
        if list.no_duplicates() {
            assert(rest.no_duplicates());
            if list.last() != id {
                let last = list.last();
                assert(kept.contains(last) == rest.contains(last));
                assert(!rest.contains(last));
                assert(kept.push(last).no_duplicates()) by {
                    assert forall|i: int, j: int|
                        0 <= i < kept.len() + 1 && 0 <= j < kept.len() + 1 && i
                            != j implies kept.push(last)[i] != kept.push(last)[j] by {
                        if i < kept.len() {
                            assert(kept.contains(kept[i]));
                        }
                        if j < kept.len() {
                            assert(kept.contains(kept[j]));
                        }
                    }
                }
            }
        }
    }
}

proof fn removing_nothing(list: Seq<Seq<char>>, id: Seq<char>)
    requires
        !list.contains(id),
    ensures
        without(list, id) == list,
    decreases list.len(),
{
    if list.len() > 0 {
        assert(list.last() != id);
        assert(!list.drop_last().contains(id)) by {
            if list.drop_last().contains(id) {
                let i = choose|i: int| 0 <= i < list.len() - 1 && list.drop_last()[i] == id;
                assert(list[i] == id);
            }
        }
        removing_nothing(list.drop_last(), id);
        assert(list =~= list.drop_last().push(list.last()));
    } else {
        assert(list =~= seq![]);
    }
}

proof fn removing_keeps_validity(draft: UnionDraft, id: Seq<char>)
    requires
        draft.valid(),
    ensures
        draft.removed(id).valid(),
{
    if draft.inputs.contains(id) {
        without_members(draft.inputs, id);
        let list = without(draft.inputs, id);
        assert forall|i: int| 0 <= i < list.len() implies is_identity(#[trigger] list[i]) by {
            assert(list.contains(list[i]));
            assert(draft.inputs.contains(list[i]));
        }
    }
}

/// A refused candidate leaves the inputs and the name as they are, and whatever
/// was under way is over.
pub proof fn rejection_keeps_the_draft(draft: UnionDraft, message: Seq<char>)
    ensures
        draft.rejected(message).inputs == draft.inputs,
        draft.rejected(message).name == draft.name,
        draft.rejected(message).error == Some(message),
        draft.rejected(message).pending is None,
        draft.valid() ==> draft.rejected(message).valid(),
{
}

/// While one submission is under way there is no second one.
pub proof fn one_submission_at_a_time(draft: UnionDraft, first: u64, second: u64)
    ensures
        draft.submitted(first).0.submitted(second) == (draft.submitted(first).0, false),
        draft.pending is None ==> draft.submitted(first).1 && draft.submitted(first).0.pending
            == Some(first),
{
}

/// A view that was added and taken out again leaves the inputs as they were.
pub proof fn removal_undoes_adding(draft: UnionDraft, id: Seq<char>)
    requires
        draft.refusal(id) is None,
    ensures
        draft.added(id).inputs.contains(id),
        draft.added(id).removed(id).inputs == draft.inputs,
{
    let list = draft.inputs.push(id);
    assert(list.last() == id);
    assert(list.drop_last() =~= draft.inputs);
    removing_nothing(draft.inputs, id);
}

proof fn fault_of_distinct(union_id: Seq<char>, inputs: Seq<Seq<char>>, from: int)
    requires
        0 <= from,
    ensures
        inputs.no_duplicates() && !inputs.contains(union_id) ==> list_fault(
            union_id,
            inputs,
            from,
        ) is None,
        list_fault(union_id, inputs, from) is None ==> forall|i: int|
            from <= i < inputs.len() ==> (#[trigger] inputs[i]) != union_id && !inputs.take(
                i,
            ).contains(inputs[i]),
    decreases inputs.len() - from,
{
    if from < inputs.len() {
        fault_of_distinct(union_id, inputs, from + 1);
        if inputs.no_duplicates() && inputs.take(from).contains(inputs[from]) {
            let i = choose|i: int| 0 <= i < from && inputs.take(from)[i] == inputs[from];
            assert(inputs[i] == inputs[from]);
        }
    }
}

/// A union can be made of a valid draft if and only if it has two inputs at
/// least and the union is none of them.
pub proof fn sound_draft_is_accepted(draft: UnionDraft, union_id: Seq<char>)
    requires
        draft.valid(),
    ensures
        draft.fault(union_id) is None <==> draft.inputs.len() >= 2 && !draft.inputs.contains(
            union_id,
        ),
{
    fault_of_distinct(union_id, draft.inputs, 0);
    if draft.fault(union_id) is None && draft.inputs.contains(union_id) {
        let i = choose|i: int| 0 <= i < draft.inputs.len() && draft.inputs[i] == union_id;
        assert(draft.inputs[i] != union_id);
    }
}

proof fn none_missing(
    inputs: Seq<Seq<char>>,
    revisions: spec_fn(Seq<char>) -> Option<u64>,
    from: int,
)
    requires
        from >= 0,
        first_missing(inputs, revisions, from) is None,
    ensures
        forall|i: int| from <= i < inputs.len() ==> revisions(#[trigger] inputs[i]) is Some,
    decreases inputs.len() - from,
{
    if from < inputs.len() {
        none_missing(inputs, revisions, from + 1);
    }
}

/// A union that was just accepted is not stale, and it keeps the order of the
/// draft.
pub proof fn fresh_union_is_current(
    draft: UnionDraft,
    union_id: Seq<char>,
    revisions: spec_fn(Seq<char>) -> Option<u64>,
)
    ensures
        draft.accepted(union_id, revisions).1 matches Ok(inputs) ==> !is_stale(inputs, revisions)
            && inputs.map_values(|input: (Seq<char>, u64)| input.0) == draft.inputs,
{
    if let Ok(inputs) = draft.accepted(union_id, revisions).1 {
        none_missing(draft.inputs, revisions, 0);
        assert(inputs.map_values(|input: (Seq<char>, u64)| input.0) =~= draft.inputs);
    }
}

/// An input that has moved on or is gone makes the union stale.
pub proof fn moved_input_is_stale(
    inputs: Seq<(Seq<char>, u64)>,
    revisions: spec_fn(Seq<char>) -> Option<u64>,
    i: int,
)
    requires
        0 <= i < inputs.len(),
        revisions(inputs[i].0) != Some(inputs[i].1),
    ensures
        is_stale(inputs, revisions),
{
}

/// A way through the graph from one of the starting views.
pub open spec fn is_path(
    graph: spec_fn(Seq<char>) -> Option<Seq<Seq<char>>>,
    start: Seq<Seq<char>>,
    path: Seq<Seq<char>>,
) -> bool {
    &&& path.len() > 0
    &&& start.contains(path[0])
    &&& forall|i: int|
        0 <= i < path.len() - 1 ==> edges(graph, #[trigger] path[i]).contains(path[i + 1])
}

/// A view that the starting views depend on.
pub open spec fn reachable(
    graph: spec_fn(Seq<char>) -> Option<Seq<Seq<char>>>,
    start: Seq<Seq<char>>,
    id: Seq<char>,
) -> bool {
    exists|path: Seq<Seq<char>>| #[trigger] is_path(graph, start, path) && path.last() == id
}

/// Every input of these views is one of these or of those.
spec fn closes(
    graph: spec_fn(Seq<char>) -> Option<Seq<Seq<char>>>,
    these: Seq<Seq<char>>,
    those: Seq<Seq<char>>,
) -> bool {
    forall|x: Seq<char>, y: Seq<char>|
        these.contains(x) && #[trigger] edges(graph, x).contains(y) ==> these.contains(y)
            || those.contains(y)
}

/// A search that finds nothing has seen everything.
proof fn quiet_search(
    graph: spec_fn(Seq<char>) -> Option<Seq<Seq<char>>>,
    union_id: Seq<char>,
    work: Seq<Seq<char>>,
    visited: Seq<Seq<char>>,
) -> (seen: Seq<Seq<char>>)
    requires
        search(graph, union_id, work, visited) is None,
        closes(graph, visited, work),
        !visited.contains(union_id),
        visited.len() <= MAX_VISITED,
    ensures
        seen.len() <= MAX_VISITED,
        !seen.contains(union_id),
        closes(graph, seen, seq![]),
        forall|x: Seq<char>| visited.contains(x) || work.contains(x) ==> seen.contains(x),
    decreases MAX_VISITED + 1 - visited.len(), work.len(),
{
    if work.len() == 0 {
        visited
    } else {
        let next = work.last();
        let rest = work.drop_last();
        assert(work =~= rest.push(next));
        assert forall|x: Seq<char>| work.contains(x) implies rest.contains(x) || x == next by {
            let i = choose|i: int| 0 <= i < work.len() && work[i] == x;
            if i < rest.len() {
                assert(rest[i] == x);
            }
        }
        if visited.contains(next) {
            quiet_search(graph, union_id, rest, visited)
        } else {
            let more = edges(graph, next);
            let wider = visited.push(next);
            let longer = rest + more;
            assert forall|x: Seq<char>| wider.contains(x) implies visited.contains(x) || x
                == next by {
                let i = choose|i: int| 0 <= i < wider.len() && wider[i] == x;
                if i < visited.len() {
                    assert(visited[i] == x);
                }
            }
            assert forall|x: Seq<char>| visited.contains(x) || x == next implies wider.contains(
                x,
            ) by {
                if x == next {
                    assert(wider.last() == x);
                } else {
                    let i = choose|i: int| 0 <= i < visited.len() && visited[i] == x;
                    assert(wider[i] == x);
                }
            }
            assert forall|x: Seq<char>| rest.contains(x) || more.contains(x) implies longer.contains(
                x,
            ) by {
                if rest.contains(x) {
                    let i = choose|i: int| 0 <= i < rest.len() && rest[i] == x;
                    assert(longer[i] == x);
                } else {
                    let i = choose|i: int| 0 <= i < more.len() && more[i] == x;
                    assert(longer[rest.len() + i] == x);
                }
            }
            assert(closes(graph, wider, longer));
            quiet_search(graph, union_id, longer, wider)
        }
    }
}

proof fn path_stays(
    graph: spec_fn(Seq<char>) -> Option<Seq<Seq<char>>>,
    start: Seq<Seq<char>>,
    seen: Seq<Seq<char>>,
    path: Seq<Seq<char>>,
    i: int,
)
    requires
        is_path(graph, start, path),
        closes(graph, seen, seq![]),
        forall|x: Seq<char>| start.contains(x) ==> seen.contains(x),
        0 <= i < path.len(),
    ensures
        seen.contains(path[i]),
    decreases i,
{
    if i > 0 {
        path_stays(graph, start, seen, path, i - 1);
        assert(edges(graph, path[i - 1]).contains(path[i]));
        assert(!Seq::<Seq<char>>::empty().contains(path[i]));
    }
}

/// Some views are all that the starting views depend on.
pub open spec fn holds_all(
    graph: spec_fn(Seq<char>) -> Option<Seq<Seq<char>>>,
    start: Seq<Seq<char>>,
    all: Seq<Seq<char>>,
) -> bool {
    forall|id: Seq<char>| #[trigger] reachable(graph, start, id) ==> all.contains(id)
}

/// A union that passes the search depends on itself by no way, and on no more
/// views than are looked at.
pub proof fn passed_search_has_no_cycle(
    graph: spec_fn(Seq<char>) -> Option<Seq<Seq<char>>>,
    union_id: Seq<char>,
    inputs: Seq<Seq<char>>,
)
    requires
        search(graph, union_id, inputs, seq![]) is None,
    ensures
        !reachable(graph, inputs, union_id),
        exists|all: Seq<Seq<char>>| #[trigger]
            holds_all(graph, inputs, all) && all.len() <= MAX_VISITED,
{
    let seen = quiet_search(graph, union_id, inputs, seq![]);
    assert forall|id: Seq<char>| #[trigger] reachable(graph, inputs, id) implies seen.contains(
        id,
    ) by {
        let path = choose|path: Seq<Seq<char>>| #[trigger]
            is_path(graph, inputs, path) && path.last() == id;
        path_stays(graph, inputs, seen, path, path.len() - 1);
    }
    assert(holds_all(graph, inputs, seen));
}

/// What a search finds or gives up on.
proof fn loud_search(
    graph: spec_fn(Seq<char>) -> Option<Seq<Seq<char>>>,
    union_id: Seq<char>,
    start: Seq<Seq<char>>,
    work: Seq<Seq<char>>,
    visited: Seq<Seq<char>>,
) -> (many: Seq<Seq<char>>)
    requires
        forall|x: Seq<char>| work.contains(x) || visited.contains(x) ==> reachable(graph, start, x),
        visited.no_duplicates(),
        visited.len() <= MAX_VISITED,
    ensures
        search(graph, union_id, work, visited) matches Some(Cycle::Reached) ==> reachable(
            graph,
            start,
            union_id,
        ),
        search(graph, union_id, work, visited) matches Some(Cycle::TooMany) ==> many.len()
            > MAX_VISITED && many.no_duplicates() && forall|x: Seq<char>|
            many.contains(x) ==> reachable(graph, start, x),
    decreases MAX_VISITED + 1 - visited.len(), work.len(),
{
    if work.len() == 0 {
        visited
    } else {
        let next = work.last();
        let rest = work.drop_last();
        assert(work.contains(next));
        assert forall|x: Seq<char>| rest.contains(x) implies work.contains(x) by {
            let i = choose|i: int| 0 <= i < rest.len() && rest[i] == x;
            assert(work[i] == x);
        }
        let wider = visited.push(next);
        assert forall|x: Seq<char>| wider.contains(x) implies visited.contains(x) || x == next by {
            let i = choose|i: int| 0 <= i < wider.len() && wider[i] == x;
            if i < visited.len() {
                assert(visited[i] == x);
            }
        }
        if next == union_id {
            visited
        } else if visited.contains(next) {
            loud_search(graph, union_id, start, rest, visited)
        } else {
            assert(wider.no_duplicates());
            if visited.len() >= MAX_VISITED {
                wider
            } else {
                let more = edges(graph, next);
                let longer = rest + more;
                assert forall|x: Seq<char>| longer.contains(x) implies reachable(
                    graph,
                    start,
                    x,
                ) by {
                    let i = choose|i: int| 0 <= i < longer.len() && longer[i] == x;
                    if i < rest.len() {
                        assert(rest[i] == x);
                        assert(rest.contains(x));
                        assert(work.contains(x));
                    } else {
                        assert(more[i - rest.len()] == x);
                        assert(more.contains(x));
                        assert(reachable(graph, start, next));
                        let path = choose|path: Seq<Seq<char>>| #[trigger]
                            is_path(graph, start, path) && path.last() == next;
                        let further = path.push(x);
                        assert forall|k: int| 0 <= k < further.len() - 1 implies edges(
                            graph,
                            #[trigger] further[k],
                        ).contains(further[k + 1]) by {
                            if k < path.len() - 1 {
                                assert(edges(graph, path[k]).contains(path[k + 1]));
                            } else {
                                assert(further[k] == next);
                                assert(further[k + 1] == x);
                            }
                        }
                        assert(further[0] == path[0]);
                        assert(is_path(graph, start, further));
                        assert(further.last() == x);
                    }
                }
                loud_search(graph, union_id, start, longer, wider)
            }
        }
    }
}

/// A union is refused for a cycle only where it depends on itself, and for its
/// size only where it depends on more views than are looked at.
pub proof fn refused_search_has_a_reason(
    graph: spec_fn(Seq<char>) -> Option<Seq<Seq<char>>>,
    union_id: Seq<char>,
    inputs: Seq<Seq<char>>,
)
    ensures
        search(graph, union_id, inputs, seq![]) matches Some(Cycle::Reached) ==> reachable(
            graph,
            inputs,
            union_id,
        ),
        search(graph, union_id, inputs, seq![]) matches Some(Cycle::TooMany) ==> exists|
            many: Seq<Seq<char>>,
        |
            many.len() > MAX_VISITED && #[trigger] many.no_duplicates() && forall|x: Seq<char>|
                many.contains(x) ==> reachable(graph, inputs, x),
{
    assert forall|x: Seq<char>| inputs.contains(x) implies reachable(graph, inputs, x) by {
        let path = seq![x];
        assert(is_path(graph, inputs, path));
        assert(path.last() == x);
    }
    let _ = loud_search(graph, union_id, inputs, inputs, seq![]);
}

} // verus!
