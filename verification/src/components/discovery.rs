//! Discovered sources: which of them a query keeps, in which order they stand,
//! and the rows that show them.

use crate::text::{
    comes_before, contains_text, holds, lowercase, lowercase_of, order_of, text_order_is_total,
    text_order_is_transitive, TextOrder,
};
use std::time::{Duration, SystemTime, SystemTimeError};
use vstd::prelude::*;

verus! {

/// A source that was not available for longer than this is old: two weeks.
pub const OLDER_UNAVAILABLE_SECONDS: i64 = 1_209_600;

/// A group of discovered sources; groups are shown by rank.
#[derive(Clone, Copy, Debug, PartialEq, Eq, Structural)]
pub struct DiscoverySection {
    pub rank: u8,
}

/// Whether a discovered source can be opened now.
#[derive(Clone, Copy, Debug, PartialEq, Eq, Structural)]
pub enum DiscoveryAvailability {
    Available,
    NotAvailable,
}

/// A discovered source.
#[derive(Debug)]
pub struct DiscoveryItem {
    pub key: String,
    pub label: String,
    pub detail: String,
    pub status: String,
    pub section: DiscoverySection,
    pub availability: DiscoveryAvailability,
    /// When it was last active, in seconds since the epoch.
    pub recent_activity: Option<i64>,
}

/// The state of a discovery scan and of the list it fills.
#[derive(Debug)]
pub struct DiscoveryDialogState {
    pub generation: u64,
    pub query: String,
    pub items: Vec<DiscoveryItem>,
    pub selected: usize,
    pub scanning: bool,
    pub status: String,
    pub status_scroll: usize,
    pub status_scroll_limit: usize,
    pub show_older_unavailable: bool,
}

impl Default for DiscoveryDialogState {
    fn default() -> (r: DiscoveryDialogState)
        ensures
            r.generation == 0,
            r.query@ == Seq::<char>::empty(),
            r.items@ == Seq::<DiscoveryItem>::empty(),
            r.selected == 0,
            !r.scanning,
            r.status@ == Seq::<char>::empty(),
            r.status_scroll == 0,
            r.status_scroll_limit == 0,
            !r.show_older_unavailable,
    {
        DiscoveryDialogState {
            generation: 0,
            query: String::new(),
            items: Vec::new(),
            selected: 0,
            scanning: false,
            status: String::new(),
            status_scroll: 0,
            status_scroll_limit: 0,
            show_older_unavailable: false,
        }
    }
}

/// An item is old and cannot be opened.
pub open spec fn older_unavailable(item: DiscoveryItem, now: i64) -> bool {
    &&& item.availability == DiscoveryAvailability::NotAvailable
    &&& item.recent_activity is Some
    &&& now - item.recent_activity->0 > OLDER_UNAVAILABLE_SECONDS
}

/// A query in lower case occurs in a text.
pub open spec fn mentions(text: Seq<char>, query: Seq<char>) -> bool {
    holds(lowercase(text), lowercase(query))
}

/// The list keeps an item: an empty query keeps all but old unavailable items,
/// and those too where they are shown; any other query keeps the items whose
/// label, detail or status mentions it.
pub open spec fn keeps(item: DiscoveryItem, query: Seq<char>, show_older: bool, now: i64) -> bool {
    if lowercase(query).len() == 0 {
        show_older || !older_unavailable(item, now)
    } else {
        mentions(item.label@, query) || mentions(item.detail@, query) || mentions(
            item.status@,
            query,
        )
    }
}

/// One activity is more recent than another; any is more recent than none.
pub open spec fn more_recent(a: Option<i64>, b: Option<i64>) -> bool {
    match (a, b) {
        (Some(x), Some(y)) => x > y,
        (Some(_), None) => true,
        _ => false,
    }
}

/// The order of the list: by section, then the most recent first, then by label
/// whatever its case, then by key.
pub open spec fn listed_before(a: DiscoveryItem, b: DiscoveryItem) -> bool {
    if a.section != b.section {
        a.section.rank < b.section.rank
    } else if a.recent_activity != b.recent_activity {
        more_recent(a.recent_activity, b.recent_activity)
    } else if lowercase(a.label@) != lowercase(b.label@) {
        comes_before(lowercase(a.label@), lowercase(b.label@))
    } else {
        comes_before(a.key@, b.key@)
    }
}

/// The order of two items of a list, those that rank alike by their place.
pub open spec fn precedes(items: Seq<DiscoveryItem>, i: int, j: int) -> bool {
    listed_before(items[i], items[j]) || (!listed_before(items[j], items[i]) && i < j)
}

/// The items a state shows, by index: exactly those it keeps, in list order.
pub open spec fn is_filtered(
    items: Seq<DiscoveryItem>,
    query: Seq<char>,
    show_older: bool,
    now: i64,
    r: Seq<usize>,
) -> bool {
    &&& forall|i: int, j: int| 0 <= i < j < r.len() ==> precedes(items, r[i] as int, r[j] as int)
    &&& forall|k: usize|
        #[trigger] r.contains(k) <==> k < items.len() && keeps(
            items[k as int],
            query,
            show_older,
            now,
        )
}

/// The list order is asymmetric and transitive, and items that rank alike do so
/// before and behind any third.
pub proof fn list_order_is_weak(a: DiscoveryItem, b: DiscoveryItem, c: DiscoveryItem)
    ensures
        !(listed_before(a, b) && listed_before(b, a)),
        listed_before(a, b) && listed_before(b, c) ==> listed_before(a, c),
        listed_before(a, b) && !listed_before(c, b) ==> listed_before(a, c),
        !listed_before(b, a) && listed_before(b, c) ==> listed_before(a, c),
        !listed_before(b, a) && !listed_before(c, b) ==> !listed_before(c, a),
{
    let la = lowercase(a.label@);
    let lb = lowercase(b.label@);
    let lc = lowercase(c.label@);
    text_order_is_total(la, lb);
    text_order_is_total(lb, lc);
    text_order_is_total(la, lc);
    text_order_is_total(a.key@, b.key@);
    text_order_is_total(b.key@, c.key@);
    text_order_is_total(a.key@, c.key@);
    if comes_before(la, lb) && comes_before(lb, lc) {
        text_order_is_transitive(la, lb, lc);
    }
    if comes_before(lc, lb) && comes_before(lb, la) {
        text_order_is_transitive(lc, lb, la);
    }
    if comes_before(lb, lc) && comes_before(lc, la) {
        text_order_is_transitive(lb, lc, la);
    }
    if comes_before(lc, la) && comes_before(la, lb) {
        text_order_is_transitive(lc, la, lb);
    }
    if comes_before(la, lc) && comes_before(lc, lb) {
        text_order_is_transitive(la, lc, lb);
    }
    if comes_before(lb, la) && comes_before(la, lc) {
        text_order_is_transitive(lb, la, lc);
    }
    let ka = a.key@;
    let kb = b.key@;
    let kc = c.key@;
    if comes_before(ka, kb) && comes_before(kb, kc) {
        text_order_is_transitive(ka, kb, kc);
    }
    if comes_before(kc, kb) && comes_before(kb, ka) {
        text_order_is_transitive(kc, kb, ka);
    }
    if comes_before(kb, kc) && comes_before(kc, ka) {
        text_order_is_transitive(kb, kc, ka);
    }
    if comes_before(kc, ka) && comes_before(ka, kb) {
        text_order_is_transitive(kc, ka, kb);
    }
    if comes_before(ka, kc) && comes_before(kc, kb) {
        text_order_is_transitive(ka, kc, kb);
    }
    if comes_before(kb, ka) && comes_before(ka, kc) {
        text_order_is_transitive(kb, ka, kc);
    }
}

fn is_older_unavailable(item: &DiscoveryItem, now: i64) -> (r: bool)
    ensures
        r == older_unavailable(*item, now),
{
    if item.availability == DiscoveryAvailability::NotAvailable {
        match item.recent_activity {
            Some(activity) => now as i128 - activity as i128 > OLDER_UNAVAILABLE_SECONDS as i128,
            None => false,
        }
    } else {
        false
    }
}

fn is_listed_before(a: &DiscoveryItem, b: &DiscoveryItem) -> (r: bool)
    ensures
        r == listed_before(*a, *b),
{
    if a.section.rank != b.section.rank {
        return a.section.rank < b.section.rank;
    }
    match (a.recent_activity, b.recent_activity) {
        (Some(x), Some(y)) => if x != y {
            return x > y;
        },
        (Some(_), None) => return true,
        (None, Some(_)) => return false,
        (None, None) => {},
    }
    let left = lowercase_of(a.label.as_str());
    let right = lowercase_of(b.label.as_str());
    match order_of(left.as_str(), right.as_str()) {
        TextOrder::Before => {
            proof {
                text_order_is_total(left@, right@);
            }
            true
        },
        TextOrder::After => {
            proof {
                text_order_is_total(left@, right@);
            }
            false
        },
        TextOrder::Same => match order_of(a.key.as_str(), b.key.as_str()) {
            TextOrder::Before => true,
            _ => false,
        },
    }
}

fn is_kept(item: &DiscoveryItem, query: &str, lower: &str, show_older: bool, now: i64) -> (r: bool)
    requires
        lower@ == lowercase(query@),
    ensures
        r == keeps(*item, query@, show_older, now),
{
    if lower.is_empty() {
        show_older || !is_older_unavailable(item, now)
    } else {
        contains_text(lowercase_of(item.label.as_str()).as_str(), lower) || contains_text(
            lowercase_of(item.detail.as_str()).as_str(),
            lower,
        ) || contains_text(lowercase_of(item.status.as_str()).as_str(), lower)
    }
}

/// Puts an index behind all it does not precede.
fn place_index(items: &Vec<DiscoveryItem>, sorted: &mut Vec<usize>, index: usize)
    requires
        index < items@.len(),
        forall|i: int| 0 <= i < old(sorted)@.len() ==> #[trigger] old(sorted)@[i] < index,
        forall|i: int, j: int|
            0 <= i < j < old(sorted)@.len() ==> precedes(
                items@,
                old(sorted)@[i] as int,
                old(sorted)@[j] as int,
            ),
    ensures
        forall|i: int, j: int|
            0 <= i < j < final(sorted)@.len() ==> precedes(
                items@,
                final(sorted)@[i] as int,
                final(sorted)@[j] as int,
            ),
        forall|i: int| 0 <= i < final(sorted)@.len() ==> #[trigger] final(sorted)@[i] <= index,
        forall|k: usize|
            final(sorted)@.contains(k) <==> old(sorted)@.contains(k) || k == index,
{
    let ghost before = sorted@;
    let mut at: usize = sorted.len();
    while at > 0 && is_listed_before(&items[index], &items[sorted[at - 1]])
        invariant
            at <= sorted@.len(),
            sorted@ == before,
            index < items@.len(),
            forall|i: int| 0 <= i < before.len() ==> #[trigger] before[i] < index,
            forall|i: int, j: int|
                0 <= i < j < before.len() ==> precedes(items@, before[i] as int, before[j] as int),
            forall|i: int|
                at <= i < before.len() ==> listed_before(
                    items@[index as int],
                    items@[#[trigger] before[i] as int],
                ),
        decreases at,
    {
        at -= 1;
    }
    proof {
        assert forall|i: int| 0 <= i < at implies precedes(
            items@,
            #[trigger] before[i] as int,
            index as int,
        ) by {
            let last = before[at - 1] as int;
            let this = before[i] as int;
            list_order_is_weak(items@[this], items@[last], items@[index as int]);
            if i < at - 1 {
                assert(precedes(items@, this, last));
            }
        }
    }
    sorted.insert(at, index);
    proof {
        let after = sorted@;
        assert(after =~= before.insert(at as int, index));
        assert forall|i: int, j: int| 0 <= i < j < after.len() implies precedes(
            items@,
            after[i] as int,
            after[j] as int,
        ) by {
            if i == at {
                assert(after[j] == before[j - 1]);
            } else if j == at {
                assert(after[i] == before[i]);
            } else {
                let bi = if i < at { i } else { i - 1 };
                let bj = if j < at { j } else { j - 1 };
                assert(after[i] == before[bi]);
                assert(after[j] == before[bj]);
            }
        }
        assert forall|k: usize| after.contains(k) <==> before.contains(k) || k == index by {
            if before.contains(k) {
                let p = choose|p: int| 0 <= p < before.len() && before[p] == k;
                assert(after[if p < at { p } else { p + 1 }] == k);
            }
            if k == index {
                assert(after[at as int] == k);
            }
            if after.contains(k) && k != index {
                let p = choose|p: int| 0 <= p < after.len() && after[p] == k;
                assert(before[if p < at { p } else { p - 1 }] == k);
            }
        }
        assert forall|i: int| 0 <= i < after.len() implies #[trigger] after[i] <= index by {
            if i < at {
                assert(after[i] == before[i]);
            } else if i > at {
                assert(after[i] == before[i - 1]);
            }
        }
    }
}

/// The items a state shows at a point in time.
pub fn filtered_at(state: &DiscoveryDialogState, now: i64) -> (r: Vec<usize>)
    ensures
        is_filtered(state.items@, state.query@, state.show_older_unavailable, now, r@),
{
    let lower = lowercase_of(state.query.as_str());
    let mut out: Vec<usize> = Vec::new();
    let mut i: usize = 0;
    while i < state.items.len()
        invariant
            i <= state.items@.len(),
            lower@ == lowercase(state.query@),
            forall|p: int| 0 <= p < out@.len() ==> #[trigger] out@[p] < i,
            forall|p: int, q: int|
                0 <= p < q < out@.len() ==> precedes(state.items@, out@[p] as int, out@[q] as int),
            forall|k: usize|
                #[trigger] out@.contains(k) <==> k < i && keeps(
                    state.items@[k as int],
                    state.query@,
                    state.show_older_unavailable,
                    now,
                ),
        decreases state.items.len() - i,
    {
        if is_kept(
            &state.items[i],
            state.query.as_str(),
            lower.as_str(),
            state.show_older_unavailable,
            now,
        ) {
            place_index(&state.items, &mut out, i);
        }
        i += 1;
    }
    out
}

#[verifier::external_type_specification]
#[verifier::external_body]
pub struct ExSystemTime(SystemTime);

#[verifier::external_type_specification]
#[verifier::external_body]
pub struct ExSystemTimeError(SystemTimeError);

/// `SystemTime::now` reads the clock; nothing is claimed of what it shows.
pub assume_specification[ SystemTime::now ]() -> SystemTime;

/// `SystemTime::duration_since` fails where the other time is later; nothing is
/// claimed of the span.
pub assume_specification[ SystemTime::duration_since ](time: &SystemTime, earlier: SystemTime) -> Result<
    Duration,
    SystemTimeError,
>;

/// `Duration::as_secs` gives whole seconds; nothing is claimed of how many.
pub assume_specification[ Duration::as_secs ](span: &Duration) -> u64;

/// The start of the epoch, `SystemTime::UNIX_EPOCH`.
#[verifier::external_body]
fn unix_epoch() -> SystemTime {
    SystemTime::UNIX_EPOCH
}

/// The seconds since the epoch by the machine's clock; none where the clock
/// stands before it.
pub fn discovery_now() -> (r: i64)
    ensures
        r >= 0,
{
    match SystemTime::now().duration_since(unix_epoch()) {
        Ok(span) => {
            let seconds: u64 = span.as_secs();
            if seconds <= 0x7fff_ffff_ffff_ffff {
                seconds as i64
            } else {
                i64::MAX
            }
        },
        Err(_) => 0,
    }
}

/// The items a state shows now.
pub fn filtered_discovery_indices(state: &DiscoveryDialogState) -> (r: Vec<usize>)
    ensures
        exists|now: i64|
            now >= 0 && #[trigger] is_filtered(
                state.items@,
                state.query@,
                state.show_older_unavailable,
                now,
                r@,
            ),
{
    let now: i64 = discovery_now();
    filtered_at(state, now)
}

/// A row of the list.
#[derive(Clone, Copy, Debug, PartialEq, Eq, Structural)]
pub enum DiscoveryDisplayRow {
    Heading(DiscoverySection),
    Candidate { item: usize, selection: usize },
    OlderUnavailable(usize),
}

/// How many of the first `n` items are old and unavailable.
pub open spec fn older_count(items: Seq<DiscoveryItem>, now: i64, n: int) -> int
    decreases n,
{
    if n <= 0 {
        0
    } else {
        older_count(items, now, n - 1) + if older_unavailable(items[n - 1], now) {
            1int
        } else {
            0
        }
    }
}

/// The row that shows or hides old unavailable items, where there are any and
/// no query is set.
pub open spec fn older_row(
    items: Seq<DiscoveryItem>,
    query: Seq<char>,
    show_older: bool,
    now: i64,
) -> Seq<DiscoveryDisplayRow> {
    let count = older_count(items, now, items.len() as int);
    if query.len() > 0 || count == 0 {
        seq![]
    } else if show_older {
        seq![DiscoveryDisplayRow::OlderUnavailable(0)]
    } else {
        seq![DiscoveryDisplayRow::OlderUnavailable(count as usize)]
    }
}

/// The rows of the first `n` shown items: a heading where the section changes,
/// and the item behind it.
pub open spec fn candidate_rows(
    items: Seq<DiscoveryItem>,
    indices: Seq<usize>,
    n: int,
) -> Seq<DiscoveryDisplayRow>
    decreases n,
{
    if n <= 0 {
        seq![]
    } else {
        let item = indices[n - 1];
        let section = items[item as int].section;
        let before = candidate_rows(items, indices, n - 1);
        let headed = if n == 1 || items[indices[n - 2] as int].section != section {
            before.push(DiscoveryDisplayRow::Heading(section))
        } else {
            before
        };
        headed.push(DiscoveryDisplayRow::Candidate { item, selection: (n - 1) as usize })
    }
}

fn count_older(state: &DiscoveryDialogState, now: i64) -> (r: usize)
    ensures
        r == older_count(state.items@, now, state.items@.len() as int),
{
    let mut count: usize = 0;
    let mut i: usize = 0;
    while i < state.items.len()
        invariant
            i <= state.items@.len(),
            count <= i,
            count == older_count(state.items@, now, i as int),
        decreases state.items.len() - i,
    {
        if is_older_unavailable(&state.items[i], now) {
            count += 1;
        }
        i += 1;
    }
    count
}

/// How many old unavailable items are hidden for want of a query or a request
/// to show them.
pub fn hidden_older_unavailable(state: &DiscoveryDialogState, now: i64) -> (r: usize)
    ensures
        r == if state.show_older_unavailable || state.query@.len() > 0 {
            0
        } else {
            older_count(state.items@, now, state.items@.len() as int)
        },
{
    if state.show_older_unavailable || !state.query.as_str().is_empty() {
        return 0;
    }
    count_older(state, now)
}

/// The rows that show the given items of a state.
pub fn discovery_display_rows(state: &DiscoveryDialogState, indices: &Vec<usize>, now: i64) -> (r:
    Vec<DiscoveryDisplayRow>)
    requires
        forall|i: int| 0 <= i < indices@.len() ==> #[trigger] indices@[i] < state.items@.len(),
    ensures
        r@ == older_row(state.items@, state.query@, state.show_older_unavailable, now)
            + candidate_rows(state.items@, indices@, indices@.len() as int),
{
    let mut rows: Vec<DiscoveryDisplayRow> = Vec::new();
    let hidden: usize = hidden_older_unavailable(state, now);
    if hidden > 0 {
        rows.push(DiscoveryDisplayRow::OlderUnavailable(hidden));
    } else if state.show_older_unavailable && state.query.as_str().is_empty() && count_older(
        state,
        now,
    ) > 0 {
        rows.push(DiscoveryDisplayRow::OlderUnavailable(0));
    }
    let ghost first = older_row(state.items@, state.query@, state.show_older_unavailable, now);
    assert(rows@ =~= first);
    let mut n: usize = 0;
    while n < indices.len()
        invariant
            n <= indices@.len(),
            forall|i: int| 0 <= i < indices@.len() ==> #[trigger] indices@[i] < state.items@.len(),
            rows@ =~= first + candidate_rows(state.items@, indices@, n as int),
        decreases indices.len() - n,
    {
        let item: usize = indices[n];
        let section = state.items[item].section;
        if n == 0 || state.items[indices[n - 1]].section.rank != section.rank {
            rows.push(DiscoveryDisplayRow::Heading(section));
        }
        rows.push(DiscoveryDisplayRow::Candidate { item, selection: n });
        n += 1;
    }
    rows
}

/// Whether two lists of shown items are filtered alike, they are the same list.
pub proof fn filtered_is_unique(
    items: Seq<DiscoveryItem>,
    query: Seq<char>,
    show_older: bool,
    now: i64,
    a: Seq<usize>,
    b: Seq<usize>,
)
    requires
        is_filtered(items, query, show_older, now, a),
        is_filtered(items, query, show_older, now, b),
    ensures
        a == b,
    decreases a.len(),
{
    assert forall|k: usize| a.contains(k) <==> b.contains(k) by {}
    ordered_lists_agree(items, a, b);
}

proof fn ordered_lists_agree(items: Seq<DiscoveryItem>, a: Seq<usize>, b: Seq<usize>)
    requires
        forall|i: int, j: int| 0 <= i < j < a.len() ==> precedes(items, a[i] as int, a[j] as int),
        forall|i: int, j: int| 0 <= i < j < b.len() ==> precedes(items, b[i] as int, b[j] as int),
        forall|k: usize| a.contains(k) <==> b.contains(k),
    ensures
        a == b,
    decreases a.len(),
{
    if a.len() == 0 {
        if b.len() > 0 {
            assert(b.contains(b[0]));
            assert(a.contains(b[0]));
        }
        assert(a =~= b);
    } else {
        assert(a.contains(a.last()));
        assert(b.contains(a.last()));
        let p = choose|p: int| 0 <= p < b.len() && b[p] == a.last();
        assert(b.contains(b.last()));
        let q = choose|q: int| 0 <= q < a.len() && a[q] == b.last();
        let x = a.last() as int;
        let y = b.last() as int;
        list_order_is_weak(items[x], items[y], items[x]);
        if x != y {
            assert(precedes(items, y, x));
            assert(precedes(items, x, y));
        }
        let a1 = a.drop_last();
        let b1 = b.drop_last();
        assert forall|k: usize| a1.contains(k) <==> b1.contains(k) by {
            if a1.contains(k) {
                let i = choose|i: int| 0 <= i < a1.len() && a1[i] == k;
                assert(a[i] == k);
                assert(a.contains(k));
                assert(precedes(items, a[i] as int, a[a.len() - 1] as int));
                list_order_is_weak(items[k as int], items[x], items[k as int]);
                let j = choose|j: int| 0 <= j < b.len() && b[j] == k;
                assert(j < b.len() - 1);
                assert(b1[j] == k);
            }
            if b1.contains(k) {
                let i = choose|i: int| 0 <= i < b1.len() && b1[i] == k;
                assert(b[i] == k);
                assert(b.contains(k));
                assert(precedes(items, b[i] as int, b[b.len() - 1] as int));
                list_order_is_weak(items[k as int], items[x], items[k as int]);
                let j = choose|j: int| 0 <= j < a.len() && a[j] == k;
                assert(j < a.len() - 1);
                assert(a1[j] == k);
            }
        }
        ordered_lists_agree(items, a1, b1);
        assert(a =~= a1.push(a.last()));
        assert(b =~= b1.push(b.last()));
    }
}

/// A query is found in what an item shows, whatever its case.
pub open spec fn is_found(item: DiscoveryItem, query: Seq<char>) -> bool {
    ||| holds(lowercase(item.label@), lowercase(query))
    ||| holds(lowercase(item.detail@), lowercase(query))
    ||| holds(lowercase(item.status@), lowercase(query))
}

/// An item that cannot be opened and was last active more than two weeks ago.
pub open spec fn is_long_gone(item: DiscoveryItem, now: i64) -> bool {
    item.availability == DiscoveryAvailability::NotAvailable && (item.recent_activity matches Some(
        activity,
    ) && now - activity > 14 * 24 * 60 * 60)
}

/// The list shows exactly the items in which the query is found, and without a
/// query all but those long gone, or all where those are asked for. Each shows
/// once: groups by their rank, in a group the last active first, and items alike
/// by their names.
pub proof fn list_shows_what_is_found(
    items: Seq<DiscoveryItem>,
    query: Seq<char>,
    show_older: bool,
    now: i64,
    shown: Seq<usize>,
)
    requires
        is_filtered(items, query, show_older, now, shown),
        items.len() <= usize::MAX,
    ensures
        forall|k: int|
            0 <= k < items.len() ==> (#[trigger] shown.contains(k as usize) <==> if lowercase(
                query,
            ).len() > 0 {
                is_found(items[k], query)
            } else {
                show_older || !is_long_gone(items[k], now)
            }),
        forall|i: int| 0 <= i < shown.len() ==> #[trigger] shown[i] < items.len(),
        shown.no_duplicates(),
        forall|i: int, j: int|
            0 <= i < j < shown.len() ==> {
                let a = items[#[trigger] shown[i] as int];
                let b = items[#[trigger] shown[j] as int];
                &&& a.section.rank <= b.section.rank
                &&& a.section.rank == b.section.rank ==> match (
                    a.recent_activity,
                    b.recent_activity,
                ) {
                    (Some(x), Some(y)) => x >= y,
                    (None, Some(_)) => false,
                    _ => true,
                }
                &&& a.section.rank == b.section.rank && a.recent_activity == b.recent_activity
                    ==> !comes_before(lowercase(b.label@), lowercase(a.label@))
            },
{
    assert forall|i: int| 0 <= i < shown.len() implies #[trigger] shown[i] < items.len() by {
        assert(shown.contains(shown[i]));
    }
    assert forall|i: int, j: int| 0 <= i < j < shown.len() implies {
        let a = items[#[trigger] shown[i] as int];
        let b = items[#[trigger] shown[j] as int];
        &&& a.section.rank <= b.section.rank
        &&& a.section.rank == b.section.rank ==> match (a.recent_activity, b.recent_activity) {
            (Some(x), Some(y)) => x >= y,
            (None, Some(_)) => false,
            _ => true,
        }
        &&& a.section.rank == b.section.rank && a.recent_activity == b.recent_activity
            ==> !comes_before(lowercase(b.label@), lowercase(a.label@))
    } by {
        let a = items[shown[i] as int];
        let b = items[shown[j] as int];
        assert(precedes(items, shown[i] as int, shown[j] as int));
        text_order_is_total(lowercase(a.label@), lowercase(b.label@));
        text_order_is_total(a.key@, b.key@);
    }
    assert forall|i: int, j: int| 0 <= i < shown.len() && 0 <= j < shown.len() && i
        != j implies shown[i] != shown[j] by {
        let (a, b) = if i < j {
            (i, j)
        } else {
            (j, i)
        };
        if shown[a] == shown[b] {
            let item = items[shown[a] as int];
            assert(precedes(items, shown[a] as int, shown[b] as int));
            list_order_is_weak(item, item, item);
        }
    }
}

/// A row is an item.
pub open spec fn is_item_row() -> spec_fn(DiscoveryDisplayRow) -> bool {
    |row: DiscoveryDisplayRow| row is Candidate
}

/// The rows hold each shown item once, in its order and with its place, and begin
/// with the heading of the first group.
pub proof fn rows_hold_the_shown_items(items: Seq<DiscoveryItem>, indices: Seq<usize>, n: int)
    requires
        0 <= n <= indices.len() <= usize::MAX,
    ensures
        candidate_rows(items, indices, n).filter(is_item_row()) == Seq::new(
            n as nat,
            |k: int|
                DiscoveryDisplayRow::Candidate { item: indices[k], selection: k as usize },
        ),
        n > 0 ==> candidate_rows(items, indices, n).len() >= 2 && candidate_rows(
            items,
            indices,
            n,
        )[0] == DiscoveryDisplayRow::Heading(items[indices[0] as int].section),
    decreases n,
{
    reveal(Seq::filter);
    let all = |m: int|
        Seq::new(
            m as nat,
            |k: int| DiscoveryDisplayRow::Candidate { item: indices[k], selection: k as usize },
        );
    if n <= 0 {
        assert(candidate_rows(items, indices, n).filter(is_item_row()) =~= all(n));
    } else {
        rows_hold_the_shown_items(items, indices, n - 1);
        let before = candidate_rows(items, indices, n - 1);
        let section = items[indices[n - 1] as int].section;
        let candidate = DiscoveryDisplayRow::Candidate {
            item: indices[n - 1],
            selection: (n - 1) as usize,
        };
        let headed = before.push(DiscoveryDisplayRow::Heading(section));
        assert(headed.drop_last() =~= before);
        assert(headed.filter(is_item_row()) == before.filter(is_item_row()));
        assert(headed.push(candidate).drop_last() =~= headed);
        assert(before.push(candidate).drop_last() =~= before);
        assert(candidate_rows(items, indices, n).filter(is_item_row()) == before.filter(
            is_item_row(),
        ).push(candidate));
        assert(before.filter(is_item_row()).push(candidate) =~= all(n));
        if n == 1 {
            assert(candidate_rows(items, indices, 1) == headed.push(candidate));
            assert(before.len() == 0);
        }
    }
}

/// As many old items are counted as there are, and their row stands first, unless
/// there is none or a query is set.
pub proof fn old_items_are_counted(items: Seq<DiscoveryItem>, now: i64, n: int)
    requires
        0 <= n <= items.len(),
    ensures
        older_count(items, now, n) == items.take(n).filter(
            |item: DiscoveryItem| is_long_gone(item, now),
        ).len(),
    decreases n,
{
    reveal(Seq::filter);
    if n > 0 {
        old_items_are_counted(items, now, n - 1);
        assert(items.take(n).drop_last() =~= items.take(n - 1));
    }
}

} // verus!
