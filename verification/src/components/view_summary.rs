//! The View summary layer: everything that is applied to a view, one row each,
//! in the order in which the view evaluates it.
//!
//! The list has a fixed shape: what is not applied has a row that says so. The
//! one verb opens the dialog that the selected row belongs to.

use crate::component::Open;
use crate::components::source::SourceItem;
use crate::components::time::{CaptureTimePolicy, TimeBasis};
use crate::text::{
    ascii_lower, chars_of, decimal, decimal_text, join, joined, lowercase, lowercase_of, same,
    some_text, spec_ascii_lower, texts, trim, trimmed,
};
use vstd::prelude::*;

pub mod frame;
pub mod laws;
pub mod render;

verus! {

/// A row of the summary.
#[derive(Clone, Copy, Debug, PartialEq, Eq, Structural)]
pub enum SummaryRow {
    /// What the view is.
    Role,
    Sources,
    Time,
    Enrichment,
    Search,
    Filter,
    Grouping,
    Fold,
    Columns,
    Colour,
    /// Whether what is shown is what is applied.
    Readiness,
}

/// The rows in order: what the view reads, within which window, the columns it
/// derives, what keeps a row, how rows are shown, and whether that is current.
pub open spec fn all_rows() -> Seq<SummaryRow> {
    seq![
        SummaryRow::Role,
        SummaryRow::Sources,
        SummaryRow::Time,
        SummaryRow::Enrichment,
        SummaryRow::Search,
        SummaryRow::Filter,
        SummaryRow::Grouping,
        SummaryRow::Fold,
        SummaryRow::Columns,
        SummaryRow::Colour,
        SummaryRow::Readiness,
    ]
}

/// How many rows there are.
pub const SUMMARY_ROWS: usize = 11;

/// The label of a row.
pub open spec fn row_label(row: SummaryRow) -> Seq<char> {
    match row {
        SummaryRow::Role => "View"@,
        SummaryRow::Sources => "Sources"@,
        SummaryRow::Time => "Time"@,
        SummaryRow::Enrichment => "Enrichment"@,
        SummaryRow::Search => "Search"@,
        SummaryRow::Filter => "Advanced"@,
        SummaryRow::Grouping => "Grouping"@,
        SummaryRow::Fold => "Fold"@,
        SummaryRow::Columns => "Columns"@,
        SummaryRow::Colour => "Colour"@,
        SummaryRow::Readiness => "Readiness"@,
    }
}

/// The row is something that a user applies.
pub open spec fn applies(row: SummaryRow) -> bool {
    row != SummaryRow::Role && row != SummaryRow::Sources && row != SummaryRow::Readiness
}

impl SummaryRow {
    /// The rows in order.
    pub fn all() -> (r: Vec<SummaryRow>)
        ensures
            r@ == all_rows(),
    {
        let rows = vec![
            SummaryRow::Role,
            SummaryRow::Sources,
            SummaryRow::Time,
            SummaryRow::Enrichment,
            SummaryRow::Search,
            SummaryRow::Filter,
            SummaryRow::Grouping,
            SummaryRow::Fold,
            SummaryRow::Columns,
            SummaryRow::Colour,
            SummaryRow::Readiness,
        ];
        assert(rows@ =~= all_rows());
        rows
    }

    pub fn label(self) -> (r: &'static str)
        ensures
            r@ == row_label(self),
    {
        match self {
            SummaryRow::Role => "View",
            SummaryRow::Sources => "Sources",
            SummaryRow::Time => "Time",
            SummaryRow::Enrichment => "Enrichment",
            SummaryRow::Search => "Search",
            SummaryRow::Filter => "Advanced",
            SummaryRow::Grouping => "Grouping",
            SummaryRow::Fold => "Fold",
            SummaryRow::Columns => "Columns",
            SummaryRow::Colour => "Colour",
            SummaryRow::Readiness => "Readiness",
        }
    }

    /// Whether the row is something that a user applies. The others describe
    /// the view and are never left out.
    pub fn is_operation(self) -> (r: bool)
        ensures
            r == applies(self),
    {
        match self {
            SummaryRow::Role | SummaryRow::Sources | SummaryRow::Readiness => false,
            _ => true,
        }
    }
}

/// A row of the summary as it reads.
#[derive(Debug, PartialEq, Eq)]
pub struct SummaryEntry {
    pub row: SummaryRow,
    pub value: String,
    /// Whether the row is applied; where it is not, its value is a dash.
    pub applied: bool,
}

/// Why a view exists.
#[derive(Clone, Copy, Debug, PartialEq, Eq, Structural)]
pub enum ViewRole {
    /// The source's own view, with nothing left out.
    Canonical,
    Derived,
}

/// In which order the rows of a view come.
#[derive(Debug)]
pub struct ViewOrder {
    /// The name of the timestamp that it goes by.
    pub basis: String,
    pub interleaved: bool,
    pub sources: usize,
    pub out_of_order: usize,
    pub fully_ordered: bool,
}

/// How a grouping was read.
#[derive(Debug, PartialEq, Eq)]
pub enum GroupingSpec {
    Auto,
    Custom,
    Run { column: String },
    Filter { column: String },
}

/// A rule that colours rows.
#[derive(Debug)]
pub struct ColorRule {
    pub predicate: String,
    /// The name of the colour.
    pub color: String,
}

/// A step of the enrichment.
#[derive(Debug)]
pub struct EnrichmentStage {
    pub source: String,
    pub command: bool,
    /// The results of the command were published.
    pub published: bool,
}

/// A setting of a view with the text that is applied.
#[derive(Debug)]
pub struct AppliedSetting {
    pub applied: String,
    pub pending: bool,
}

/// What is applied to a view.
#[derive(Debug)]
pub struct ViewState {
    pub role: ViewRole,
    pub source_id: String,
    pub source_ids: Vec<String>,
    pub search: AppliedSetting,
    pub advanced: AppliedSetting,
    pub enrichment: AppliedSetting,
    pub grouping: AppliedSetting,
    /// How the grouping was read, where it could be.
    pub grouping_spec: Option<GroupingSpec>,
    pub pinned_columns: Vec<String>,
    pub color_field: Option<String>,
    pub color_rules: Vec<ColorRule>,
    pub enrichments: Vec<EnrichmentStage>,
    pub capture_time_policy: Option<CaptureTimePolicy>,
    /// The bounds of the window in words, where they are known.
    pub capture_time: Option<(String, String)>,
    /// The length of a rolling window in words.
    pub duration: String,
    pub time_basis: TimeBasis,
    /// The name of the timestamp that the window goes by.
    pub time_basis_label: String,
    pub time_field: Option<String>,
    pub time_update_pending: bool,
    pub fold_enabled: bool,
    pub fold_lookback: u64,
    pub fold_minimum_run: u64,
    /// The shortest run that is folded where none is set.
    pub fold_default_run: u64,
    pub fold_key_column: Option<String>,
    /// What rows are folded by, in words.
    pub fold_key_label: String,
    pub fold_normalisation: String,
    pub applied_query_revision: u64,
    pub desired_query_revision: u64,
    /// The command steps whose results are out of date.
    pub stale_steps: Vec<String>,
}

/// A text with every line break written as a sign.
pub open spec fn in_one_line(text: Seq<char>) -> Seq<char>
    decreases text.len(),
{
    if text.len() == 0 {
        seq![]
    } else if text.last() == '\n' {
        in_one_line(text.drop_last()) + " \u{23ce} "@
    } else {
        in_one_line(text.drop_last()).push(text.last())
    }
}

fn one_line(text: &str) -> (r: String)
    ensures
        r@ == in_one_line(text@),
{
    let chars = chars_of(text);
    let mut out = String::new();
    let mut i: usize = 0;
    assert(chars@.take(0) =~= seq![]);
    while i < chars.len()
        invariant
            i <= chars@.len(),
            out@ == in_one_line(chars@.take(i as int)),
        decreases chars.len() - i,
    {
        assert(chars@.take(i + 1).drop_last() =~= chars@.take(i as int));
        assert(chars@.take(i + 1).last() == chars@[i as int]);
        if chars[i] == '\n' {
            out.append(" \u{23ce} ");
        } else {
            out.push(chars[i]);
        }
        i += 1;
    }
    assert(chars@.take(i as int) =~= chars@);
    out
}

/// A setting's text in one line, unless it is blank.
pub open spec fn shown_text(applied: Seq<char>) -> Option<Seq<char>> {
    if trimmed(applied).len() == 0 {
        None
    } else {
        Some(in_one_line(trimmed(applied)))
    }
}

pub fn applied_text(applied: &str) -> (r: Option<String>)
    ensures
        some_text(r) == shown_text(applied@),
{
    let text = trim(applied);
    if text.as_str().is_empty() {
        None
    } else {
        Some(one_line(text.as_str()))
    }
}

/// In which order the rows come, in words.
pub open spec fn order_text(order: Option<ViewOrder>) -> Seq<char> {
    match order {
        None => "capture (arrival)"@,
        Some(order) => lowercase(order.basis@) + (if !order.interleaved {
            " \u{b7} source order"@
        } else if order.sources <= 1 {
            " (arrival)"@
        } else if order.fully_ordered {
            " \u{b7} merged"@
        } else {
            " \u{b7} merged \u{b7} "@ + decimal(order.out_of_order as nat) + " of "@ + decimal(
                order.sources as nat,
            ) + " sources arrive out of order"@
        }),
    }
}

pub fn order_value(order: &Option<ViewOrder>) -> (r: String)
    ensures
        r@ == order_text(*order),
{
    let order = match order {
        Some(order) => order,
        None => {
            return "capture (arrival)".to_owned();
        },
    };
    let mut text = lowercase_of(order.basis.as_str());
    if !order.interleaved {
        text.append(" \u{b7} source order");
    } else if order.sources <= 1 {
        text.append(" (arrival)");
    } else if order.fully_ordered {
        text.append(" \u{b7} merged");
    } else {
        let mut tail = " \u{b7} merged \u{b7} ".to_owned();
        tail.append(decimal_text(order.out_of_order as u64).as_str());
        tail.append(" of ");
        tail.append(decimal_text(order.sources as u64).as_str());
        tail.append(" sources arrive out of order");
        text.append(tail.as_str());
    }
    text
}

/// The ending of a word for so many.
pub open spec fn plural(count: nat) -> Seq<char> {
    if count == 1 {
        ""@
    } else {
        "s"@
    }
}

fn plural_end(count: usize) -> (r: &'static str)
    ensures
        r@ == plural(count as nat),
{
    if count == 1 {
        ""
    } else {
        "s"
    }
}

/// A rule with its place, what it looks for, and its colour.
pub open spec fn rule_text(rule: ColorRule, index: int, ascii: bool) -> Seq<char> {
    decimal((index + 1) as nat) + " "@ + in_one_line(rule.predicate@) + " "@ + (if ascii {
        "->"@
    } else {
        "\u{2192}"@
    }) + " "@ + rule.color@
}

/// The rules in the order in which they win.
pub open spec fn rule_texts(rules: Seq<ColorRule>, ascii: bool) -> Seq<Seq<char>> {
    Seq::new(rules.len(), |i: int| rule_text(rules[i], i, ascii))
}

/// A text, where it is there.
pub open spec fn text_if(there: bool, text: Seq<char>) -> Seq<Seq<char>> {
    if there {
        seq![text]
    } else {
        seq![]
    }
}

impl ViewState {
    /// What colours rows: a field, and rules. Neither hides the other.
    pub open spec fn colour(self, ascii: bool) -> Option<Seq<char>> {
        let count = self.color_rules@.len();
        let parts = text_if(self.color_field is Some, "by "@ + self.color_field->0@) + text_if(
            count > 0,
            decimal(count) + " rule"@ + plural(count) + ": "@ + joined(
                rule_texts(self.color_rules@, ascii),
                ", "@,
            ),
        );
        if parts.len() == 0 {
            None
        } else {
            Some(joined(parts, " \u{b7} "@))
        }
    }

    /// The window that is applied.
    pub open spec fn window(self) -> Option<Seq<char>> {
        match self.capture_time_policy {
            Some(CaptureTimePolicy::Recent { .. }) => Some("rolling last "@ + self.duration@),
            Some(CaptureTimePolicy::Absolute(_)) => Some(
                match self.capture_time {
                    Some((start, end)) => "absolute "@ + start@ + " .. "@ + end@,
                    None => "absolute pending"@,
                },
            ),
            None => None,
        }
    }

    /// The window with the timestamp that it goes by, unless neither was chosen.
    pub open spec fn time(self) -> Option<Seq<char>> {
        if self.window() is None && self.time_basis == TimeBasis::Capture {
            None
        } else {
            Some(
                (match self.window() {
                    Some(window) => window,
                    None => "all times"@,
                }) + " \u{b7} basis: "@ + (if self.time_basis == TimeBasis::Selected
                    && self.time_field is Some {
                    "field "@ + self.time_field->0@
                } else {
                    self.time_basis_label@
                }),
            )
        }
    }

    /// The steps of the enrichment.
    pub open spec fn steps(self, ascii: bool) -> Seq<Seq<char>> {
        Seq::new(self.enrichments@.len(), |i: int| stage_text(self.enrichments@[i], ascii))
    }

    pub open spec fn enriched(self, ascii: bool) -> Option<Seq<char>> {
        let count = self.enrichments@.len();
        if count == 0 {
            None
        } else {
            Some(
                decimal(count) + " step"@ + plural(count) + ": "@ + joined(
                    self.steps(ascii),
                    ", "@,
                ),
            )
        }
    }

    pub open spec fn grouped(self) -> Option<Seq<char>> {
        match shown_text(self.grouping.applied@) {
            None => None,
            Some(text) => Some(
                match self.grouping_spec {
                    Some(GroupingSpec::Auto) => "Auto"@,
                    Some(GroupingSpec::Custom) => text,
                    Some(GroupingSpec::Run { column }) => "Run on "@ + column@,
                    Some(GroupingSpec::Filter { column }) => "Starts on "@ + column@ + " non-null"@,
                    None => "Unsupported grouping version"@,
                },
            ),
        }
    }

    /// How far back a fold looks.
    pub open spec fn fold_scope(self) -> Seq<char> {
        if self.fold_lookback == 0 {
            "adjacent"@
        } else if self.fold_lookback == 1 {
            "lookback 1 row"@
        } else {
            "lookback "@ + decimal(self.fold_lookback as nat) + " rows"@
        }
    }

    pub open spec fn fold_run(self) -> u64 {
        if self.fold_minimum_run == 0 {
            self.fold_default_run
        } else {
            self.fold_minimum_run
        }
    }

    /// How rows are folded. How a pattern is made is said only where rows are
    /// folded by one.
    pub open spec fn fold(self) -> Option<Seq<char>> {
        if !self.fold_enabled {
            None
        } else {
            let by = "by "@ + self.fold_key_label@ + " \u{b7} "@ + self.fold_scope()
                + " \u{b7} min "@ + decimal(self.fold_run() as nat);
            Some(
                if self.fold_key_column is None {
                    by + " \u{b7} "@ + self.fold_normalisation@.map_values(
                        |ch: char| spec_ascii_lower(ch),
                    )
                } else {
                    by
                },
            )
        }
    }

    pub open spec fn columns_pinned(self) -> Option<Seq<char>> {
        if self.pinned_columns@.len() == 0 {
            None
        } else {
            Some("pinned: "@ + joined(texts(self.pinned_columns@), ", "@))
        }
    }

    /// A query is on its way.
    pub open spec fn query_pending(self) -> bool {
        self.search.pending || self.advanced.pending || self.enrichment.pending
            || self.grouping.pending || self.applied_query_revision != self.desired_query_revision
    }

    /// Whether what is shown is what is applied.
    pub open spec fn readiness(self) -> Seq<char> {
        let count = self.stale_steps@.len();
        if self.query_pending() {
            "query pending \u{b7} the last applied definition stays active"@
        } else if self.time_update_pending {
            "time window updating \u{b7} the last applied window stays active"@
        } else if count > 0 {
            decimal(count) + " command step"@ + plural(count) + " unrun: "@ + joined(
                texts(self.stale_steps@),
                ", "@,
            )
        } else {
            "ready"@
        }
    }

    pub open spec fn role_text(self, sources: Seq<SourceItem>) -> Seq<char> {
        let name = source_name(sources, self.source_id@, 0);
        match self.role {
            ViewRole::Canonical => "All events of "@ + name + " \u{b7} fixed"@,
            ViewRole::Derived => "derived from "@ + name,
        }
    }

    pub open spec fn sources_text(self, sources: Seq<SourceItem>, order: Option<ViewOrder>) -> Seq<
        char,
    > {
        let names = joined(source_names(sources, texts(self.source_ids@)), ", "@);
        if self.source_ids@.len() > 1 {
            names + " (merged, "@ + order_text(order) + ")"@
        } else {
            names
        }
    }

    /// What a row says, unless it is not applied.
    pub open spec fn value_of(
        self,
        row: SummaryRow,
        sources: Seq<SourceItem>,
        order: Option<ViewOrder>,
        ascii: bool,
    ) -> Option<Seq<char>> {
        match row {
            SummaryRow::Role => Some(self.role_text(sources)),
            SummaryRow::Sources => Some(self.sources_text(sources, order)),
            SummaryRow::Time => self.time(),
            SummaryRow::Enrichment => self.enriched(ascii),
            SummaryRow::Search => shown_text(self.search.applied@),
            SummaryRow::Filter => shown_text(self.advanced.applied@),
            SummaryRow::Grouping => self.grouped(),
            SummaryRow::Fold => self.fold(),
            SummaryRow::Columns => self.columns_pinned(),
            SummaryRow::Colour => self.colour(ascii),
            SummaryRow::Readiness => Some(self.readiness()),
        }
    }

    /// The dialog that a row belongs to.
    pub open spec fn owner_of(self, row: SummaryRow) -> Open {
        match row {
            SummaryRow::Role => Open::View,
            SummaryRow::Sources => Open::ViewMembership,
            SummaryRow::Time => Open::Time,
            SummaryRow::Enrichment => Open::Enrichment,
            SummaryRow::Search => Open::Search,
            SummaryRow::Filter => Open::Advanced,
            SummaryRow::Grouping | SummaryRow::Fold => Open::Grouping,
            SummaryRow::Columns => if self.pinned_columns@.len() > 0 {
                Open::FieldColumn { column: self.pinned_columns@[0] }
            } else {
                Open::Fields
            },
            SummaryRow::Colour => if self.color_rules@.len() == 0 && self.color_field is Some {
                Open::FieldColumn { column: self.color_field->0 }
            } else {
                Open::ColorRules
            },
            SummaryRow::Readiness => if self.stale_steps@.len() == 0 {
                Open::View
            } else {
                Open::Enrichment
            },
        }
    }
}

/// A step of the enrichment as it reads.
pub open spec fn stage_text(stage: EnrichmentStage, ascii: bool) -> Seq<char> {
    if stage.command {
        (if ascii {
            "$"@
        } else {
            "\u{2699}"@
        }) + " "@ + stage.source@ + " \u{b7} "@ + (if stage.published {
            "results published"@
        } else {
            "unrun"@
        })
    } else {
        in_one_line(stage.source@)
    }
}

/// The name of a source, or its identity where it is not known.
pub open spec fn source_name(sources: Seq<SourceItem>, id: Seq<char>, from: int) -> Seq<char>
    decreases sources.len() - from,
{
    if from < 0 || from >= sources.len() {
        id
    } else if sources[from].id@ == id {
        sources[from].name@
    } else {
        source_name(sources, id, from + 1)
    }
}

/// The names of sources.
pub open spec fn source_names(sources: Seq<SourceItem>, ids: Seq<Seq<char>>) -> Seq<Seq<char>> {
    Seq::new(ids.len(), |i: int| source_name(sources, ids[i], 0))
}

fn name_of_source(sources: &Vec<SourceItem>, id: &str) -> (r: String)
    ensures
        r@ == source_name(sources@, id@, 0),
{
    let mut i: usize = 0;
    while i < sources.len()
        invariant
            i <= sources@.len(),
            source_name(sources@, id@, 0) == source_name(sources@, id@, i as int),
        decreases sources.len() - i,
    {
        if same(sources[i].id.as_str(), id) {
            return sources[i].name.clone();
        }
        i += 1;
    }
    id.to_owned()
}

fn names_of_sources(sources: &Vec<SourceItem>, ids: &Vec<String>) -> (r: Vec<String>)
    ensures
        texts(r@) == source_names(sources@, texts(ids@)),
{
    let mut names: Vec<String> = Vec::new();
    let mut i: usize = 0;
    while i < ids.len()
        invariant
            i <= ids@.len(),
            names@.len() == i,
            forall|j: int|
                0 <= j < i ==> (#[trigger] names@[j])@ == source_name(sources@, ids@[j]@, 0),
        decreases ids.len() - i,
    {
        names.push(name_of_source(sources, ids[i].as_str()));
        i += 1;
    }
    assert(texts(names@) =~= source_names(sources@, texts(ids@)));
    names
}

fn rules_in_words(rules: &Vec<ColorRule>, ascii: bool) -> (r: Vec<String>)
    ensures
        texts(r@) == rule_texts(rules@, ascii),
{
    let mut out: Vec<String> = Vec::new();
    let mut i: usize = 0;
    while i < rules.len()
        invariant
            i <= rules@.len(),
            out@.len() == i,
            forall|j: int| 0 <= j < i ==> (#[trigger] out@[j])@ == rule_text(rules@[j], j, ascii),
        decreases rules.len() - i,
    {
        let rule = &rules[i];
        let mut text = decimal_text(i as u64 + 1);
        text.append(" ");
        text.append(one_line(rule.predicate.as_str()).as_str());
        text.append(" ");
        text.append(
            if ascii {
                "->"
            } else {
                "\u{2192}"
            },
        );
        text.append(" ");
        text.append(rule.color.as_str());
        out.push(text);
        i += 1;
    }
    assert(texts(out@) =~= rule_texts(rules@, ascii));
    out
}

/// A count with what is counted.
fn counted(count: usize, what: &str, middle: &str, list: &str) -> (r: String)
    ensures
        r@ == decimal(count as nat) + what@ + plural(count as nat) + middle@ + list@,
{
    let mut text = decimal_text(count as u64);
    text.append(what);
    text.append(plural_end(count));
    text.append(middle);
    text.append(list);
    text
}

pub fn colour_value(state: &ViewState, ascii: bool) -> (r: Option<String>)
    ensures
        some_text(r) == state.colour(ascii),
{
    let mut parts: Vec<String> = Vec::new();
    if let Some(field) = &state.color_field {
        let mut text = "by ".to_owned();
        text.append(field.as_str());
        parts.push(text);
    }
    let ghost first = texts(parts@);
    assert(first =~= text_if(state.color_field is Some, "by "@ + state.color_field->0@));
    let count: usize = state.color_rules.len();
    if count > 0 {
        let rules = join(&rules_in_words(&state.color_rules, ascii), ", ");
        let ghost before = parts@;
        let text = counted(count, " rule", ": ", rules.as_str());
        parts.push(text);
        assert(texts(parts@) =~= texts(before).push(text@));
    }
    assert(texts(parts@) =~= first + text_if(
        count > 0,
        decimal(count as nat) + " rule"@ + plural(count as nat) + ": "@ + joined(
            rule_texts(state.color_rules@, ascii),
            ", "@,
        ),
    ));
    if parts.len() == 0 {
        None
    } else {
        Some(join(&parts, " \u{b7} "))
    }
}

fn window_value(state: &ViewState) -> (r: Option<String>)
    ensures
        some_text(r) == state.window(),
{
    match state.capture_time_policy {
        Some(CaptureTimePolicy::Recent { .. }) => {
            let mut text = "rolling last ".to_owned();
            text.append(state.duration.as_str());
            Some(text)
        },
        Some(CaptureTimePolicy::Absolute(_)) => match &state.capture_time {
            Some((start, end)) => {
                let mut text = "absolute ".to_owned();
                text.append(start.as_str());
                text.append(" .. ");
                text.append(end.as_str());
                Some(text)
            },
            None => Some("absolute pending".to_owned()),
        },
        None => None,
    }
}

pub fn time_value(state: &ViewState) -> (r: Option<String>)
    ensures
        some_text(r) == state.time(),
{
    let window = window_value(state);
    if window.is_none() && state.time_basis == TimeBasis::Capture {
        return None;
    }
    let mut text = match window {
        Some(window) => window,
        None => "all times".to_owned(),
    };
    text.append(" \u{b7} basis: ");
    let mut basis = String::new();
    let chosen = state.time_basis == TimeBasis::Selected;
    match &state.time_field {
        Some(field) if chosen => {
            basis.append("field ");
            basis.append(field.as_str());
            assert(basis@ =~= "field "@ + field@);
        },
        _ => {
            basis.append(state.time_basis_label.as_str());
            assert(basis@ =~= state.time_basis_label@);
        },
    }
    text.append(basis.as_str());
    Some(text)
}

fn stage_in_words(stage: &EnrichmentStage, ascii: bool) -> (r: String)
    ensures
        r@ == stage_text(*stage, ascii),
{
    if !stage.command {
        return one_line(stage.source.as_str());
    }
    let mut text = (if ascii {
        "$"
    } else {
        "\u{2699}"
    }).to_owned();
    text.append(" ");
    text.append(stage.source.as_str());
    text.append(" \u{b7} ");
    text.append(
        if stage.published {
            "results published"
        } else {
            "unrun"
        },
    );
    text
}

pub fn enrichment_value(state: &ViewState, ascii: bool) -> (r: Option<String>)
    ensures
        some_text(r) == state.enriched(ascii),
{
    let count: usize = state.enrichments.len();
    if count == 0 {
        return None;
    }
    let mut steps: Vec<String> = Vec::new();
    let mut i: usize = 0;
    while i < count
        invariant
            i <= count == state.enrichments@.len(),
            steps@.len() == i,
            forall|j: int|
                0 <= j < i ==> (#[trigger] steps@[j])@ == stage_text(state.enrichments@[j], ascii),
        decreases count - i,
    {
        steps.push(stage_in_words(&state.enrichments[i], ascii));
        i += 1;
    }
    assert(texts(steps@) =~= state.steps(ascii));
    let list = join(&steps, ", ");
    Some(counted(count, " step", ": ", list.as_str()))
}

fn grouping_value(state: &ViewState) -> (r: Option<String>)
    ensures
        some_text(r) == state.grouped(),
{
    let text = match applied_text(state.grouping.applied.as_str()) {
        Some(text) => text,
        None => {
            return None;
        },
    };
    Some(
        match &state.grouping_spec {
            Some(GroupingSpec::Auto) => "Auto".to_owned(),
            Some(GroupingSpec::Custom) => text,
            Some(GroupingSpec::Run { column }) => {
                let mut text = "Run on ".to_owned();
                text.append(column.as_str());
                text
            },
            Some(GroupingSpec::Filter { column }) => {
                let mut text = "Starts on ".to_owned();
                text.append(column.as_str());
                text.append(" non-null");
                text
            },
            None => "Unsupported grouping version".to_owned(),
        },
    )
}

fn in_small_letters(text: &str) -> (r: String)
    ensures
        r@ == text@.map_values(|ch: char| spec_ascii_lower(ch)),
{
    let chars = chars_of(text);
    let ghost all = text@.map_values(|ch: char| spec_ascii_lower(ch));
    let mut out = String::new();
    let mut i: usize = 0;
    assert(out@ =~= all.take(0));
    while i < chars.len()
        invariant
            i <= chars@.len(),
            all == chars@.map_values(|ch: char| spec_ascii_lower(ch)),
            out@ =~= all.take(i as int),
        decreases chars.len() - i,
    {
        out.push(ascii_lower(chars[i]));
        i += 1;
    }
    assert(out@ =~= all);
    out
}

fn fold_scope(state: &ViewState) -> (r: String)
    ensures
        r@ == state.fold_scope(),
{
    match state.fold_lookback {
        0 => "adjacent".to_owned(),
        1 => "lookback 1 row".to_owned(),
        rows => {
            let mut text = "lookback ".to_owned();
            text.append(decimal_text(rows).as_str());
            text.append(" rows");
            text
        },
    }
}

pub fn fold_value(state: &ViewState) -> (r: Option<String>)
    ensures
        some_text(r) == state.fold(),
{
    if !state.fold_enabled {
        return None;
    }
    let run: u64 = if state.fold_minimum_run == 0 {
        state.fold_default_run
    } else {
        state.fold_minimum_run
    };
    let mut text = "by ".to_owned();
    text.append(state.fold_key_label.as_str());
    text.append(" \u{b7} ");
    text.append(fold_scope(state).as_str());
    text.append(" \u{b7} min ");
    text.append(decimal_text(run).as_str());
    if state.fold_key_column.is_none() {
        text.append(" \u{b7} ");
        text.append(in_small_letters(state.fold_normalisation.as_str()).as_str());
    }
    Some(text)
}

pub fn readiness_value(state: &ViewState) -> (r: String)
    ensures
        r@ == state.readiness(),
{
    let pending = state.search.pending || state.advanced.pending || state.enrichment.pending
        || state.grouping.pending || state.applied_query_revision != state.desired_query_revision;
    if pending {
        return "query pending \u{b7} the last applied definition stays active".to_owned();
    }
    if state.time_update_pending {
        return "time window updating \u{b7} the last applied window stays active".to_owned();
    }
    let count: usize = state.stale_steps.len();
    if count > 0 {
        let list = join(&state.stale_steps, ", ");
        return counted(count, " command step", " unrun: ", list.as_str());
    }
    "ready".to_owned()
}

fn role_value(state: &ViewState, sources: &Vec<SourceItem>) -> (r: String)
    ensures
        r@ == state.role_text(sources@),
{
    let name = name_of_source(sources, state.source_id.as_str());
    match state.role {
        ViewRole::Canonical => {
            let mut text = "All events of ".to_owned();
            text.append(name.as_str());
            text.append(" \u{b7} fixed");
            text
        },
        ViewRole::Derived => {
            let mut text = "derived from ".to_owned();
            text.append(name.as_str());
            text
        },
    }
}

fn sources_value(state: &ViewState, sources: &Vec<SourceItem>, order: &Option<ViewOrder>) -> (r:
    String)
    ensures
        r@ == state.sources_text(sources@, *order),
{
    let mut text = join(&names_of_sources(sources, &state.source_ids), ", ");
    if state.source_ids.len() > 1 {
        text.append(" (merged, ");
        text.append(order_value(order).as_str());
        text.append(")");
    }
    text
}

fn columns_value(state: &ViewState) -> (r: Option<String>)
    ensures
        some_text(r) == state.columns_pinned(),
{
    if state.pinned_columns.len() == 0 {
        return None;
    }
    let mut text = "pinned: ".to_owned();
    text.append(join(&state.pinned_columns, ", ").as_str());
    Some(text)
}

fn row_value(
    state: &ViewState,
    row: SummaryRow,
    sources: &Vec<SourceItem>,
    order: &Option<ViewOrder>,
    ascii: bool,
) -> (r: Option<String>)
    ensures
        some_text(r) == state.value_of(row, sources@, *order, ascii),
{
    match row {
        SummaryRow::Role => Some(role_value(state, sources)),
        SummaryRow::Sources => Some(sources_value(state, sources, order)),
        SummaryRow::Time => time_value(state),
        SummaryRow::Enrichment => enrichment_value(state, ascii),
        SummaryRow::Search => applied_text(state.search.applied.as_str()),
        SummaryRow::Filter => applied_text(state.advanced.applied.as_str()),
        SummaryRow::Grouping => grouping_value(state),
        SummaryRow::Fold => fold_value(state),
        SummaryRow::Columns => columns_value(state),
        SummaryRow::Colour => colour_value(state, ascii),
        SummaryRow::Readiness => Some(readiness_value(state)),
    }
}

/// A row of a view's summary: what it says, or a dash.
pub open spec fn is_entry(
    entry: SummaryEntry,
    row: SummaryRow,
    state: ViewState,
    sources: Seq<SourceItem>,
    order: Option<ViewOrder>,
    ascii: bool,
) -> bool {
    &&& entry.row == row
    &&& entry.applied == (state.value_of(row, sources, order, ascii) is Some)
    &&& entry.value@ == match state.value_of(row, sources, order, ascii) {
        Some(value) => value,
        None => if ascii {
            "-"@
        } else {
            "\u{2014}"@
        },
    }
}

/// The rows of a view's summary; none where no view is shown.
pub fn summary_rows(
    state: Option<&ViewState>,
    sources: &Vec<SourceItem>,
    order: &Option<ViewOrder>,
    ascii: bool,
) -> (r: Vec<SummaryEntry>)
    ensures
        state is None ==> r@.len() == 0,
        state matches Some(state) ==> r@.len() == all_rows().len() && forall|i: int|
            0 <= i < all_rows().len() ==> is_entry(
                #[trigger] r@[i],
                all_rows()[i],
                *state,
                sources@,
                *order,
                ascii,
            ),
{
    let mut entries: Vec<SummaryEntry> = Vec::new();
    let state = match state {
        Some(state) => state,
        None => {
            return entries;
        },
    };
    let rows = SummaryRow::all();
    let mut i: usize = 0;
    while i < rows.len()
        invariant
            i <= rows@.len(),
            rows@ == all_rows(),
            entries@.len() == i,
            forall|j: int|
                0 <= j < i ==> is_entry(
                    #[trigger] entries@[j],
                    all_rows()[j],
                    *state,
                    sources@,
                    *order,
                    ascii,
                ),
        decreases rows.len() - i,
    {
        let value = row_value(state, rows[i], sources, order, ascii);
        let applied = value.is_some();
        let entry = SummaryEntry {
            row: rows[i],
            value: match value {
                Some(value) => value,
                None => (if ascii {
                    "-"
                } else {
                    "\u{2014}"
                }).to_owned(),
            },
            applied,
        };
        entries.push(entry);
        i += 1;
    }
    entries
}

/// The dialog that a row belongs to, with what it shows selected.
pub fn owner_of(state: &ViewState, row: SummaryRow) -> (r: Open)
    ensures
        r == state.owner_of(row),
{
    match row {
        SummaryRow::Role => Open::View,
        SummaryRow::Sources => Open::ViewMembership,
        SummaryRow::Time => Open::Time,
        SummaryRow::Enrichment => Open::Enrichment,
        SummaryRow::Search => Open::Search,
        SummaryRow::Filter => Open::Advanced,
        SummaryRow::Grouping | SummaryRow::Fold => Open::Grouping,
        SummaryRow::Columns => if state.pinned_columns.len() > 0 {
            Open::FieldColumn { column: state.pinned_columns[0].clone() }
        } else {
            Open::Fields
        },
        SummaryRow::Colour => {
            if state.color_rules.len() == 0 {
                if let Some(column) = &state.color_field {
                    return Open::FieldColumn { column: column.clone() };
                }
            }
            Open::ColorRules
        },
        SummaryRow::Readiness => if state.stale_steps.len() == 0 {
            Open::View
        } else {
            Open::Enrichment
        },
    }
}

/// The rows that describe the view are always applied; an operation is where
/// its setting is.
pub proof fn description_is_never_missing(
    state: ViewState,
    row: SummaryRow,
    sources: Seq<SourceItem>,
    order: Option<ViewOrder>,
    ascii: bool,
)
    requires
        !applies(row),
    ensures
        state.value_of(row, sources, order, ascii) is Some,
{
}

/// A plain view, to which nothing was applied, shows no operation.
pub proof fn plain_view_applies_nothing(
    state: ViewState,
    row: SummaryRow,
    sources: Seq<SourceItem>,
    order: Option<ViewOrder>,
    ascii: bool,
)
    requires
        applies(row),
        trimmed(state.search.applied@).len() == 0,
        trimmed(state.advanced.applied@).len() == 0,
        trimmed(state.grouping.applied@).len() == 0,
        state.enrichments@.len() == 0,
        state.pinned_columns@.len() == 0,
        state.color_field is None,
        state.color_rules@.len() == 0,
        state.capture_time_policy is None,
        state.time_basis == TimeBasis::Capture,
        !state.fold_enabled,
    ensures
        state.value_of(row, sources, order, ascii) is None,
{
}

proof fn one_line_has_no_break(text: Seq<char>)
    ensures
        !in_one_line(text).contains('\n'),
    decreases text.len(),
{
    if text.len() > 0 {
        one_line_has_no_break(text.drop_last());
        reveal_strlit(" \u{23ce} ");
        let before = in_one_line(text.drop_last());
        assert forall|i: int| 0 <= i < in_one_line(text).len() implies in_one_line(text)[i]
            != '\n' by {
            if i < before.len() {
                assert(before.contains(before[i]));
            }
        }
    }
}

/// A setting takes one line of the summary, however many it has.
pub proof fn setting_takes_one_line(applied: Seq<char>)
    ensures
        shown_text(applied) matches Some(text) ==> !text.contains('\n'),
{
    one_line_has_no_break(trimmed(applied));
}

} // verus!
