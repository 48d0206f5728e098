//! A frame of the Source layer as a list of things to draw.

use super::frame::{
    assemble_pane, button_regions, candidate_regions, candidate_row_text, candidates_shown,
    count_text, discovery_count, discovery_regions, existing_areas, found_rows_are_of_items, gap_of,
    kind_regions, match_count, named_row, named_row_text, older_label, older_region, pane_lines,
    preview_area, preview_counter, selector_regions, settle_scroll, shown_candidates,
    split_discovery, split_existing, split_manual, MANUAL_LABEL_WIDTH, ManualRest, PaneScroll,
};
use super::{
    shown_items, SourceAiStage, SourceControl, SourceDialog, SourceDialogMode, SourceGeometry,
    SourceItem, SourceKind, SourceModel,
};
use crate::component::Surface;
use crate::components::discovery::{
    candidate_rows, older_row, DiscoveryAvailability, DiscoveryDisplayRow,
};
use crate::components::storage::row_marker;
use crate::dialog_controls::{role_at, role_look, role_style, DialogStyles};
use crate::dialog_layout::{item_rows, rows_with_items, ListGeometry, ResolvedDialog, FIELD_GUTTER};
use crate::geometry::{greatest, least, minus, sat16, Rect};
use crate::paint::{
    all_shown, all_shown_among, bar_if, if_drawn, picture, put, put_bar, put_text, shown_among,
    shown_inside, shown_next, shows, text_at, Drawn, Fit, Paint,
};
use crate::style::{Style, Theme};
use crate::text::{decimal, text_lists, texts};
use vstd::prelude::*;

verus! {

/// What a frame is drawn from: how the screen is divided, and what was broken into
/// lines for it.
#[derive(Clone, Copy, Debug)]
pub struct SourceFrame<'a> {
    pub resolved: &'a ResolvedDialog,
    /// The segments of the header, and the kinds of a manual source.
    pub modes: &'a Vec<Rect>,
    pub kinds: &'a Vec<Rect>,
    pub sources: &'a Vec<SourceItem>,
    /// The clock, in seconds.
    pub now: i64,
    /// The list of the mode, and which rows of the discovered sources it would
    /// show without its count.
    pub list: &'a ListGeometry,
    pub list_first: usize,
    pub list_rows: usize,
    /// The pane of the mode, with each of its lines broken into rows.
    pub pane: &'a ListGeometry,
    pub wrapped: &'a Vec<Vec<String>>,
    /// How many lines of a proposal show, and from which on, before they are
    /// counted.
    pub probe_rows: usize,
    pub probe_first: usize,
    /// The headings of the groups, by rank.
    pub groups: &'a Vec<String>,
    /// The caret of the field that has the focus.
    pub caret: Option<(u16, u16)>,
    pub theme: Theme,
    pub ascii: bool,
}

/// A frame with what the layer works out for it.
#[derive(Clone, Copy, Debug)]
pub struct SourceSheet<'a> {
    pub resolved: &'a ResolvedDialog,
    pub modes: &'a Vec<Rect>,
    pub kinds: &'a Vec<Rect>,
    pub sources: &'a Vec<SourceItem>,
    pub list: &'a ListGeometry,
    pub pane: &'a ListGeometry,
    /// The lines of the pane.
    pub lines: &'a Vec<String>,
    pub probe_rows: usize,
    pub probe_first: usize,
    /// The rows of the discovered sources, how many sources they show, and how
    /// many of them are in the window.
    pub rows: &'a Vec<DiscoveryDisplayRow>,
    pub found: usize,
    pub shown: usize,
    pub groups: &'a Vec<String>,
    pub caret: Option<(u16, u16)>,
    pub theme: Theme,
    pub ascii: bool,
}

impl SourceFrame<'_> {
    /// The frame shows what the dialog has: its buttons are those of the dialog,
    /// and each group has a name.
    pub open spec fn fits(self, m: SourceModel) -> bool {
        &&& forall|i: int|
            0 <= i < self.resolved.actions.buttons@.len() ==> (
            #[trigger] self.resolved.actions.buttons@[i]).0 < m.labels(true).len()
        &&& forall|i: int|
            0 <= i < m.discovery.items.len() ==> (#[trigger] m.discovery.items[i]).section.rank
                < self.groups@.len()
    }
}

impl SourceSheet<'_> {
    /// What the layer works out for a frame: the rows of the discovered sources,
    /// how many there are and show, and the lines of the pane.
    pub open spec fn is_of(self, m: SourceModel, f: SourceFrame<'_>) -> bool {
        let text = m.pane_text(f.sources@, f.now);
        &&& self.resolved == f.resolved
        &&& self.modes == f.modes
        &&& self.kinds == f.kinds
        &&& self.sources == f.sources
        &&& self.list == f.list
        &&& self.pane == f.pane
        &&& self.probe_rows == f.probe_rows
        &&& self.probe_first == f.probe_first
        &&& self.groups == f.groups
        &&& self.caret == f.caret
        &&& self.theme == f.theme
        &&& self.ascii == f.ascii
        &&& self.rows@ == m.found_rows(f.now)
        &&& self.found == shown_items(m.discovery, f.now).len()
        &&& self.shown == candidates_shown(self.rows@, f.list_first as int, f.list_rows as int)
        &&& texts(self.lines@) == pane_lines(
            text,
            text_lists(f.wrapped@),
            least(text.len() as int, f.wrapped@.len() as int),
        )
    }
}

impl SourceSheet<'_> {
    pub open spec fn empty(self) -> bool {
        self.resolved.body.width == 0 || self.resolved.body.height == 0
    }

    pub open spec fn roomy(self) -> bool {
        !self.resolved.compact
    }

    /// The frame shows what the dialog has.
    pub open spec fn fits(self, m: SourceModel) -> bool {
        &&& forall|i: int|
            0 <= i < self.resolved.actions.buttons@.len() ==> (
            #[trigger] self.resolved.actions.buttons@[i]).0 < m.labels(true).len()
        &&& forall|i: int|
            0 <= i < self.rows@.len() ==> match #[trigger] self.rows@[i] {
                DiscoveryDisplayRow::Heading(section) => section.rank < self.groups@.len(),
                DiscoveryDisplayRow::Candidate { item, .. } => item < m.discovery.items.len(),
                DiscoveryDisplayRow::OlderUnavailable(_) => true,
            }
    }
}

/// A heading of a list in bold.
pub open spec fn list_heading(f: SourceSheet<'_>, text: Seq<char>) -> Drawn {
    text_at(
        f.list.heading,
        text,
        Style { bold: true, ..DialogStyles::of(f.theme).label },
        Fit::Whole,
    )
}

/// The count beside a heading.
pub open spec fn list_count(f: SourceSheet<'_>, area: Rect, text: Seq<char>) -> Seq<Drawn> {
    if_drawn(
        area.width > 0,
        Drawn::Text {
            area,
            text,
            style: DialogStyles::of(f.theme).description,
            fit: Fit::Whole,
            right: true,
        },
    )
}

/// The bar of a list of so many rows.
pub open spec fn list_bar(f: SourceSheet<'_>, total: int) -> Seq<Drawn> {
    bar_if(
        f.list.scrollbar,
        f.list.first_row,
        minus(total, greatest(f.list.row_rects@.len() as int, 1)) as usize,
    )
}

/// The first `n` rows of a pane whose lines show from one on.
pub open spec fn pane_rows(f: SourceSheet<'_>, first: int, n: int) -> Seq<Drawn>
    decreases n,
{
    if n <= 0 {
        seq![]
    } else {
        pane_rows(f, first, n - 1) + if_drawn(
            first + n - 1 < f.lines@.len(),
            text_at(
                f.pane.row_rects@[n - 1],
                f.lines@[first + n - 1]@,
                DialogStyles::of(f.theme).description,
                Fit::Truncated,
            ),
        )
    }
}

/// How far a pane scrolls and where it stands.
pub open spec fn pane_scroll(f: SourceSheet<'_>) -> PaneScroll {
    let limit = minus(greatest(f.lines@.len() as int, 1), f.pane.row_rects@.len() as int);
    PaneScroll {
        limit: limit as usize,
        scroll: least(f.pane.first_row as int, limit) as usize,
    }
}

impl SourceModel {
    /// The heading of a pane: a key's colour where it has the arrows.
    pub open spec fn pane_heading(self, f: SourceSheet<'_>, text: Seq<char>) -> Drawn {
        let styles = DialogStyles::of(f.theme);
        text_at(
            f.pane.heading,
            text,
            if self.scroll_focused {
                Style { bold: true, ..styles.shortcut }
            } else {
                Style { bold: true, ..styles.label }
            },
            Fit::Whole,
        )
    }

    /// A pane.
    pub open spec fn pane_part(self, f: SourceSheet<'_>, title: Seq<char>) -> Seq<Drawn> {
        let scroll = pane_scroll(f);
        seq![self.pane_heading(f, title)] + pane_rows(
            f,
            scroll.scroll as int,
            f.pane.row_rects@.len() as int,
        ) + bar_if(f.pane.scrollbar, scroll.scroll, scroll.limit)
    }

    /// The source that is drawn as selected.
    pub open spec fn drawn_source(self, f: SourceSheet<'_>) -> int {
        least(self.existing_selected, minus(f.sources@.len() as int, 1))
    }

    pub open spec fn source_rows(self, f: SourceSheet<'_>) -> Seq<(Rect, usize)> {
        item_rows(f.list.row_rects@, f.list.first_row as int, f.sources@.len() as int)
    }

    /// The first `n` rows of the sources.
    pub open spec fn source_rows_part(self, f: SourceSheet<'_>, n: int) -> Seq<Drawn>
        decreases n,
    {
        if n <= 0 {
            seq![]
        } else {
            let styles = DialogStyles::of(f.theme);
            let (row, index) = self.source_rows(f)[n - 1];
            let chosen = index == self.drawn_source(f);
            let source = f.sources@[index as int];
            self.source_rows_part(f, n - 1) + seq![
                text_at(
                    row,
                    named_row(chosen, f.ascii, source.name@, source.health@),
                    if chosen {
                        styles.selection
                    } else {
                        styles.description
                    },
                    Fit::Truncated,
                ),
            ]
        }
    }

    /// The list of sources.
    pub open spec fn source_list_part(self, f: SourceSheet<'_>) -> Seq<Drawn> {
        let total = f.sources@.len() as int;
        seq![list_heading(f, "Sources"@)] + list_count(
            f,
            f.list.count,
            if total == 0 {
                "none"@
            } else {
                decimal(total as nat)
            },
        ) + if_drawn(
            total == 0,
            text_at(
                f.list.viewport,
                "No sources in this workspace"@,
                DialogStyles::of(f.theme).unavailable,
                Fit::Whole,
            ),
        ) + self.source_rows_part(f, self.source_rows(f).len() as int) + list_bar(f, total)
    }

    #[verifier::opaque]
    pub open spec fn existing_part(self, f: SourceSheet<'_>) -> Seq<Drawn> {
        let (list, details) = existing_areas(f.resolved.body);
        (if list.height > 0 {
            self.source_list_part(f)
        } else {
            seq![]
        }) + (if details.height > 0 {
            self.pane_part(f, "Full status"@)
        } else {
            seq![]
        })
    }

    /// The place of the caret in the field that takes text.
    pub open spec fn field_caret(self) -> Option<usize> {
        match self.field() {
            Some(field) => Some(self.caret(field) as usize),
            None => None,
        }
    }

    /// What is left of a manual source's body for completions.
    pub open spec fn rest_area(self, f: SourceSheet<'_>) -> Rect {
        let body = f.resolved.body;
        Rect::spec_new(
            body.x,
            sat16(sat16(body.y + 2) + gap_of(f.roomy())) as u16,
            body.width,
            minus(minus(body.height as int, 2), gap_of(f.roomy())) as u16,
        )
    }

    pub open spec fn drawn_candidate(self) -> int {
        least(self.path.selected, minus(self.path.candidates.len() as int, 1))
    }

    pub open spec fn candidate_rows(self, f: SourceSheet<'_>) -> Seq<(Rect, usize)> {
        item_rows(
            f.list.row_rects@,
            f.list.first_row as int,
            self.path.candidates.len() as int,
        )
    }

    /// The first `n` rows of the completed paths.
    pub open spec fn candidate_rows_part(self, f: SourceSheet<'_>, n: int) -> Seq<Drawn>
        decreases n,
    {
        if n <= 0 {
            seq![]
        } else {
            let styles = DialogStyles::of(f.theme);
            let (row, index) = self.candidate_rows(f)[n - 1];
            let chosen = index == self.drawn_candidate();
            self.candidate_rows_part(f, n - 1) + seq![
                text_at(
                    row,
                    row_marker(chosen, f.ascii) + self.path.candidates[index as int],
                    if chosen {
                        styles.selection
                    } else {
                        styles.description
                    },
                    Fit::Truncated,
                ),
            ]
        }
    }

    /// What stands below the field of a manual source.
    pub open spec fn rest_part(self, f: SourceSheet<'_>) -> Seq<Drawn> {
        let styles = DialogStyles::of(f.theme);
        let rest = self.rest_area(f);
        match self.manual_rest(rest.height as int) {
            ManualRest::Nothing => seq![],
            ManualRest::Completing => seq![
                text_at(rest, "Completing path\u{2026}"@, styles.pending, Fit::Whole),
            ],
            ManualRest::NoSuggestions { typed } => seq![
                list_heading(f, "Suggestions"@),
                text_at(
                    f.list.viewport,
                    if typed {
                        "no matching paths"@
                    } else {
                        "type a path to see matching files"@
                    },
                    styles.unavailable,
                    Fit::Whole,
                ),
            ],
            ManualRest::Suggestions(count) => seq![list_heading(f, "Suggestions"@)] + list_count(
                f,
                f.list.count,
                decimal(count as nat) + " match"@ + (if count == 1 {
                    ""@
                } else {
                    "es"@
                }),
            ) + self.candidate_rows_part(f, self.candidate_rows(f).len() as int) + list_bar(
                f,
                count as int,
            ),
            ManualRest::CommandNote => seq![
                Drawn::Wrapped {
                    area: rest,
                    text:
                        "Command completion is disabled; the command runs in the workspace directory."@,
                    style: styles.description,
                    first: 0,
                },
            ],
        }
    }

    /// The kinds of a manual source.
    pub open spec fn kinds_part(self, f: SourceSheet<'_>) -> Seq<Drawn> {
        let body = f.resolved.body;
        let x = sat16(sat16(body.x + MANUAL_LABEL_WIDTH) + FIELD_GUTTER);
        seq![
            text_at(
                Rect::spec_new(
                    body.x,
                    body.y,
                    least(MANUAL_LABEL_WIDTH as int, body.width as int) as u16,
                    1,
                ),
                "Kind"@,
                DialogStyles::of(f.theme).label,
                Fit::Whole,
            ),
            Drawn::Radio {
                area: Rect::spec_new(x as u16, body.y, minus(body.spec_right(), x) as u16, 1),
                active: if self.kind == SourceKind::Command {
                    1
                } else {
                    0
                },
                focused: match self.control {
                    SourceControl::File => Some(0usize),
                    SourceControl::Command => Some(1usize),
                    _ => None,
                },
            },
        ]
    }

    /// The field of a mode.
    pub open spec fn field_part(
        self,
        area: Rect,
        label_width: u16,
        label: Seq<char>,
        value: Seq<char>,
        placeholder: Seq<char>,
        has_focus: bool,
    ) -> Drawn {
        Drawn::Field {
            area,
            label_width,
            label,
            value,
            placeholder,
            has_focus,
            caret: self.field_caret(),
        }
    }

    #[verifier::opaque]
    pub open spec fn manual_part(self, f: SourceSheet<'_>) -> Seq<Drawn> {
        let body = f.resolved.body;
        let file = self.kind == SourceKind::File;
        self.kinds_part(f) + if_drawn(
            body.height > 1,
            self.field_part(
                Rect::spec_new(body.x, sat16(body.y + 1) as u16, body.width, 1),
                MANUAL_LABEL_WIDTH,
                if file {
                    "Path"@
                } else {
                    "Command"@
                },
                self.draft,
                if file {
                    "path to a log file"@
                } else {
                    "program and arguments, e.g. journalctl -f"@
                },
                !self.controls_focused,
            ),
        ) + self.rest_part(f)
    }

    /// The discovered source that is drawn as selected.
    pub open spec fn drawn_found(self, f: SourceSheet<'_>) -> int {
        least(self.discovery.selected, minus(f.found as int, 1))
    }

    /// A row of the discovered sources.
    pub open spec fn found_row_part(self, f: SourceSheet<'_>, row: Rect, shown: DiscoveryDisplayRow) -> Drawn {
        let styles = DialogStyles::of(f.theme);
        match shown {
            DiscoveryDisplayRow::Heading(section) => text_at(
                row,
                f.groups@[section.rank as int]@,
                styles.shortcut,
                Fit::Truncated,
            ),
            DiscoveryDisplayRow::Candidate { item, selection } => {
                let found = self.discovery.items[item as int];
                let chosen = selection == self.drawn_found(f);
                text_at(
                    row,
                    named_row(chosen, f.ascii, found.label@, found.status@),
                    if chosen {
                        styles.selection
                    } else if found.availability == DiscoveryAvailability::NotAvailable {
                        styles.unavailable
                    } else {
                        styles.description
                    },
                    Fit::Truncated,
                )
            },
            DiscoveryDisplayRow::OlderUnavailable(hidden) => text_at(
                row,
                if hidden == 0 {
                    "Hide older unavailable sources \u{b7} Alt-U"@
                } else {
                    "Show "@ + decimal(hidden as nat)
                        + " older unavailable sources \u{b7} Alt-U"@
                },
                styles.shortcut,
                Fit::Truncated,
            ),
        }
    }

    /// The first `n` rows of the discovered sources.
    pub open spec fn found_rows_part(self, f: SourceSheet<'_>, n: int) -> Seq<Drawn>
        decreases n,
    {
        if n <= 0 {
            seq![]
        } else {
            let place = f.list.first_row + n - 1;
            self.found_rows_part(f, n - 1) + (if place < f.rows@.len() {
                seq![self.found_row_part(f, f.list.row_rects@[n - 1], f.rows@[place])]
            } else {
                seq![]
            })
        }
    }

    /// The list of discovered sources.
    pub open spec fn found_list_part(self, f: SourceSheet<'_>) -> Seq<Drawn> {
        let total = f.rows@.len() as int;
        seq![list_heading(f, "Sources"@)] + list_count(
            f,
            f.list.count,
            if f.found == 0 {
                "none"@
            } else {
                decimal(f.shown as nat) + " of "@ + decimal(f.found as nat)
            },
        ) + if_drawn(
            total == 0,
            text_at(
                f.list.viewport,
                "No matching candidates"@,
                DialogStyles::of(f.theme).unavailable,
                Fit::Whole,
            ),
        ) + self.found_rows_part(f, f.list.row_rects@.len() as int) + list_bar(f, total)
    }

    pub open spec fn found_area(self, f: SourceSheet<'_>) -> Rect {
        let body = f.resolved.body;
        let gap = gap_of(f.roomy());
        let room = minus(minus(body.height as int, 1), gap);
        Rect::spec_new(
            body.x,
            sat16(sat16(body.y + 1) + gap) as u16,
            body.width,
            (room - least(3, room)) as u16,
        )
    }

    /// Where the details of a discovered source, or the report of a scan that
    /// found none, are shown.
    pub open spec fn status_area(self, f: SourceSheet<'_>) -> Rect {
        let body = f.resolved.body;
        let y = if self.shows_report() {
            sat16(sat16(body.y + 1) + gap_of(f.roomy()))
        } else {
            self.found_area(f).spec_bottom()
        };
        Rect::spec_new(body.x, y as u16, body.width, minus(body.spec_bottom(), y) as u16)
    }

    #[verifier::opaque]
    pub open spec fn discovery_part(self, f: SourceSheet<'_>) -> Seq<Drawn> {
        let body = f.resolved.body;
        seq![
            self.field_part(
                Rect::spec_new(body.x, body.y, body.width, 1),
                6,
                "Filter"@,
                self.discovery.query,
                "narrow the candidates"@,
                !self.controls_focused,
            ),
        ] + (if !self.shows_report() && self.found_area(f).height > 0 {
            self.found_list_part(f)
        } else {
            seq![]
        }) + (if self.status_area(f).height > 0 {
            self.pane_part(f, "Details"@)
        } else {
            seq![]
        })
    }

    /// Where the lines of a proposal are shown.
    pub open spec fn review_area(self, f: SourceSheet<'_>) -> Rect {
        let body = f.resolved.body;
        Rect::spec_new(
            body.x,
            sat16(sat16(body.y + 1) + gap_of(f.roomy())) as u16,
            body.width,
            minus(minus(body.height as int, 1), gap_of(f.roomy())) as u16,
        )
    }

    /// How far the lines of a proposal scroll and where they stand.
    pub open spec fn review_scroll(self, f: SourceSheet<'_>) -> PaneScroll {
        let limit = minus(greatest(f.lines@.len() as int, 1), greatest(f.probe_rows as int, 1));
        PaneScroll {
            limit: limit as usize,
            scroll: least(f.probe_first as int, limit) as usize,
        }
    }

    /// Which lines of a proposal show, where not all do.
    pub open spec fn review_count(self, f: SourceSheet<'_>) -> Seq<Drawn> {
        let total = greatest(f.lines@.len() as int, 1);
        let visible = greatest(f.probe_rows as int, 1);
        let scroll = self.review_scroll(f);
        if scroll.limit > 0 {
            list_count(
                f,
                f.pane.count,
                "lines "@ + decimal(least(scroll.scroll + 1, usize::MAX as int) as nat)
                    + "\u{2013}"@ + decimal(least(scroll.scroll + visible, total) as nat)
                    + " of "@ + decimal(total as nat),
            )
        } else {
            seq![]
        }
    }

    #[verifier::opaque]
    pub open spec fn agent_part(self, f: SourceSheet<'_>) -> Seq<Drawn> {
        let body = f.resolved.body;
        let scroll = self.review_scroll(f);
        seq![
            self.field_part(
                Rect::spec_new(body.x, body.y, body.width, 1),
                8,
                "Describe"@,
                self.ai.instruction,
                "the source to follow, e.g. tail the nginx access log"@,
                self.ai_is_editable() && !self.controls_focused,
            ),
        ] + (if self.review_area(f).height > 0 {
            seq![self.pane_heading(f, "Preview"@)] + self.review_count(f) + pane_rows(
                f,
                scroll.scroll as int,
                f.pane.row_rects@.len() as int,
            ) + bar_if(f.pane.scrollbar, scroll.scroll, scroll.limit)
        } else {
            seq![]
        })
    }

    /// The body of the mode.
    pub open spec fn body_part(self, f: SourceSheet<'_>) -> Seq<Drawn> {
        match self.mode {
            SourceDialogMode::Existing => self.existing_part(f),
            SourceDialogMode::Manual => self.manual_part(f),
            SourceDialogMode::Discovery => self.discovery_part(f),
            SourceDialogMode::Ai => self.agent_part(f),
        }
    }

    pub open spec fn header_part(self, f: SourceSheet<'_>) -> Seq<Drawn> {
        seq![
            Drawn::Frame {
                title: if self.mode == SourceDialogMode::Existing {
                    "Sources"@
                } else {
                    "Add source"@
                },
            },
        ] + if_drawn(
            self.mode != SourceDialogMode::Existing,
            Drawn::Segments {
                area: f.resolved.header,
                active: match self.mode {
                    SourceDialogMode::Discovery => 1,
                    SourceDialogMode::Ai => 2,
                    _ => 0,
                },
                focused: match self.control {
                    SourceControl::Manual => Some(0usize),
                    SourceControl::Discovery => Some(1usize),
                    SourceControl::Agent => Some(2usize),
                    _ => None,
                },
            },
        )
    }

    /// The first `n` buttons.
    pub open spec fn buttons_part(self, f: SourceSheet<'_>, n: int) -> Seq<Drawn>
        decreases n,
    {
        if n <= 0 {
            seq![]
        } else {
            let (index, area) = f.resolved.actions.buttons@[n - 1];
            self.buttons_part(f, n - 1) + seq![
                Drawn::Button {
                    area,
                    label: self.labels(true)[index as int],
                    style: role_look(
                        f.theme,
                        role_at(
                            if self.mode == SourceDialogMode::Existing {
                                seq![2usize]
                            } else {
                                seq![]
                            },
                            Some(self.default_action()),
                            index,
                        ),
                        self.action_control(index as int) == Some(self.control),
                    ),
                },
            ]
        }
    }

    pub open spec fn tail_part(self, f: SourceSheet<'_>) -> Seq<Drawn> {
        seq![
            Drawn::Message {
                area: f.resolved.message,
                state: self.message().0,
                text: self.message().1,
            },
            Drawn::Help { area: f.resolved.help, text: ""@ },
        ] + self.buttons_part(f, f.resolved.actions.buttons@.len() as int)
    }

    /// A frame, thing by thing.
    pub open spec fn picture(self, f: SourceSheet<'_>) -> Seq<Drawn> {
        if f.empty() {
            self.header_part(f)
        } else {
            self.header_part(f) + self.body_part(f) + self.tail_part(f)
        }
    }

    /// The mode's list shows.
    pub open spec fn shows_list(self, f: SourceSheet<'_>) -> bool {
        match self.mode {
            SourceDialogMode::Existing => existing_areas(f.resolved.body).0.height > 0,
            SourceDialogMode::Manual => self.manual_rest(
                self.rest_area(f).height as int,
            ) is Suggestions,
            SourceDialogMode::Discovery => !self.shows_report() && self.found_area(f).height > 0,
            SourceDialogMode::Ai => false,
        }
    }

    /// The mode's pane: where it is shown, if it is.
    pub open spec fn pane_area(self, f: SourceSheet<'_>) -> Option<Rect> {
        let area = match self.mode {
            SourceDialogMode::Existing => existing_areas(f.resolved.body).1,
            SourceDialogMode::Manual => Rect { x: 0, y: 0, width: 0, height: 0 },
            SourceDialogMode::Discovery => self.status_area(f),
            SourceDialogMode::Ai => self.review_area(f),
        };
        if area.height > 0 {
            Some(area)
        } else {
            None
        }
    }

    /// Where the wheel scrolls the pane: the status always, the others where
    /// there is more than they show.
    pub open spec fn scroll_area(self, f: SourceSheet<'_>) -> Option<Rect> {
        let scrolls = match self.mode {
            SourceDialogMode::Discovery => true,
            SourceDialogMode::Ai => self.review_scroll(f).limit > 0,
            _ => pane_scroll(f).limit > 0,
        };
        if scrolls {
            self.pane_area(f)
        } else {
            None
        }
    }

    /// Where a frame draws what can be clicked.
    pub open spec fn is_laid_out(self, f: SourceSheet<'_>, g: SourceGeometry) -> bool {
        let modes = if self.mode == SourceDialogMode::Existing {
            seq![]
        } else {
            f.modes@
        };
        if f.empty() {
            &&& g.controls@ == selector_regions(modes)
            &&& g.path_completion_rows@.len() == 0
            &&& g.discovery_rows@.len() == 0
            &&& g.older_unavailable is None
            &&& g.existing_rows@.len() == 0
            &&& g.scroll is None
        } else {
            &&& g.controls@ == selector_regions(modes) + kind_regions(
                if self.mode == SourceDialogMode::Manual {
                    f.kinds@
                } else {
                    seq![]
                },
            ) + button_regions(
                self,
                f.resolved.actions.buttons@,
                f.resolved.actions.buttons@.len() as int,
            )
            &&& g.existing_rows@ == if self.mode == SourceDialogMode::Existing && self.shows_list(
                f,
            ) {
                self.source_rows(f)
            } else {
                seq![]
            }
            &&& g.path_completion_rows@ == if self.mode == SourceDialogMode::Manual
                && self.shows_list(f) {
                self.candidate_rows(f)
            } else {
                seq![]
            }
            &&& g.discovery_rows@ == if self.mode == SourceDialogMode::Discovery
                && self.shows_list(f) {
                candidate_regions(
                    f.rows@,
                    f.list.first_row as int,
                    f.list.row_rects@,
                    f.list.row_rects@.len() as int,
                )
            } else {
                seq![]
            }
            &&& g.older_unavailable == if self.mode == SourceDialogMode::Discovery
                && self.shows_list(f) {
                older_region(
                    f.rows@,
                    f.list.first_row as int,
                    f.list.row_rects@,
                    f.list.row_rects@.len() as int,
                )
            } else {
                None
            }
            &&& g.scroll == self.scroll_area(f)
        }
    }

    /// The field of the mode is drawn.
    pub open spec fn shows_field(self, f: SourceSheet<'_>) -> bool {
        match self.mode {
            SourceDialogMode::Existing => false,
            SourceDialogMode::Manual => f.resolved.body.height > 1,
            _ => true,
        }
    }

    /// What a frame covers.
    pub open spec fn covered(self, f: SourceSheet<'_>) -> Surface {
        Surface {
            popup: f.resolved.frame,
            interior: f.resolved.interior,
            caret: if !f.empty() && self.shows_field(f) {
                f.caret
            } else {
                None
            },
            scrollable: !f.empty() && ((self.shows_list(f) && f.list.scrollbar is Some) || (
            self.pane_area(f) is Some && f.pane.scrollbar is Some)),
            text_focus: self.field() is Some,
        }
    }

    /// The state that a frame leaves.
    pub open spec fn after_frame(self, f: SourceSheet<'_>) -> SourceModel {
        if f.empty() || self.pane_area(f) is None {
            self
        } else {
            match self.mode {
                SourceDialogMode::Existing => self.existing_settled(
                    pane_scroll(f),
                    self.drawn_source(f),
                ),
                SourceDialogMode::Manual => self,
                SourceDialogMode::Discovery => self.status_settled(pane_scroll(f)),
                SourceDialogMode::Ai => self.preview_settled(self.review_scroll(f)),
            }
        }
    }
}

fn paint_list_heading(out: &mut Vec<Paint>, f: SourceSheet<'_>, text: &str)
    ensures
        picture(final(out)@) == picture(old(out)@) + seq![list_heading(f, text@)],
{
    let styles = DialogStyles::new(f.theme);
    put_text(out, f.list.heading, text.to_owned(), styles.label.bold(), Fit::Whole);
}

fn paint_count(out: &mut Vec<Paint>, f: SourceSheet<'_>, area: Rect, text: String)
    ensures
        picture(final(out)@) == picture(old(out)@) + list_count(f, area, text@),
{
    let ghost before = picture(out@);
    let ghost said = text@;
    let styles = DialogStyles::new(f.theme);
    if area.width > 0 {
        put(
            out,
            Paint::Text { area, text, style: styles.description, fit: Fit::Whole, right: true },
        );
    }
    assert(picture(out@) =~= before + list_count(f, area, said));
}

fn paint_list_bar(out: &mut Vec<Paint>, f: SourceSheet<'_>, total: usize)
    ensures
        picture(final(out)@) == picture(old(out)@) + list_bar(f, total as int),
{
    let visible: usize = if f.list.row_rects.len() > 1 {
        f.list.row_rects.len()
    } else {
        1
    };
    put_bar(out, f.list.scrollbar, f.list.first_row, total.saturating_sub(visible));
}

fn paint_pane_rows(out: &mut Vec<Paint>, f: SourceSheet<'_>, first: usize)
    ensures
        picture(final(out)@) == picture(old(out)@) + pane_rows(
            f,
            first as int,
            f.pane.row_rects@.len() as int,
        ),
{
    let ghost before = picture(out@);
    let styles = DialogStyles::new(f.theme);
    let mut i: usize = 0;
    assert(before + pane_rows(f, first as int, 0) =~= before);
    while i < f.pane.row_rects.len()
        invariant
            i <= f.pane.row_rects@.len(),
            styles == DialogStyles::of(f.theme),
            picture(out@) == before + pane_rows(f, first as int, i as int),
        decreases f.pane.row_rects.len() - i,
    {
        if first < f.lines.len() && i < f.lines.len() - first {
            put_text(
                out,
                f.pane.row_rects[i],
                f.lines[first + i].clone(),
                styles.description,
                Fit::Truncated,
            );
        }
        assert(picture(out@) =~= before + pane_rows(f, first as int, i + 1));
        i += 1;
    }
}

fn scroll_of_pane(f: SourceSheet<'_>) -> (r: PaneScroll)
    ensures
        r == pane_scroll(f),
{
    let total: usize = if f.lines.len() > 1 {
        f.lines.len()
    } else {
        1
    };
    settle_scroll(total, f.pane.row_rects.len(), f.pane.first_row)
}

impl SourceDialog {
    fn paint_pane_heading(&self, out: &mut Vec<Paint>, f: SourceSheet<'_>, text: &str)
        ensures
            picture(final(out)@) == picture(old(out)@) + seq![self.model().pane_heading(f, text@)],
    {
        let styles = DialogStyles::new(f.theme);
        put_text(
            out,
            f.pane.heading,
            text.to_owned(),
            if self.scroll_focused {
                styles.shortcut.bold()
            } else {
                styles.label.bold()
            },
            Fit::Whole,
        );
    }

    fn paint_pane(&self, out: &mut Vec<Paint>, f: SourceSheet<'_>, title: &str)
        ensures
            picture(final(out)@) == picture(old(out)@) + self.model().pane_part(f, title@),
    {
        let ghost before = picture(out@);
        let ghost m = self.model();
        let scroll = scroll_of_pane(f);
        self.paint_pane_heading(out, f, title);
        paint_pane_rows(out, f, scroll.scroll);
        put_bar(out, f.pane.scrollbar, scroll.scroll, scroll.limit);
        assert(picture(out@) =~= before + m.pane_part(f, title@));
    }

    fn drawn_source(&self, f: SourceSheet<'_>) -> (r: usize)
        ensures
            r == self.model().drawn_source(f),
    {
        let last: usize = f.sources.len().saturating_sub(1);
        if self.state.existing_selected < last {
            self.state.existing_selected
        } else {
            last
        }
    }

    fn paint_sources(&self, out: &mut Vec<Paint>, f: SourceSheet<'_>) -> (r: Vec<(Rect, usize)>)
        ensures
            picture(final(out)@) == picture(old(out)@) + self.model().source_list_part(f),
            r@ == self.model().source_rows(f),
    {
        let ghost before = picture(out@);
        let ghost m = self.model();
        let styles = DialogStyles::new(f.theme);
        let total: usize = f.sources.len();
        paint_list_heading(out, f, "Sources");
        paint_count(out, f, f.list.count, count_text(total));
        if total == 0 {
            put_text(
                out,
                f.list.viewport,
                "No sources in this workspace".to_owned(),
                styles.unavailable,
                Fit::Whole,
            );
        }
        let rows = rows_with_items(&f.list.row_rects, f.list.first_row, total);
        let chosen: usize = self.drawn_source(f);
        let ghost lead = picture(out@);
        let mut i: usize = 0;
        assert(lead + m.source_rows_part(f, 0) =~= lead);
        while i < rows.len()
            invariant
                i <= rows@.len(),
                m == self.model(),
                total == f.sources@.len(),
                chosen == m.drawn_source(f),
                styles == DialogStyles::of(f.theme),
                rows@ == m.source_rows(f),
                picture(out@) == lead + m.source_rows_part(f, i as int),
            decreases rows.len() - i,
        {
            let (row, index) = rows[i];
            assert(m.source_rows(f)[i as int] == (row, index));
            let source = &f.sources[index];
            put_text(
                out,
                row,
                named_row_text(
                    index == chosen,
                    f.ascii,
                    source.name.as_str(),
                    source.health.as_str(),
                ),
                if index == chosen {
                    styles.selection
                } else {
                    styles.description
                },
                Fit::Truncated,
            );
            assert(picture(out@) =~= lead + m.source_rows_part(f, i + 1));
            i += 1;
        }
        paint_list_bar(out, f, total);
        assert(picture(out@) =~= before + m.source_list_part(f));
        rows
    }

    fn paint_existing(&self, out: &mut Vec<Paint>, f: SourceSheet<'_>) -> (r: Vec<(Rect, usize)>)
        requires
            self.model().mode == SourceDialogMode::Existing,
        ensures
            picture(final(out)@) == picture(old(out)@) + self.model().existing_part(f),
            r@ == if self.model().shows_list(f) {
                self.model().source_rows(f)
            } else {
                seq![]
            },
    {
        let ghost before = picture(out@);
        let ghost m = self.model();
        let (list, details) = split_existing(f.resolved.body);
        let mut rows: Vec<(Rect, usize)> = Vec::new();
        if list.height > 0 {
            rows = self.paint_sources(out, f);
        }
        if details.height > 0 {
            self.paint_pane(out, f, "Full status");
        }
        proof {
            reveal(SourceModel::existing_part);
            assert(picture(out@) =~= before + m.existing_part(f));
        }
        rows
    }

    fn drawn_candidate(&self) -> (r: usize)
        ensures
            r == self.model().drawn_candidate(),
    {
        let last: usize = self.state.path_completion.candidates.len().saturating_sub(1);
        if self.state.path_completion.selected < last {
            self.state.path_completion.selected
        } else {
            last
        }
    }

    fn paint_candidates(&self, out: &mut Vec<Paint>, f: SourceSheet<'_>) -> (r: Vec<(Rect, usize)>)
        ensures
            picture(final(out)@) == picture(old(out)@) + self.model().candidate_rows_part(
                f,
                self.model().candidate_rows(f).len() as int,
            ),
            r@ == self.model().candidate_rows(f),
    {
        let ghost before = picture(out@);
        let ghost m = self.model();
        let styles = DialogStyles::new(f.theme);
        let candidates = &self.state.path_completion.candidates;
        let rows = rows_with_items(&f.list.row_rects, f.list.first_row, candidates.len());
        let chosen: usize = self.drawn_candidate();
        let mut i: usize = 0;
        assert(before + m.candidate_rows_part(f, 0) =~= before);
        while i < rows.len()
            invariant
                i <= rows@.len(),
                m == self.model(),
                texts(candidates@) == m.path.candidates,
                chosen == m.drawn_candidate(),
                styles == DialogStyles::of(f.theme),
                rows@ == m.candidate_rows(f),
                picture(out@) == before + m.candidate_rows_part(f, i as int),
            decreases rows.len() - i,
        {
            let (row, index) = rows[i];
            assert(m.candidate_rows(f)[i as int] == (row, index));
            assert(texts(candidates@)[index as int] == candidates@[index as int]@);
            put_text(
                out,
                row,
                candidate_row_text(index == chosen, f.ascii, candidates[index].as_str()),
                if index == chosen {
                    styles.selection
                } else {
                    styles.description
                },
                Fit::Truncated,
            );
            assert(picture(out@) =~= before + m.candidate_rows_part(f, i + 1));
            i += 1;
        }
        rows
    }

    fn paint_rest(&self, out: &mut Vec<Paint>, f: SourceSheet<'_>, rest: Rect) -> (r: Vec<
        (Rect, usize),
    >)
        requires
            rest == self.model().rest_area(f),
        ensures
            picture(final(out)@) == picture(old(out)@) + self.model().rest_part(f),
            r@ == if self.model().manual_rest(rest.height as int) is Suggestions {
                self.model().candidate_rows(f)
            } else {
                seq![]
            },
    {
        let ghost before = picture(out@);
        let ghost m = self.model();
        let styles = DialogStyles::new(f.theme);
        let mut rows: Vec<(Rect, usize)> = Vec::new();
        match self.manual_rest(rest.height) {
            ManualRest::Nothing => {},
            ManualRest::Completing => {
                put_text(
                    out,
                    rest,
                    "Completing path\u{2026}".to_owned(),
                    styles.pending,
                    Fit::Whole,
                );
            },
            ManualRest::NoSuggestions { typed } => {
                paint_list_heading(out, f, "Suggestions");
                put_text(
                    out,
                    f.list.viewport,
                    (if typed {
                        "no matching paths"
                    } else {
                        "type a path to see matching files"
                    }).to_owned(),
                    styles.unavailable,
                    Fit::Whole,
                );
            },
            ManualRest::Suggestions(count) => {
                paint_list_heading(out, f, "Suggestions");
                paint_count(out, f, f.list.count, match_count(count));
                rows = self.paint_candidates(out, f);
                paint_list_bar(out, f, count);
            },
            ManualRest::CommandNote => {
                put(
                    out,
                    Paint::Wrapped {
                        area: rest,
                        text:
                            "Command completion is disabled; the command runs in the workspace directory.".to_owned(),
                        style: styles.description,
                        first: 0,
                    },
                );
            },
        }
        assert(picture(out@) =~= before + m.rest_part(f));
        rows
    }

    fn paint_field(
        &self,
        out: &mut Vec<Paint>,
        area: Rect,
        label_width: u16,
        label: &str,
        value: &str,
        placeholder: &str,
        has_focus: bool,
    )
        ensures
            picture(final(out)@) == picture(old(out)@) + seq![
                self.model().field_part(
                    area,
                    label_width,
                    label@,
                    value@,
                    placeholder@,
                    has_focus,
                ),
            ],
    {
        let caret = self.active_cursor();
        assert(caret == self.model().field_caret());
        put(
            out,
            Paint::Field {
                area,
                label_width,
                label: label.to_owned(),
                value: value.to_owned(),
                placeholder: placeholder.to_owned(),
                has_focus,
                caret,
            },
        );
    }

    fn paint_kinds(&self, out: &mut Vec<Paint>, f: SourceSheet<'_>, label: Rect, kinds: Rect)
        requires
            label == Rect::spec_new(
                f.resolved.body.x,
                f.resolved.body.y,
                least(MANUAL_LABEL_WIDTH as int, f.resolved.body.width as int) as u16,
                1,
            ),
            kinds == {
                let x = sat16(sat16(f.resolved.body.x + MANUAL_LABEL_WIDTH) + FIELD_GUTTER);
                Rect::spec_new(
                    x as u16,
                    f.resolved.body.y,
                    minus(f.resolved.body.spec_right(), x) as u16,
                    1,
                )
            },
        ensures
            picture(final(out)@) == picture(old(out)@) + self.model().kinds_part(f),
    {
        let ghost before = picture(out@);
        let styles = DialogStyles::new(f.theme);
        put_text(out, label, "Kind".to_owned(), styles.label, Fit::Whole);
        put(
            out,
            Paint::Radio {
                area: kinds,
                active: if self.state.kind == SourceKind::Command {
                    1
                } else {
                    0
                },
                focused: match self.state.control {
                    SourceControl::File => Some(0),
                    SourceControl::Command => Some(1),
                    _ => None,
                },
            },
        );
        assert(picture(out@) =~= before + self.model().kinds_part(f));
    }

    fn paint_manual(&self, out: &mut Vec<Paint>, f: SourceSheet<'_>) -> (r: Vec<(Rect, usize)>)
        requires
            self.model().mode == SourceDialogMode::Manual,
        ensures
            picture(final(out)@) == picture(old(out)@) + self.model().manual_part(f),
            r@ == if self.model().shows_list(f) {
                self.model().candidate_rows(f)
            } else {
                seq![]
            },
    {
        let ghost before = picture(out@);
        let ghost m = self.model();
        let areas = split_manual(f.resolved.body, !f.resolved.compact);
        self.paint_kinds(out, f, areas.label, areas.kinds);
        let ghost lead = picture(out@);
        let file = self.state.kind == SourceKind::File;
        if let Some(area) = areas.field {
            self.paint_field(
                out,
                area,
                MANUAL_LABEL_WIDTH,
                if file {
                    "Path"
                } else {
                    "Command"
                },
                self.state.draft.as_str(),
                if file {
                    "path to a log file"
                } else {
                    "program and arguments, e.g. journalctl -f"
                },
                !self.state.controls_focused,
            );
        }
        let ghost middle = picture(out@);
        let rows = self.paint_rest(out, f, areas.rest);
        proof {
            reveal(SourceModel::manual_part);
            let body = f.resolved.body;
            let file = m.kind == SourceKind::File;
            let field = if_drawn(
                body.height > 1,
                m.field_part(
                    Rect::spec_new(body.x, sat16(body.y + 1) as u16, body.width, 1),
                    MANUAL_LABEL_WIDTH,
                    if file {
                        "Path"@
                    } else {
                        "Command"@
                    },
                    m.draft,
                    if file {
                        "path to a log file"@
                    } else {
                        "program and arguments, e.g. journalctl -f"@
                    },
                    !m.controls_focused,
                ),
            );
            assert(middle =~= lead + field);
            let (a, b) = (m.kinds_part(f), m.rest_part(f));
            assert(before + a + field + b =~= before + (a + field + b));
        }
        rows
    }

    fn drawn_found(&self, f: SourceSheet<'_>) -> (r: usize)
        ensures
            r == self.model().drawn_found(f),
    {
        let last: usize = f.found.saturating_sub(1);
        if self.state.discovery.selected < last {
            self.state.discovery.selected
        } else {
            last
        }
    }

    fn paint_found_row(&self, out: &mut Vec<Paint>, f: SourceSheet<'_>, row: Rect, place: usize)
        requires
            f.fits(self.model()),
            place < f.rows@.len(),
        ensures
            picture(final(out)@) == picture(old(out)@) + seq![
                self.model().found_row_part(f, row, f.rows@[place as int]),
            ],
    {
        let styles = DialogStyles::new(f.theme);
        let shown = f.rows[place];
        assert(f.rows@[place as int] == shown);
        match shown {
            DiscoveryDisplayRow::Heading(section) => {
                put_text(
                    out,
                    row,
                    f.groups[section.rank as usize].clone(),
                    styles.shortcut,
                    Fit::Truncated,
                );
            },
            DiscoveryDisplayRow::Candidate { item, selection } => {
                let found = &self.state.discovery.items[item];
                let chosen = selection == self.drawn_found(f);
                put_text(
                    out,
                    row,
                    named_row_text(
                        chosen,
                        f.ascii,
                        found.label.as_str(),
                        found.status.as_str(),
                    ),
                    if chosen {
                        styles.selection
                    } else if found.availability == DiscoveryAvailability::NotAvailable {
                        styles.unavailable
                    } else {
                        styles.description
                    },
                    Fit::Truncated,
                );
            },
            DiscoveryDisplayRow::OlderUnavailable(hidden) => {
                put_text(out, row, older_label(hidden), styles.shortcut, Fit::Truncated);
            },
        }
    }

    fn paint_found(&self, out: &mut Vec<Paint>, f: SourceSheet<'_>)
        requires
            f.fits(self.model()),
        ensures
            picture(final(out)@) == picture(old(out)@) + self.model().found_list_part(f),
    {
        let ghost before = picture(out@);
        let ghost m = self.model();
        let styles = DialogStyles::new(f.theme);
        let total: usize = f.rows.len();
        paint_list_heading(out, f, "Sources");
        paint_count(out, f, f.list.count, discovery_count(f.shown, f.found));
        if total == 0 {
            put_text(
                out,
                f.list.viewport,
                "No matching candidates".to_owned(),
                styles.unavailable,
                Fit::Whole,
            );
        }
        let first: usize = f.list.first_row;
        let ghost lead = picture(out@);
        let mut i: usize = 0;
        assert(lead + m.found_rows_part(f, 0) =~= lead);
        while i < f.list.row_rects.len()
            invariant
                i <= f.list.row_rects@.len(),
                m == self.model(),
                f.fits(m),
                total == f.rows@.len(),
                first == f.list.first_row,
                picture(out@) == lead + m.found_rows_part(f, i as int),
            decreases f.list.row_rects.len() - i,
        {
            if first < total && i < total - first {
                self.paint_found_row(out, f, f.list.row_rects[i], first + i);
            }
            assert(picture(out@) =~= lead + m.found_rows_part(f, i + 1));
            i += 1;
        }
        paint_list_bar(out, f, total);
        assert(picture(out@) =~= before + m.found_list_part(f));
    }

    fn paint_discovery(&self, out: &mut Vec<Paint>, f: SourceSheet<'_>)
        requires
            f.fits(self.model()),
        ensures
            picture(final(out)@) == picture(old(out)@) + self.model().discovery_part(f),
    {
        let ghost before = picture(out@);
        let ghost m = self.model();
        let areas = split_discovery(f.resolved.body, !f.resolved.compact);
        self.paint_field(
            out,
            areas.filter,
            6,
            "Filter",
            self.state.discovery.query.as_str(),
            "narrow the candidates",
            !self.state.controls_focused,
        );
        let report = self.shows_report();
        if !report && areas.list.height > 0 {
            self.paint_found(out, f);
        }
        let status = if report {
            areas.report
        } else {
            areas.details
        };
        if status.height > 0 {
            self.paint_pane(out, f, "Details");
        }
        proof {
            reveal(SourceModel::discovery_part);
            assert(areas.list == m.found_area(f));
            assert(status == m.status_area(f));
            assert(picture(out@) =~= before + m.discovery_part(f));
        }
    }

    fn scroll_of_review(&self, f: SourceSheet<'_>) -> (r: PaneScroll)
        ensures
            r == self.model().review_scroll(f),
    {
        let total: usize = if f.lines.len() > 1 {
            f.lines.len()
        } else {
            1
        };
        let visible: usize = if f.probe_rows > 1 {
            f.probe_rows
        } else {
            1
        };
        settle_scroll(total, visible, f.probe_first)
    }

    fn paint_review_count(&self, out: &mut Vec<Paint>, f: SourceSheet<'_>)
        ensures
            picture(final(out)@) == picture(old(out)@) + self.model().review_count(f),
    {
        let ghost before = picture(out@);
        let total: usize = if f.lines.len() > 1 {
            f.lines.len()
        } else {
            1
        };
        let visible: usize = if f.probe_rows > 1 {
            f.probe_rows
        } else {
            1
        };
        if let Some(text) = preview_counter(self.scroll_of_review(f), visible, total) {
            paint_count(out, f, f.pane.count, text);
        }
        assert(picture(out@) =~= before + self.model().review_count(f));
    }

    fn paint_agent(&self, out: &mut Vec<Paint>, f: SourceSheet<'_>)
        ensures
            picture(final(out)@) == picture(old(out)@) + self.model().agent_part(f),
    {
        let ghost before = picture(out@);
        let ghost m = self.model();
        let body = f.resolved.body;
        let editable = match self.state.ai.stage {
            SourceAiStage::Input | SourceAiStage::Error => true,
            _ => false,
        };
        self.paint_field(
            out,
            Rect::new(body.x, body.y, body.width, 1),
            8,
            "Describe",
            self.state.ai.instruction.as_str(),
            "the source to follow, e.g. tail the nginx access log",
            editable && !self.state.controls_focused,
        );
        let area = preview_area(body, !f.resolved.compact);
        if area.height > 0 {
            let scroll = self.scroll_of_review(f);
            self.paint_pane_heading(out, f, "Preview");
            self.paint_review_count(out, f);
            paint_pane_rows(out, f, scroll.scroll);
            put_bar(out, f.pane.scrollbar, scroll.scroll, scroll.limit);
        }
        proof {
            reveal(SourceModel::agent_part);
            assert(picture(out@) =~= before + m.agent_part(f));
        }
    }

    fn paint_header(&self, out: &mut Vec<Paint>, f: SourceSheet<'_>)
        ensures
            picture(final(out)@) == picture(old(out)@) + self.model().header_part(f),
    {
        let ghost before = picture(out@);
        let existing = self.state.mode == SourceDialogMode::Existing;
        put(
            out,
            Paint::Frame {
                title: (if existing {
                    "Sources"
                } else {
                    "Add source"
                }).to_owned(),
            },
        );
        if !existing {
            put(
                out,
                Paint::Segments {
                    area: f.resolved.header,
                    active: match self.state.mode {
                        SourceDialogMode::Discovery => 1,
                        SourceDialogMode::Ai => 2,
                        _ => 0,
                    },
                    focused: match self.state.control {
                        SourceControl::Manual => Some(0),
                        SourceControl::Discovery => Some(1),
                        SourceControl::Agent => Some(2),
                        _ => None,
                    },
                },
            );
        }
        assert(picture(out@) =~= before + self.model().header_part(f));
    }

    fn paint_tail(&self, out: &mut Vec<Paint>, f: SourceSheet<'_>)
        requires
            f.fits(self.model()),
        ensures
            picture(final(out)@) == picture(old(out)@) + self.model().tail_part(f),
    {
        let ghost before = picture(out@);
        let ghost m = self.model();
        let (state, text) = self.message();
        put(out, Paint::Message { area: f.resolved.message, state, text });
        put(out, Paint::Help { area: f.resolved.help, text: "".to_owned() });
        let ghost lead = picture(out@);
        let labels = self.painted_labels();
        let ghost words = m.labels(true);
        let buttons = &f.resolved.actions.buttons;
        let mut i: usize = 0;
        assert(lead + m.buttons_part(f, 0) =~= lead);
        while i < buttons.len()
            invariant
                i <= buttons@.len(),
                m == self.model(),
                f.fits(m),
                buttons@ == f.resolved.actions.buttons@,
                words == m.labels(true),
                texts(labels@) == words,
                picture(out@) == lead + m.buttons_part(f, i as int),
            decreases buttons.len() - i,
        {
            let (index, area) = buttons[i];
            assert(f.resolved.actions.buttons@[i as int] == (index, area));
            assert(texts(labels@)[index as int] == labels@[index as int]@);
            let focused = match self.action_control(index) {
                Some(control) => control == self.state.control,
                None => false,
            };
            put(
                out,
                Paint::Button {
                    area,
                    label: labels[index].clone(),
                    style: role_style(f.theme, self.action_role(index), focused),
                },
            );
            assert(picture(out@) =~= lead + m.buttons_part(f, i + 1));
            i += 1;
        }
        assert(picture(out@) =~= before + m.tail_part(f));
    }

    /// Draws the body of the mode; what can be clicked in its list comes back.
    fn paint_body(&self, out: &mut Vec<Paint>, f: SourceSheet<'_>) -> (r: SourceGeometry)
        requires
            f.fits(self.model()),
        ensures
            picture(final(out)@) == picture(old(out)@) + self.model().body_part(f),
            r.controls@.len() == 0,
            r.scroll is None,
            r.existing_rows@ == if self.model().mode == SourceDialogMode::Existing
                && self.model().shows_list(f) {
                self.model().source_rows(f)
            } else {
                seq![]
            },
            r.path_completion_rows@ == if self.model().mode == SourceDialogMode::Manual
                && self.model().shows_list(f) {
                self.model().candidate_rows(f)
            } else {
                seq![]
            },
            r.discovery_rows@ == if self.model().mode == SourceDialogMode::Discovery
                && self.model().shows_list(f) {
                candidate_regions(
                    f.rows@,
                    f.list.first_row as int,
                    f.list.row_rects@,
                    f.list.row_rects@.len() as int,
                )
            } else {
                seq![]
            },
            r.older_unavailable == if self.model().mode == SourceDialogMode::Discovery
                && self.model().shows_list(f) {
                older_region(
                    f.rows@,
                    f.list.first_row as int,
                    f.list.row_rects@,
                    f.list.row_rects@.len() as int,
                )
            } else {
                None
            },
    {
        let mut geometry = SourceGeometry::default();
        match self.state.mode {
            SourceDialogMode::Existing => {
                geometry.existing_rows = self.paint_existing(out, f);
            },
            SourceDialogMode::Manual => {
                geometry.path_completion_rows = self.paint_manual(out, f);
            },
            SourceDialogMode::Discovery => {
                self.paint_discovery(out, f);
                let areas = split_discovery(f.resolved.body, !f.resolved.compact);
                assert(areas.list == self.model().found_area(f));
                if !self.shows_report() && areas.list.height > 0 {
                    let (rows, older) = discovery_regions(
                        f.rows,
                        f.list.first_row,
                        &f.list.row_rects,
                    );
                    geometry.discovery_rows = rows;
                    geometry.older_unavailable = older;
                }
            },
            SourceDialogMode::Ai => self.paint_agent(out, f),
        }
        geometry
    }

    /// Where the mode's pane is shown, if it is.
    fn pane_area(&self, f: SourceSheet<'_>) -> (r: Option<Rect>)
        ensures
            r == self.model().pane_area(f),
    {
        let body = f.resolved.body;
        let roomy = !f.resolved.compact;
        let area = match self.state.mode {
            SourceDialogMode::Existing => {
                let (_, details) = split_existing(body);
                details
            },
            SourceDialogMode::Manual => Rect::zero(),
            SourceDialogMode::Discovery => {
                let areas = split_discovery(body, roomy);
                assert(areas.list == self.model().found_area(f));
                if self.shows_report() {
                    areas.report
                } else {
                    areas.details
                }
            },
            SourceDialogMode::Ai => preview_area(body, roomy),
        };
        if area.height > 0 {
            Some(area)
        } else {
            None
        }
    }

    /// Whether the mode's list shows.
    fn shows_list(&self, f: SourceSheet<'_>) -> (r: bool)
        ensures
            r == self.model().shows_list(f),
    {
        let body = f.resolved.body;
        let roomy = !f.resolved.compact;
        match self.state.mode {
            SourceDialogMode::Existing => {
                let (list, _) = split_existing(body);
                list.height > 0
            },
            SourceDialogMode::Manual => {
                let areas = split_manual(body, roomy);
                match self.manual_rest(areas.rest.height) {
                    ManualRest::Suggestions(_) => true,
                    _ => false,
                }
            },
            SourceDialogMode::Discovery => {
                let areas = split_discovery(body, roomy);
                !self.shows_report() && areas.list.height > 0
            },
            SourceDialogMode::Ai => false,
        }
    }

    fn scroll_area(&self, f: SourceSheet<'_>) -> (r: Option<Rect>)
        ensures
            r == self.model().scroll_area(f),
    {
        let scrolls = match self.state.mode {
            SourceDialogMode::Discovery => true,
            SourceDialogMode::Ai => self.scroll_of_review(f).limit > 0,
            _ => scroll_of_pane(f).limit > 0,
        };
        if scrolls {
            self.pane_area(f)
        } else {
            None
        }
    }

    fn settle_frame(&mut self, f: SourceSheet<'_>)
        requires
            !f.empty(),
        ensures
            final(self).model() == old(self).model().after_frame(f),
    {
        if self.pane_area(f).is_none() {
            return;
        }
        match self.state.mode {
            SourceDialogMode::Existing => {
                let selected: usize = self.drawn_source(f);
                self.settle_existing(scroll_of_pane(f), selected);
            },
            SourceDialogMode::Manual => {},
            SourceDialogMode::Discovery => self.settle_status(scroll_of_pane(f)),
            SourceDialogMode::Ai => {
                let scroll = self.scroll_of_review(f);
                self.settle_preview(scroll);
            },
        }
    }

    fn shows_field(&self, f: SourceSheet<'_>) -> (r: bool)
        ensures
            r == self.model().shows_field(f),
    {
        match self.state.mode {
            SourceDialogMode::Existing => false,
            SourceDialogMode::Manual => f.resolved.body.height > 1,
            _ => true,
        }
    }

    /// The control regions of a frame.
    fn regions(&self, f: SourceSheet<'_>, drawn: bool) -> (r: Vec<(Rect, SourceControl)>)
        requires
            drawn == !f.empty(),
        ensures
            ({
                let m = self.model();
                let modes = if m.mode == SourceDialogMode::Existing {
                    seq![]
                } else {
                    f.modes@
                };
                r@ == if f.empty() {
                    selector_regions(modes)
                } else {
                    selector_regions(modes) + kind_regions(
                        if m.mode == SourceDialogMode::Manual {
                            f.kinds@
                        } else {
                            seq![]
                        },
                    ) + button_regions(
                        m,
                        f.resolved.actions.buttons@,
                        f.resolved.actions.buttons@.len() as int,
                    )
                }
            }),
    {
        let none: Vec<Rect> = Vec::new();
        let no_buttons: Vec<(usize, Rect)> = Vec::new();
        assert(none@ =~= seq![]);
        assert(kind_regions(none@) =~= seq![]);
        let existing = self.state.mode == SourceDialogMode::Existing;
        let manual = self.state.mode == SourceDialogMode::Manual;
        let r = self.control_regions(
            if existing {
                &none
            } else {
                f.modes
            },
            if drawn && manual {
                f.kinds
            } else {
                &none
            },
            if drawn {
                &f.resolved.actions.buttons
            } else {
                &no_buttons
            },
        );
        proof {
            if !drawn {
                let modes = if existing {
                    seq![]
                } else {
                    f.modes@
                };
                assert(r@ =~= selector_regions(modes));
            }
        }
        r
    }

    fn draw(&mut self, f: SourceSheet<'_>) -> (r: (Vec<Paint>, Surface))
        requires
            f.fits(old(self).model()),
        ensures
            picture(r.0@) == old(self).model().picture(f),
            r.1 == old(self).model().covered(f),
            old(self).model().is_laid_out(f, final(self).model().geometry),
            final(self).model() == (SourceModel {
                geometry: final(self).model().geometry,
                surface: r.1,
                ..old(self).model().after_frame(f)
            }),
    {
        let ghost m = self.model();
        let mut out: Vec<Paint> = Vec::new();
        assert(picture(out@) =~= seq![]);
        self.paint_header(&mut out, f);
        assert(picture(out@) =~= m.header_part(f));
        let drawn = f.resolved.body.width > 0 && f.resolved.body.height > 0;
        let mut surface = Surface {
            popup: f.resolved.frame,
            interior: f.resolved.interior,
            caret: None,
            scrollable: false,
            text_focus: self.text_focus(),
        };
        let controls = self.regions(f, drawn);
        if !drawn {
            let mut geometry = SourceGeometry::default();
            geometry.controls = controls;
            let surface = self.record(geometry, None, surface);
            return (out, surface);
        }
        let mut geometry = self.paint_body(&mut out, f);
        self.paint_tail(&mut out, f);
        assert(picture(out@) =~= m.picture(f));
        geometry.controls = controls;
        geometry.scroll = self.scroll_area(f);
        surface.scrollable = (self.shows_list(f) && f.list.scrollbar.is_some()) || (self.pane_area(
            f,
        ).is_some() && f.pane.scrollbar.is_some());
        let caret = if self.shows_field(f) {
            f.caret
        } else {
            None
        };
        self.settle_frame(f);
        let surface = self.record(geometry, caret, surface);
        (out, surface)
    }

    /// Draws a frame, remembers where it drew what can be clicked, and settles
    /// how far its panes scroll.
    pub fn render(&mut self, f: SourceFrame<'_>) -> (r: (Vec<Paint>, Surface))
        requires
            f.fits(old(self).model()),
        ensures
            exists|s: SourceSheet<'_>| #[trigger]
                s.is_of(old(self).model(), f) && {
                    &&& picture(r.0@) == old(self).model().picture(s)
                    &&& r.1 == old(self).model().covered(s)
                    &&& old(self).model().is_laid_out(s, final(self).model().geometry)
                    &&& final(self).model() == (SourceModel {
                        geometry: final(self).model().geometry,
                        surface: r.1,
                        ..old(self).model().after_frame(s)
                    })
                },
    {
        let text = self.pane_text(f.sources, f.now);
        let lines = assemble_pane(&text, f.wrapped);
        assert(texts(text@).len() == text@.len());
        let (rows, found) = self.found_rows(f.now);
        let shown: usize = shown_candidates(&rows, f.list_first, f.list_rows);
        let sheet = SourceSheet {
            resolved: f.resolved,
            modes: f.modes,
            kinds: f.kinds,
            sources: f.sources,
            list: f.list,
            pane: f.pane,
            lines: &lines,
            probe_rows: f.probe_rows,
            probe_first: f.probe_first,
            rows: &rows,
            found,
            shown,
            groups: f.groups,
            caret: f.caret,
            theme: f.theme,
            ascii: f.ascii,
        };
        assert(sheet.is_of(self.model(), f));
        proof {
            self.found_rows_fit(f.now, f.groups@.len() as int);
        }
        self.draw(sheet)
    }

    proof fn found_rows_fit(&self, now: i64, groups: int)
        requires
            forall|i: int|
                0 <= i < self.model().discovery.items.len() ==> (
                #[trigger] self.model().discovery.items[i]).section.rank < groups,
            forall|i: int|
                0 <= i < shown_items(self.model().discovery, now).len()
                    ==> #[trigger] shown_items(self.model().discovery, now)[i]
                    < self.model().discovery.items.len(),
        ensures
            forall|k: int|
                0 <= k < self.model().found_rows(now).len() ==> match #[trigger] self.model().found_rows(
                    now,
                )[k] {
                    DiscoveryDisplayRow::Heading(section) => section.rank < groups,
                    DiscoveryDisplayRow::Candidate { item, .. } => item
                        < self.model().discovery.items.len(),
                    DiscoveryDisplayRow::OlderUnavailable(_) => true,
                },
    {
        let d = self.model().discovery;
        let shown = shown_items(d, now);
        let head = older_row(d.items, d.query, d.show_older, now);
        let rest = candidate_rows(d.items, shown, shown.len() as int);
        found_rows_are_of_items(d.items, shown, shown.len() as int, groups);
        assert forall|k: int| 0 <= k < self.model().found_rows(now).len() implies match #[trigger] self.model().found_rows(
            now,
        )[k] {
            DiscoveryDisplayRow::Heading(section) => section.rank < groups,
            DiscoveryDisplayRow::Candidate { item, .. } => item < d.items.len(),
            DiscoveryDisplayRow::OlderUnavailable(_) => true,
        } by {
            if k < head.len() {
                assert(self.model().found_rows(now)[k] == head[k]);
            } else {
                assert(self.model().found_rows(now)[k] == rest[k - head.len()]);
            }
        }
    }

    /// A frame is too small to draw anything in.
    pub fn render_unfit(&mut self) -> (r: Surface)
        ensures
            r == (Surface {
                text_focus: old(self).model().field() is Some,
                ..Surface::nothing()
            }),
            final(self).model().geometry.blank(),
            final(self).model() == (SourceModel {
                geometry: final(self).model().geometry,
                surface: r,
                ..old(self).model()
            }),
    {
        let mut surface = Surface::default();
        surface.text_focus = self.text_focus();
        self.record(SourceGeometry::default(), None, surface)
    }
}

proof fn sources_are_shown(m: SourceModel, f: SourceSheet<'_>, n: int)
    requires
        0 <= n <= m.source_rows(f).len(),
    ensures
        all_shown(m.source_rows_part(f, n), m.source_rows(f).take(n)),
    decreases n,
{
    let rows = m.source_rows(f);
    assert(rows.take(0) =~= seq![]);
    if n > 0 {
        sources_are_shown(m, f, n - 1);
        assert(rows.take(n) =~= rows.take(n - 1).push(rows[n - 1]));
        let before = m.source_rows_part(f, n - 1);
        let next = m.source_rows_part(f, n).skip(before.len() as int);
        assert(m.source_rows_part(f, n) =~= before + next);
        shown_next(before, rows.take(n - 1), next, rows[n - 1]);
    }
}

proof fn paths_are_shown(m: SourceModel, f: SourceSheet<'_>, n: int)
    requires
        0 <= n <= m.candidate_rows(f).len(),
    ensures
        all_shown(m.candidate_rows_part(f, n), m.candidate_rows(f).take(n)),
    decreases n,
{
    let rows = m.candidate_rows(f);
    assert(rows.take(0) =~= seq![]);
    if n > 0 {
        paths_are_shown(m, f, n - 1);
        assert(rows.take(n) =~= rows.take(n - 1).push(rows[n - 1]));
        let before = m.candidate_rows_part(f, n - 1);
        let next = m.candidate_rows_part(f, n).skip(before.len() as int);
        assert(m.candidate_rows_part(f, n) =~= before + next);
        shown_next(before, rows.take(n - 1), next, rows[n - 1]);
    }
}

proof fn found_are_shown(m: SourceModel, f: SourceSheet<'_>, n: int)
    requires
        0 <= n <= f.list.row_rects@.len(),
    ensures
        all_shown(
            m.found_rows_part(f, n),
            candidate_regions(f.rows@, f.list.first_row as int, f.list.row_rects@, n),
        ),
        older_region(f.rows@, f.list.first_row as int, f.list.row_rects@, n) matches Some(area)
            ==> shows(m.found_rows_part(f, n), area),
    decreases n,
{
    if n > 0 {
        found_are_shown(m, f, n - 1);
        let first = f.list.first_row as int;
        let rects = f.list.row_rects@;
        let places = candidate_regions(f.rows@, first, rects, n - 1);
        let before = m.found_rows_part(f, n - 1);
        let next = m.found_rows_part(f, n).skip(before.len() as int);
        let none = Seq::<Drawn>::empty();
        assert(m.found_rows_part(f, n) =~= before + next);
        assert(none + before + next =~= before + next);
        all_shown_among(none, before, next, places);
        if let Some(area) = older_region(f.rows@, first, rects, n - 1) {
            shown_among(none, before, next, area);
        }
        if first + n - 1 < f.rows@.len() {
            let shown = f.rows@[first + n - 1];
            assert(next[0].is_on(rects[n - 1]));
            if let DiscoveryDisplayRow::Candidate { item: _, selection } = shown {
                shown_next(before, places, next, (rects[n - 1], selection));
            } else if shown is OlderUnavailable {
                assert((before + next)[before.len() as int].is_on(rects[n - 1]));
            }
        }
    }
}

proof fn buttons_are_shown(m: SourceModel, f: SourceSheet<'_>, n: int)
    requires
        0 <= n <= f.resolved.actions.buttons@.len(),
    ensures
        all_shown(
            m.buttons_part(f, n),
            button_regions(m, f.resolved.actions.buttons@, n),
        ),
    decreases n,
{
    if n > 0 {
        buttons_are_shown(m, f, n - 1);
        let (index, area) = f.resolved.actions.buttons@[n - 1];
        let places = button_regions(m, f.resolved.actions.buttons@, n - 1);
        let before = m.buttons_part(f, n - 1);
        let next = m.buttons_part(f, n).skip(before.len() as int);
        let none = Seq::<Drawn>::empty();
        assert(m.buttons_part(f, n) =~= before + next);
        assert(none + before + next =~= before + next);
        all_shown_among(none, before, next, places);
        if let Some(control) = m.action_control(index as int) {
            shown_next(before, places, next, (area, control));
        }
    }
}

/// Every source, path, found source and button that can be clicked was drawn in
/// the frame that recorded it.
pub proof fn clickable_is_drawn(m: SourceModel, f: SourceSheet<'_>, g: SourceGeometry)
    requires
        m.is_laid_out(f, g),
    ensures
        all_shown(m.picture(f), g.existing_rows@),
        all_shown(m.picture(f), g.path_completion_rows@),
        all_shown(m.picture(f), g.discovery_rows@),
        g.older_unavailable matches Some(area) ==> shows(m.picture(f), area),
        !f.empty() ==> all_shown(
            m.picture(f),
            button_regions(
                m,
                f.resolved.actions.buttons@,
                f.resolved.actions.buttons@.len() as int,
            ),
        ),
{
    if !f.empty() {
        let all = f.resolved.actions.buttons@.len() as int;
        let places = button_regions(m, f.resolved.actions.buttons@, all);
        buttons_are_shown(m, f, all);
        shown_inside(m.tail_part(f), m.buttons_part(f, all), 2, places);
        let none = Seq::<Drawn>::empty();
        let start = m.header_part(f) + m.body_part(f);
        all_shown_among(start, m.tail_part(f), none, places);
        assert(start + m.tail_part(f) + none =~= m.picture(f));
        listed_is_drawn(m, f, g);
        all_shown_among(m.header_part(f), m.body_part(f), m.tail_part(f), g.existing_rows@);
        all_shown_among(m.header_part(f), m.body_part(f), m.tail_part(f), g.path_completion_rows@);
        all_shown_among(m.header_part(f), m.body_part(f), m.tail_part(f), g.discovery_rows@);
        if let Some(area) = g.older_unavailable {
            shown_among(m.header_part(f), m.body_part(f), m.tail_part(f), area);
        }
    }
}

proof fn listed_is_drawn(m: SourceModel, f: SourceSheet<'_>, g: SourceGeometry)
    requires
        m.is_laid_out(f, g),
        !f.empty(),
    ensures
        all_shown(m.body_part(f), g.existing_rows@),
        all_shown(m.body_part(f), g.path_completion_rows@),
        all_shown(m.body_part(f), g.discovery_rows@),
        g.older_unavailable matches Some(area) ==> shows(m.body_part(f), area),
{
    reveal(SourceModel::existing_part);
    reveal(SourceModel::manual_part);
    reveal(SourceModel::discovery_part);
    let counted: int = if f.list.count.width > 0 {
        2
    } else {
        1
    };
    if m.shows_list(f) {
        if m.mode == SourceDialogMode::Existing {
            let rows = m.source_rows(f);
            let count = rows.len() as int;
            sources_are_shown(m, f, count);
            assert(rows.take(count) =~= rows);
            let at = counted + if f.sources@.len() == 0 {
                1int
            } else {
                0
            };
            shown_inside(m.source_list_part(f), m.source_rows_part(f, count), at, rows);
            shown_inside(m.body_part(f), m.source_list_part(f), 0, rows);
        } else if m.mode == SourceDialogMode::Manual {
            let rows = m.candidate_rows(f);
            let count = rows.len() as int;
            paths_are_shown(m, f, count);
            assert(rows.take(count) =~= rows);
            shown_inside(m.rest_part(f), m.candidate_rows_part(f, count), counted, rows);
            let start: int = if f.resolved.body.height > 1 {
                3
            } else {
                2
            };
            shown_inside(m.body_part(f), m.rest_part(f), start, rows);
        } else {
            let count = f.list.row_rects@.len() as int;
            found_are_shown(m, f, count);
            let at = counted + if f.rows@.len() == 0 {
                1int
            } else {
                0
            };
            let part = m.found_rows_part(f, count);
            let list = m.found_list_part(f);
            shown_inside(list, part, at, g.discovery_rows@);
            shown_inside(m.body_part(f), list, 1, g.discovery_rows@);
            if let Some(area) = g.older_unavailable {
                shown_inside(list, part, at, seq![(area, ())]);
                shown_inside(m.body_part(f), list, 1, seq![(area, ())]);
                assert(seq![(area, ())][0].0 == area);
            }
        }
    }
}

} // verus!
