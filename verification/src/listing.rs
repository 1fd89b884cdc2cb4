//! The body of the browser: the visible lines of the list as styled text.

use crate::entry::{
    block_at, derive_entries, entries_spec, entry_at, entry_lines, layout_fits_spec,
    lemma_lines_before_grows, Entry,
};
use crate::session::{
    dead_views, live_views, pane_titles_spec, status_suffix_spec, string_views, DeadSession,
    DeadSessionView, LiveSession, LiveSessionView,
};
use crate::text::{
    format_duration, format_duration_spec, line_views, Line, LineView, Span, DETAIL_STYLE,
    NAME_STYLE, STATUS_STYLE,
};
use crate::viewport::{
    compute_visible, line_in_layout, scroll_offset_spec, visible_lines_spec, VisibleLine,
};
use vstd::prelude::*;
use vstd::string::StringExecFns;

verus! {

/// The line of the entry that creates a session.
pub open spec fn new_session_line_spec(selected: bool) -> LineView {
    LineView {
        text: "New session"@,
        indent: 0,
        selected,
        spans: seq![Span { style: STATUS_STYLE, start: 0, end: "New session"@.len() as usize }],
    }
}

/// A header line: a session's name in the name style, followed by its
/// status, if it has one, in the status style.
pub open spec fn header_line_spec(name: Seq<char>, status: Seq<char>, selected: bool) -> LineView {
    let named = Span { style: NAME_STYLE, start: 0, end: name.len() as usize };
    LineView {
        text: name + status,
        indent: 0,
        selected,
        spans: if status.len() == 0 {
            seq![named]
        } else {
            seq![
                named,
                Span {
                    style: STATUS_STYLE,
                    start: name.len() as usize,
                    end: (name + status).len() as usize,
                },
            ]
        },
    }
}

/// A sub-item line: indented one level, all of it in the detail style.
pub open spec fn detail_line_spec(text: Seq<char>, selected: bool) -> LineView {
    LineView {
        text,
        indent: 1,
        selected,
        spans: seq![Span { style: DETAIL_STYLE, start: 0, end: text.len() as usize }],
    }
}

/// The header line of a running session.
pub open spec fn live_header_spec(session: LiveSessionView, selected: bool) -> LineView {
    header_line_spec(session.name, status_suffix_spec(session), selected)
}

/// The header line of an exited session.
pub open spec fn dead_header_spec(session: DeadSessionView, selected: bool) -> LineView {
    header_line_spec(session.name, " (exited)"@, selected)
}

/// The line that tells how long ago a session exited.
pub open spec fn dead_age_spec(session: DeadSessionView, selected: bool) -> LineView {
    detail_line_spec("exited "@ + format_duration_spec(session.age_secs), selected)
}

/// The styled text of one line of the list.
pub open spec fn line_spec(
    live: Seq<LiveSessionView>,
    dead: Seq<DeadSessionView>,
    line: VisibleLine,
) -> LineView {
    match line.entry {
        Entry::NewSession => new_session_line_spec(line.selected),
        Entry::Live(j) => if line.line_in_block == 0 {
            live_header_spec(live[j as int], line.selected)
        } else {
            detail_line_spec(
                pane_titles_spec(live[j as int].tabs)[line.line_in_block - 1],
                line.selected,
            )
        },
        Entry::Dead(j) => if line.line_in_block == 0 {
            dead_header_spec(dead[j as int], line.selected)
        } else {
            dead_age_spec(dead[j as int], line.selected)
        },
    }
}

/// The styled lines that show in a window of `rows` rows scrolled to
/// `offset`, the entry at position `selection` marked as selected.
pub open spec fn list_items_spec(
    live: Seq<LiveSessionView>,
    dead: Seq<DeadSessionView>,
    include_new_session: bool,
    selection: int,
    offset: int,
    rows: int,
) -> Seq<LineView> {
    visible_lines_spec(
        entries_spec(live, dead.len(), include_new_session),
        selection,
        offset,
        rows,
    ).map_values(|line: VisibleLine| line_spec(live, dead, line))
}

/// The line of the entry that creates a session.
pub fn new_session_line(selected: bool) -> (line: Line)
    ensures
        line@ == new_session_line_spec(selected),
{
    let text = String::from_str("New session");
    let end = text.as_str().unicode_len();
    let mut spans: Vec<Span> = Vec::new();
    spans.push(Span { style: STATUS_STYLE, start: 0, end });
    let line = Line { text, indent: 0, selected, spans };
    line
}

/// A header line: `name` in the name style, then `status`, unless it is
/// empty, in the status style.
pub fn header_line(name: &str, status: &str, selected: bool) -> (line: Line)
    ensures
        line@ == header_line_spec(name@, status@, selected),
{
    let mut text = String::from_str(name);
    let name_end = text.as_str().unicode_len();
    text.append(status);
    let text_end = text.as_str().unicode_len();
    let mut spans: Vec<Span> = Vec::new();
    spans.push(Span { style: NAME_STYLE, start: 0, end: name_end });
    if text_end != name_end {
        spans.push(Span { style: STATUS_STYLE, start: name_end, end: text_end });
    }
    let line = Line { text, indent: 0, selected, spans };
    assert(line@.spans =~= header_line_spec(name@, status@, selected).spans);
    line
}

/// A sub-item line: indented one level, all of it in the detail style.
pub fn detail_line(text: String, selected: bool) -> (line: Line)
    ensures
        line@ == detail_line_spec(text@, selected),
{
    let end = text.as_str().unicode_len();
    let mut spans: Vec<Span> = Vec::new();
    spans.push(Span { style: DETAIL_STYLE, start: 0, end });
    let line = Line { text, indent: 1, selected, spans };
    line
}

/// The header line of a running session: its name and how it is in use.
pub fn live_header_line(session: &LiveSession, selected: bool) -> (line: Line)
    ensures
        line@ == live_header_spec(session@, selected),
{
    header_line(session.name.as_str(), session.status_suffix(), selected)
}

/// The header line of an exited session.
pub fn dead_header_line(session: &DeadSession, selected: bool) -> (line: Line)
    ensures
        line@ == dead_header_spec(session@, selected),
{
    header_line(session.name.as_str(), " (exited)", selected)
}

/// The line that tells how long ago a session exited.
pub fn dead_age_line(session: &DeadSession, selected: bool) -> (line: Line)
    ensures
        line@ == dead_age_spec(session@, selected),
{
    let mut text = String::from_str("exited ");
    let age = format_duration(session.age_secs);
    text.append(age.as_str());
    detail_line(text, selected)
}

/// An entry of the derived list names a session of its list, and its block
/// has as many lines as the entry takes.
proof fn lemma_entry_in_lists(
    live: Seq<LiveSessionView>,
    dead_len: nat,
    include_new_session: bool,
    i: int,
)
    requires
        layout_fits_spec(live, dead_len, include_new_session),
        0 <= i < entries_spec(live, dead_len, include_new_session).len(),
    ensures
        ({
            let block = entries_spec(live, dead_len, include_new_session)[i];
            &&& block.0 == entry_at(live.len(), include_new_session, i)
            &&& block.1.line_count == entry_lines(live, block.0)
            &&& block.0 matches Entry::Live(j) ==> j < live.len()
            &&& block.0 matches Entry::Dead(j) ==> j < dead_len
        }),
{
    let count = entries_spec(live, dead_len, include_new_session).len() as int;
    lemma_lines_before_grows(live, include_new_session, i + 1, count);
    lemma_lines_before_grows(live, include_new_session, i, i + 1);
}

/// Scrolls so that the selected entry is in view and gives the new scroll
/// offset with the styled lines that then show, in entry order: for the
/// new-session entry one line; for a running session its header and one
/// indented line per pane title; for an exited session its header and one
/// indented line telling its age. Lines of the selected entry are marked.
pub fn list_items(
    live: &Vec<LiveSession>,
    dead: &Vec<DeadSession>,
    include_new_session: bool,
    selected: usize,
    scroll_offset: usize,
    visible_rows: usize,
) -> (result: (usize, Vec<Line>))
    requires
        layout_fits_spec(live_views(live@), dead@.len(), include_new_session),
    ensures
        result.0 == scroll_offset_spec(
            entries_spec(live_views(live@), dead@.len(), include_new_session),
            selected as int,
            scroll_offset as int,
            visible_rows as int,
        ),
        line_views(result.1@) == list_items_spec(
            live_views(live@),
            dead_views(dead@),
            include_new_session,
            selected as int,
            result.0 as int,
            visible_rows as int,
        ),
        result.1@.len() <= visible_rows,
{
    let ghost lv = live_views(live@);
    let ghost dv = dead_views(dead@);
    let entries = derive_entries(live, dead, include_new_session);
    let (offset, visible) = compute_visible(&entries, selected, scroll_offset, visible_rows);
    let ghost model = list_items_spec(
        lv,
        dv,
        include_new_session,
        selected as int,
        offset as int,
        visible_rows as int,
    );
    let mut items: Vec<Line> = Vec::new();
    let mut titles: Vec<String> = Vec::new();
    let mut titled: Option<usize> = None;
    let mut i: usize = 0;
    while i < visible.len()
        invariant
            i <= visible.len(),
            lv == live_views(live@),
            dv == dead_views(dead@),
            layout_fits_spec(lv, dead@.len(), include_new_session),
            entries@ == entries_spec(lv, dead@.len(), include_new_session),
            forall|n: int|
                0 <= n < visible@.len() ==> line_in_layout(
                    entries@,
                    selected as int,
                    #[trigger] visible@[n],
                ),
            model.len() == visible@.len(),
            forall|n: int| 0 <= n < visible@.len() ==> #[trigger] model[n] == line_spec(lv, dv, visible@[n]),
            titled matches Some(t) ==> t < live.len() && string_views(titles@) == pane_titles_spec(
                lv[t as int].tabs,
            ),
            items@.len() == i,
            forall|n: int| 0 <= n < i ==> (#[trigger] items@[n])@ == model[n],
        decreases visible.len() - i,
    {
        let shown = visible[i];
        proof {
            lemma_entry_in_lists(lv, dead@.len(), include_new_session, shown.entry_index as int);
        }
        let line = match shown.entry {
            Entry::NewSession => new_session_line(shown.selected),
            Entry::Live(j) => {
                if shown.line_in_block == 0 {
                    live_header_line(&live[j], shown.selected)
                } else {
                    let fresh = match titled {
                        Some(t) => t == j,
                        None => false,
                    };
                    if !fresh {
                        titles = live[j].pane_titles();
                        titled = Some(j);
                    }
                    let title = titles[shown.line_in_block - 1].clone();
                    detail_line(title, shown.selected)
                }
            },
            Entry::Dead(j) => {
                if shown.line_in_block == 0 {
                    dead_header_line(&dead[j], shown.selected)
                } else {
                    dead_age_line(&dead[j], shown.selected)
                }
            },
        };
        items.push(line);
        i += 1;
    }
    (offset, items)
}

} // verus!
