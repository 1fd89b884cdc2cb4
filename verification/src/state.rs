//! The browser's state and its three entry points: what an event does to
//! the state and asks of the host, and what a render shows.

use crate::controller::{
    action_for_key, action_for_key_spec, activate, activate_spec, clamp_index,
    clamp_selection_spec, delete_selected, delete_selected_spec, effect_views, move_down,
    move_down_spec, move_up, move_up_spec, selection_valid, Action, Effect, EffectView, KeyPress,
};
use crate::entry::{
    entries_spec, entry_count, entry_count_spec, layout_fits, layout_fits_spec,
    lemma_entries_contiguous, lemma_lines_before_grows, lines_before,
};
use crate::listing::{list_items, list_items_spec};
use crate::session::{
    dead_views, live_views, DeadSession, DeadSessionView, LiveSession, LiveSessionView,
};
use crate::text::{keyhints, keyhints_spec, line_views, pair_views, Line, LineView};
use crate::viewport::{
    lemma_scroll_idempotent, lemma_scroll_keeps_selection_visible, scroll_offset_spec,
    selected_block_spec,
};
use vstd::prelude::*;
use vstd::string::StringExecFns;

verus! {

/// The host's answer to the request for permissions.
#[derive(Clone, Copy, Debug, PartialEq, Eq, Structural)]
pub enum PermissionStatus {
    Granted,
    Denied,
}

/// What the host notifies the browser of.
#[derive(Clone, Debug, PartialEq, Eq)]
pub enum Event {
    PermissionRequestResult(PermissionStatus),
    /// The full current lists of running and of resurrectable sessions.
    SessionUpdate(Vec<LiveSession>, Vec<DeadSession>),
    Key(KeyPress),
    /// Any notification the browser has no use for.
    Other,
}

/// Mathematical model of an [`Event`].
pub enum EventView {
    PermissionRequestResult(PermissionStatus),
    SessionUpdate(Seq<LiveSessionView>, Seq<DeadSessionView>),
    Key(KeyPress),
    Other,
}

impl View for Event {
    type V = EventView;

    open spec fn view(&self) -> EventView {
        match self {
            Event::PermissionRequestResult(status) => EventView::PermissionRequestResult(*status),
            Event::SessionUpdate(live, dead) => EventView::SessionUpdate(
                live_views(live@),
                dead_views(dead@),
            ),
            Event::Key(key) => EventView::Key(*key),
            Event::Other => EventView::Other,
        }
    }
}

/// How the browser reacts to an event.
#[derive(Clone, Debug, PartialEq, Eq)]
pub struct Reaction {
    /// Whether the browser should be rendered anew.
    pub render: bool,
    /// What the host is asked to do, in this order.
    pub effects: Vec<Effect>,
}

/// Mathematical model of a [`Reaction`].
pub struct ReactionView {
    pub render: bool,
    pub effects: Seq<EffectView>,
}

impl View for Reaction {
    type V = ReactionView;

    open spec fn view(&self) -> ReactionView {
        ReactionView { render: self.render, effects: effect_views(self.effects@) }
    }
}

/// What a render shows.
#[derive(Clone, Debug, PartialEq, Eq)]
pub enum Frame {
    /// Until permissions are granted: one message at the top left.
    Waiting { message: Line, width: usize },
    /// The browser: a header in the first row, the key bindings in
    /// `footer_row`, and between them, if there is room, the list.
    Browser {
        header: Line,
        footer: Line,
        footer_row: usize,
        width: usize,
        body_rows: usize,
        body: Option<Vec<Line>>,
    },
}

/// Mathematical model of a [`Frame`].
pub enum FrameView {
    Waiting { message: LineView, width: usize },
    Browser {
        header: LineView,
        footer: LineView,
        footer_row: usize,
        width: usize,
        body_rows: usize,
        body: Option<Seq<LineView>>,
    },
}

impl View for Frame {
    type V = FrameView;

    open spec fn view(&self) -> FrameView {
        match self {
            Frame::Waiting { message, width } => FrameView::Waiting {
                message: message@,
                width: *width,
            },
            Frame::Browser { header, footer, footer_row, width, body_rows, body } => {
                FrameView::Browser {
                    header: header@,
                    footer: footer@,
                    footer_row: *footer_row,
                    width: *width,
                    body_rows: *body_rows,
                    body: match body {
                        Some(lines) => Some(line_views(lines@)),
                        None => None,
                    },
                }
            },
        }
    }
}

/// Everything the browser remembers between events.
#[derive(Clone, Debug, PartialEq, Eq)]
pub struct State {
    pub sessions: Vec<LiveSession>,
    pub resurrectable: Vec<DeadSession>,
    /// Position of the selected entry in the flat list of entries.
    pub selected: usize,
    /// Number of the topmost visible line of the list.
    pub scroll_offset: usize,
    pub permissions_granted: bool,
    /// Whether the list starts with the entry that creates a session.
    pub include_new_session: bool,
}

/// Mathematical model of a [`State`].
pub struct StateView {
    pub sessions: Seq<LiveSessionView>,
    pub resurrectable: Seq<DeadSessionView>,
    pub selected: usize,
    pub scroll_offset: usize,
    pub permissions_granted: bool,
    pub include_new_session: bool,
}

impl View for State {
    type V = StateView;

    open spec fn view(&self) -> StateView {
        StateView {
            sessions: live_views(self.sessions@),
            resurrectable: dead_views(self.resurrectable@),
            selected: self.selected,
            scroll_offset: self.scroll_offset,
            permissions_granted: self.permissions_granted,
            include_new_session: self.include_new_session,
        }
    }
}

impl StateView {
    /// The number of entries of the list.
    pub open spec fn entry_count(self) -> nat {
        entry_count_spec(self.sessions.len(), self.resurrectable.len(), self.include_new_session)
    }

    /// The lines of the list can be numbered in a `usize`.
    pub open spec fn fits(self) -> bool {
        layout_fits_spec(self.sessions, self.resurrectable.len(), self.include_new_session)
    }

    /// The list fits the machine and the selection points at one of its
    /// entries, or rests at 0 when it has none.
    pub open spec fn wf(self) -> bool {
        &&& self.fits()
        &&& selection_valid(self.selected as int, self.entry_count() as int)
    }

    pub open spec fn with_selected(self, selected: int) -> StateView {
        StateView { selected: selected as usize, ..self }
    }

    pub open spec fn with_scroll_offset(self, scroll_offset: int) -> StateView {
        StateView { scroll_offset: scroll_offset as usize, ..self }
    }
}

/// The state of a browser that has just been loaded.
pub open spec fn initial_state(include_new_session: bool) -> StateView {
    StateView {
        sessions: Seq::empty(),
        resurrectable: Seq::empty(),
        selected: 0,
        scroll_offset: 0,
        permissions_granted: false,
        include_new_session,
    }
}

/// Whether an event can be given to a browser: the lists of a session
/// update must fit the machine.
pub open spec fn event_fits(event: EventView, include_new_session: bool) -> bool {
    event matches EventView::SessionUpdate(live, dead) ==> layout_fits_spec(
        live,
        dead.len(),
        include_new_session,
    )
}

/// The reaction that changes nothing and asks nothing.
pub open spec fn no_reaction() -> ReactionView {
    ReactionView { render: false, effects: Seq::empty() }
}

/// The reaction that only asks for a new render.
pub open spec fn render_only() -> ReactionView {
    ReactionView { render: true, effects: Seq::empty() }
}

/// What an action does to the state and asks of the host. In a list
/// without entries only quitting does anything.
pub open spec fn act_spec(state: StateView, action: Action) -> (StateView, ReactionView) {
    if action == Action::Quit {
        (state, ReactionView { render: false, effects: seq![EffectView::CloseSelf] })
    } else if state.entry_count() == 0 {
        (state, no_reaction())
    } else {
        match action {
            Action::MoveUp => (state.with_selected(move_up_spec(state.selected as int)), render_only()),
            Action::MoveDown => (
                state.with_selected(
                    move_down_spec(state.selected as int, state.entry_count() as int),
                ),
                render_only(),
            ),
            Action::Activate => (
                state,
                ReactionView {
                    render: false,
                    effects: activate_spec(
                        state.sessions,
                        state.resurrectable,
                        state.include_new_session,
                        state.selected as int,
                    ),
                },
            ),
            Action::DeleteOne => (
                state,
                ReactionView {
                    render: true,
                    effects: delete_selected_spec(
                        state.sessions.len(),
                        state.resurrectable,
                        state.include_new_session,
                        state.selected as int,
                    ),
                },
            ),
            Action::DeleteAll => (
                state,
                ReactionView { render: true, effects: seq![EffectView::DeleteAllDeadSessions] },
            ),
            Action::Quit => (
                state,
                ReactionView { render: false, effects: seq![EffectView::CloseSelf] },
            ),
        }
    }
}

/// What a key does: nothing until permissions are granted, and nothing
/// when it stands for no action; else what its action does.
pub open spec fn handle_key_spec(state: StateView, key: KeyPress) -> (StateView, ReactionView) {
    if !state.permissions_granted {
        (state, no_reaction())
    } else {
        match action_for_key_spec(key) {
            None => (state, no_reaction()),
            Some(action) => act_spec(state, action),
        }
    }
}

/// What an event does: a permission result is recorded; a session update
/// replaces both lists and brings the selection back into the list; a key
/// is handled; anything else is ignored.
pub open spec fn update_spec(state: StateView, event: EventView) -> (StateView, ReactionView) {
    match event {
        EventView::PermissionRequestResult(status) => (
            StateView { permissions_granted: status == PermissionStatus::Granted, ..state },
            render_only(),
        ),
        EventView::SessionUpdate(live, dead) => (
            StateView {
                sessions: live,
                resurrectable: dead,
                selected: clamp_selection_spec(
                    state.selected as int,
                    entry_count_spec(live.len(), dead.len(), state.include_new_session) as int,
                ) as usize,
                ..state
            },
            render_only(),
        ),
        EventView::Key(key) => handle_key_spec(state, key),
        EventView::Other => (state, no_reaction()),
    }
}

/// The key bindings that the footer lists.
pub open spec fn footer_hints() -> Seq<(Seq<char>, Seq<char>)> {
    seq![
        ("\u{2191}\u{2193}/jk"@, "navigate"@),
        ("Enter"@, "attach/new"@),
        ("d"@, "kill dead"@),
        ("D"@, "kill all dead"@),
        ("Esc"@, "quit"@),
    ]
}

/// The header label, shown as selected.
pub open spec fn banner_spec() -> LineView {
    LineView { text: " Sessioner "@, indent: 0, selected: true, spans: Seq::empty() }
}

/// The message shown until permissions are granted.
pub open spec fn waiting_spec() -> LineView {
    LineView { text: "Waiting for permissions..."@, indent: 0, selected: false, spans: Seq::empty() }
}

/// The rows left for the list between header and footer.
pub open spec fn body_rows_spec(rows: usize) -> usize {
    if rows >= 2 {
        (rows - 2) as usize
    } else {
        0
    }
}

/// The row of the footer: the last one.
pub open spec fn footer_row_spec(rows: usize) -> usize {
    if rows >= 1 {
        (rows - 1) as usize
    } else {
        0
    }
}

/// The scroll offset after a render into `rows` rows.
pub open spec fn rendered_offset(state: StateView, rows: usize) -> int {
    scroll_offset_spec(
        entries_spec(state.sessions, state.resurrectable.len(), state.include_new_session),
        state.selected as int,
        state.scroll_offset as int,
        body_rows_spec(rows) as int,
    )
}

/// What a render does to the state and shows: until permissions are
/// granted only the waiting message, whatever the size; else header, footer
/// and, where rows are left for it, the list scrolled to the selection.
/// Only a render that shows the list moves the scroll offset.
pub open spec fn render_spec(state: StateView, rows: usize, cols: usize) -> (StateView, FrameView) {
    if !state.permissions_granted {
        (state, FrameView::Waiting { message: waiting_spec(), width: cols })
    } else if body_rows_spec(rows) == 0 {
        (
            state,
            FrameView::Browser {
                header: banner_spec(),
                footer: keyhints_spec(footer_hints()),
                footer_row: footer_row_spec(rows),
                width: cols,
                body_rows: 0,
                body: None,
            },
        )
    } else {
        (
            state.with_scroll_offset(rendered_offset(state, rows)),
            FrameView::Browser {
                header: banner_spec(),
                footer: keyhints_spec(footer_hints()),
                footer_row: footer_row_spec(rows),
                width: cols,
                body_rows: body_rows_spec(rows),
                body: Some(
                    list_items_spec(
                        state.sessions,
                        state.resurrectable,
                        state.include_new_session,
                        state.selected as int,
                        rendered_offset(state, rows),
                        body_rows_spec(rows) as int,
                    ),
                ),
            },
        )
    }
}

/// A list that fits the machine has a number of entries that does.
pub proof fn lemma_entry_count_fits(
    live: Seq<LiveSessionView>,
    dead_len: nat,
    include_new_session: bool,
)
    requires
        layout_fits_spec(live, dead_len, include_new_session),
    ensures
        entry_count_spec(live.len(), dead_len, include_new_session) <= usize::MAX,
{
    lemma_lines_before_grows(
        live,
        include_new_session,
        0,
        entry_count_spec(live.len(), dead_len, include_new_session) as int,
    );
}

/// Rendering again with nothing changed shows the same and leaves the
/// state as the first render left it.
pub proof fn lemma_render_idempotent(state: StateView, rows: usize, cols: usize)
    requires
        state.wf(),
    ensures
        render_spec(render_spec(state, rows, cols).0, rows, cols) == render_spec(state, rows, cols),
{
    lemma_entries_contiguous(state.sessions, state.resurrectable.len(), state.include_new_session);
    lemma_scroll_idempotent(
        entries_spec(state.sessions, state.resurrectable.len(), state.include_new_session),
        state.selected as int,
        state.scroll_offset as int,
        body_rows_spec(rows) as int,
    );
    if body_rows_spec(rows) > 0 {
        lemma_scroll_keeps_selection_visible(
            entries_spec(state.sessions, state.resurrectable.len(), state.include_new_session),
            state.selected as int,
            state.scroll_offset as int,
            body_rows_spec(rows) as int,
        );
    }
}

/// After a render that shows the list, the scroll offset lies within the
/// list, is 0 when the whole list fits the rows left for it, and the header
/// line of the selected entry is in view: with the entry's whole block when
/// that fits, at the top of the list's rows when the block is taller.
pub proof fn lemma_render_keeps_selection_visible(state: StateView, rows: usize, cols: usize)
    requires
        state.wf(),
        state.permissions_granted,
        body_rows_spec(rows) > 0,
    ensures
        ({
            let blocks = entries_spec(
                state.sessions,
                state.resurrectable.len(),
                state.include_new_session,
            );
            let after = render_spec(state, rows, cols).0;
            let total = crate::entry::total_lines_spec(
                state.sessions,
                state.resurrectable.len(),
                state.include_new_session,
            );
            let height = body_rows_spec(rows);
            let block = selected_block_spec(blocks, state.selected as int);
            &&& after.wf()
            &&& total <= height ==> after.scroll_offset == 0
            &&& total > height ==> after.scroll_offset + height <= total
            &&& state.entry_count() > 0 ==> after.scroll_offset <= block.starting_line
                < after.scroll_offset + height
            &&& state.entry_count() > 0 && block.line_count <= height ==> block.starting_line
                + block.line_count <= after.scroll_offset + height
            &&& state.entry_count() > 0 && block.line_count > height ==> after.scroll_offset
                == block.starting_line
        }),
{
    lemma_entries_contiguous(state.sessions, state.resurrectable.len(), state.include_new_session);
    lemma_scroll_keeps_selection_visible(
        entries_spec(state.sessions, state.resurrectable.len(), state.include_new_session),
        state.selected as int,
        state.scroll_offset as int,
        body_rows_spec(rows) as int,
    );
}

/// The line of key bindings shown in the footer.
pub fn footer_line() -> (line: Line)
    ensures
        line@ == keyhints_spec(footer_hints()),
{
    let mut hints: Vec<(&str, &str)> = Vec::new();
    hints.push(("\u{2191}\u{2193}/jk", "navigate"));
    hints.push(("Enter", "attach/new"));
    hints.push(("d", "kill dead"));
    hints.push(("D", "kill all dead"));
    hints.push(("Esc", "quit"));
    assert(pair_views(hints@) =~= footer_hints());
    keyhints(hints.as_slice())
}

/// The header label.
pub fn banner_line() -> (line: Line)
    ensures
        line@ == banner_spec(),
{
    Line { text: String::from_str(" Sessioner "), indent: 0, selected: true, spans: Vec::new() }
}

/// The message shown until permissions are granted.
pub fn waiting_line() -> (line: Line)
    ensures
        line@ == waiting_spec(),
{
    Line {
        text: String::from_str("Waiting for permissions..."),
        indent: 0,
        selected: false,
        spans: Vec::new(),
    }
}

impl Event {
    /// Whether this event can be given to a browser with the given setting:
    /// the lists of a session update must fit the machine.
    pub fn fits(&self, include_new_session: bool) -> (fits: bool)
        ensures
            fits == event_fits(self@, include_new_session),
    {
        match self {
            Event::SessionUpdate(live, dead) => layout_fits(live, dead, include_new_session),
            _ => true,
        }
    }
}

impl State {
    /// A freshly loaded browser: no sessions known, the selection and the
    /// scroll offset at 0, permissions not yet granted.
    pub fn new(include_new_session: bool) -> (state: State)
        ensures
            state@ == initial_state(include_new_session),
            state@.wf(),
    {
        let state = State {
            sessions: Vec::new(),
            resurrectable: Vec::new(),
            selected: 0,
            scroll_offset: 0,
            permissions_granted: false,
            include_new_session,
        };
        proof {
            assert(state@.sessions =~= Seq::<LiveSessionView>::empty());
            assert(state@.resurrectable =~= Seq::<DeadSessionView>::empty());
            reveal_with_fuel(lines_before, 2);
        }
        state
    }

    /// Whether the list fits the machine and the selection points at one of
    /// its entries, or rests at 0 when it has none: what the methods that
    /// take events and render require.
    pub fn is_well_formed(&self) -> (ok: bool)
        ensures
            ok == self@.wf(),
    {
        if !layout_fits(&self.sessions, &self.resurrectable, self.include_new_session) {
            return false;
        }
        let count = self.entry_count();
        self.selected < count || (count == 0 && self.selected == 0)
    }

    /// The number of entries: the new-session entry when it is shown, and
    /// one per session.
    pub fn entry_count(&self) -> (count: usize)
        requires
            self@.fits(),
        ensures
            count == self@.entry_count(),
    {
        proof {
            lemma_entry_count_fits(
                self@.sessions,
                self@.resurrectable.len(),
                self.include_new_session,
            );
        }
        match entry_count(self.sessions.len(), self.resurrectable.len(), self.include_new_session) {
            Some(count) => count,
            None => 0,
        }
    }

    /// Brings the selection back into the list after the list has changed.
    pub fn clamp_selection(&mut self)
        requires
            old(self)@.fits(),
        ensures
            final(self)@ == old(self)@.with_selected(
                clamp_selection_spec(old(self)@.selected as int, old(self)@.entry_count() as int),
            ),
            final(self)@.wf(),
    {
        let count = self.entry_count();
        self.selected = clamp_index(self.selected, count);
    }

    /// What activating the selection asks of the host.
    pub fn activate_selected(&self) -> (effects: Vec<Effect>)
        ensures
            effect_views(effects@) == activate_spec(
                self@.sessions,
                self@.resurrectable,
                self@.include_new_session,
                self@.selected as int,
            ),
    {
        activate(&self.sessions, &self.resurrectable, self.include_new_session, self.selected)
    }

    /// What deleting the selection asks of the host: to delete the selected
    /// session when it is an exited one, and nothing otherwise.
    pub fn delete_selected_dead(&self) -> (effects: Vec<Effect>)
        ensures
            effect_views(effects@) == delete_selected_spec(
                self@.sessions.len(),
                self@.resurrectable,
                self@.include_new_session,
                self@.selected as int,
            ),
    {
        delete_selected(
            self.sessions.len(),
            &self.resurrectable,
            self.include_new_session,
            self.selected,
        )
    }

    /// Performs an action on the state and tells what to ask of the host.
    pub fn act(&mut self, action: Action) -> (reaction: Reaction)
        requires
            old(self)@.wf(),
        ensures
            (final(self)@, reaction@) == act_spec(old(self)@, action),
            final(self)@.wf(),
    {
        let mut effects: Vec<Effect> = Vec::new();
        if let Action::Quit = action {
            effects.push(Effect::CloseSelf);
            let reaction = Reaction { render: false, effects };
            assert(reaction@.effects =~= seq![EffectView::CloseSelf]);
            return reaction;
        }
        let count = self.entry_count();
        if count == 0 {
            let reaction = Reaction { render: false, effects };
            assert(reaction@.effects =~= Seq::<EffectView>::empty());
            return reaction;
        }
        match action {
            Action::MoveUp => {
                self.selected = move_up(self.selected);
                let reaction = Reaction { render: true, effects };
                assert(reaction@.effects =~= Seq::<EffectView>::empty());
                reaction
            },
            Action::MoveDown => {
                self.selected = move_down(self.selected, count);
                let reaction = Reaction { render: true, effects };
                assert(reaction@.effects =~= Seq::<EffectView>::empty());
                reaction
            },
            Action::Activate => Reaction { render: false, effects: self.activate_selected() },
            Action::DeleteOne => Reaction { render: true, effects: self.delete_selected_dead() },
            Action::DeleteAll => {
                effects.push(Effect::DeleteAllDeadSessions);
                let reaction = Reaction { render: true, effects };
                assert(reaction@.effects =~= seq![EffectView::DeleteAllDeadSessions]);
                reaction
            },
            Action::Quit => {
                effects.push(Effect::CloseSelf);
                let reaction = Reaction { render: false, effects };
                reaction
            },
        }
    }

    /// Handles one key press: moves the selection, or tells what to ask of
    /// the host. Keys do nothing until permissions are granted.
    pub fn handle_key(&mut self, key: KeyPress) -> (reaction: Reaction)
        requires
            old(self)@.wf(),
        ensures
            (final(self)@, reaction@) == handle_key_spec(old(self)@, key),
            final(self)@.wf(),
    {
        if !self.permissions_granted {
            let reaction = Reaction { render: false, effects: Vec::new() };
            assert(reaction@.effects =~= Seq::<EffectView>::empty());
            return reaction;
        }
        match action_for_key(key) {
            Some(action) => self.act(action),
            None => {
                let reaction = Reaction { render: false, effects: Vec::new() };
                assert(reaction@.effects =~= Seq::<EffectView>::empty());
                reaction
            },
        }
    }

    /// Takes in one event from the host and tells whether to render anew
    /// and what to ask of the host.
    pub fn update(&mut self, event: Event) -> (reaction: Reaction)
        requires
            old(self)@.wf(),
            event_fits(event@, old(self)@.include_new_session),
        ensures
            (final(self)@, reaction@) == update_spec(old(self)@, event@),
            final(self)@.wf(),
    {
        match event {
            Event::PermissionRequestResult(status) => {
                self.permissions_granted = match status {
                    PermissionStatus::Granted => true,
                    PermissionStatus::Denied => false,
                };
                let reaction = Reaction { render: true, effects: Vec::new() };
                assert(reaction@.effects =~= Seq::<EffectView>::empty());
                reaction
            },
            Event::SessionUpdate(sessions, resurrectable) => {
                self.sessions = sessions;
                self.resurrectable = resurrectable;
                self.clamp_selection();
                let reaction = Reaction { render: true, effects: Vec::new() };
                assert(reaction@.effects =~= Seq::<EffectView>::empty());
                reaction
            },
            Event::Key(key) => self.handle_key(key),
            Event::Other => {
                let reaction = Reaction { render: false, effects: Vec::new() };
                assert(reaction@.effects =~= Seq::<EffectView>::empty());
                reaction
            },
        }
    }

    /// Scrolls the list so that the selection shows in `visible_rows` rows
    /// and gives the lines that then show.
    pub fn build_list_items(&mut self, visible_rows: usize) -> (items: Vec<Line>)
        requires
            old(self)@.fits(),
        ensures
            final(self)@ == old(self)@.with_scroll_offset(
                scroll_offset_spec(
                    entries_spec(
                        old(self)@.sessions,
                        old(self)@.resurrectable.len(),
                        old(self)@.include_new_session,
                    ),
                    old(self)@.selected as int,
                    old(self)@.scroll_offset as int,
                    visible_rows as int,
                ),
            ),
            line_views(items@) == list_items_spec(
                old(self)@.sessions,
                old(self)@.resurrectable,
                old(self)@.include_new_session,
                old(self)@.selected as int,
                final(self)@.scroll_offset as int,
                visible_rows as int,
            ),
            items@.len() <= visible_rows,
    {
        let (offset, items) = list_items(
            &self.sessions,
            &self.resurrectable,
            self.include_new_session,
            self.selected,
            self.scroll_offset,
            visible_rows,
        );
        self.scroll_offset = offset;
        items
    }

    /// Decides what to show in `rows` rows of `cols` columns.
    pub fn render(&mut self, rows: usize, cols: usize) -> (frame: Frame)
        requires
            old(self)@.wf(),
        ensures
            (final(self)@, frame@) == render_spec(old(self)@, rows, cols),
            final(self)@.wf(),
    {
        if !self.permissions_granted {
            return Frame::Waiting { message: waiting_line(), width: cols };
        }
        let header = banner_line();
        let footer = footer_line();
        let footer_row = rows.saturating_sub(1);
        let body_rows = rows.saturating_sub(2);
        if body_rows == 0 {
            return Frame::Browser { header, footer, footer_row, width: cols, body_rows, body: None };
        }
        let items = self.build_list_items(body_rows);
        Frame::Browser { header, footer, footer_row, width: cols, body_rows, body: Some(items) }
    }
}

impl Default for State {
    /// A freshly loaded browser whose list starts with the entry that
    /// creates a session.
    fn default() -> (state: State)
        ensures
            state@ == initial_state(true),
            state@.wf(),
    {
        State::new(true)
    }
}

} // verus!
