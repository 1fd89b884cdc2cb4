//! The selection controller: keys, the actions they stand for, how the
//! selection moves, and the effects an action asks the host to perform.

use crate::entry::{entry_at, entry_count_spec, Entry};
use crate::session::{
    dead_views, live_views, DeadSession, DeadSessionView, LiveSession, LiveSessionView,
};
use vstd::prelude::*;

verus! {

/// A key of the keyboard, without modifiers.
#[derive(Clone, Copy, Debug, PartialEq, Eq, Structural)]
pub enum BareKey {
    PageDown,
    PageUp,
    Left,
    Down,
    Up,
    Right,
    Home,
    End,
    Backspace,
    Delete,
    Insert,
    F(u8),
    Char(char),
    Tab,
    Esc,
    Enter,
    CapsLock,
    ScrollLock,
    NumLock,
    PrintScreen,
    Pause,
    Menu,
}

/// One key press as the host reports it.
#[derive(Clone, Copy, Debug, PartialEq, Eq, Structural)]
pub struct KeyPress {
    pub bare_key: BareKey,
    /// Whether any modifier was held.
    pub modified: bool,
}

/// What the user can ask of the browser.
#[derive(Clone, Copy, Debug, PartialEq, Eq, Structural)]
pub enum Action {
    MoveUp,
    MoveDown,
    Activate,
    DeleteOne,
    DeleteAll,
    Quit,
}

/// What the browser asks of the host.
#[derive(Clone, Debug, PartialEq, Eq)]
pub enum Effect {
    /// Attach to the named session, resurrecting it if it has exited; with
    /// no name, create a session and attach to it.
    SwitchSession(Option<String>),
    /// Delete the named exited session.
    DeleteDeadSession(String),
    /// Delete every exited session.
    DeleteAllDeadSessions,
    /// Close the browser.
    CloseSelf,
}

/// Mathematical model of an [`Effect`].
pub enum EffectView {
    SwitchSession(Option<Seq<char>>),
    DeleteDeadSession(Seq<char>),
    DeleteAllDeadSessions,
    CloseSelf,
}

impl View for Effect {
    type V = EffectView;

    open spec fn view(&self) -> EffectView {
        match self {
            Effect::SwitchSession(Some(name)) => EffectView::SwitchSession(Some(name@)),
            Effect::SwitchSession(None) => EffectView::SwitchSession(None),
            Effect::DeleteDeadSession(name) => EffectView::DeleteDeadSession(name@),
            Effect::DeleteAllDeadSessions => EffectView::DeleteAllDeadSessions,
            Effect::CloseSelf => EffectView::CloseSelf,
        }
    }
}

pub open spec fn effect_views(effects: Seq<Effect>) -> Seq<EffectView> {
    effects.map_values(|e: Effect| e@)
}

/// The action a key stands for: Up or `k` moves up, Down or `j` moves down,
/// Enter activates, `d` deletes the selected exited session, `D` deletes all
/// exited sessions, `q` or Esc quits. A key held with a modifier, and any
/// other key, stands for nothing.
pub open spec fn action_for_key_spec(key: KeyPress) -> Option<Action> {
    if key.modified {
        None
    } else {
        match key.bare_key {
            BareKey::Up => Some(Action::MoveUp),
            BareKey::Down => Some(Action::MoveDown),
            BareKey::Enter => Some(Action::Activate),
            BareKey::Esc => Some(Action::Quit),
            BareKey::Char(c) => if c == 'k' {
                Some(Action::MoveUp)
            } else if c == 'j' {
                Some(Action::MoveDown)
            } else if c == 'd' {
                Some(Action::DeleteOne)
            } else if c == 'D' {
                Some(Action::DeleteAll)
            } else if c == 'q' {
                Some(Action::Quit)
            } else {
                None
            },
            _ => None,
        }
    }
}

/// A selection that points at an entry, or rests at 0 in an empty list.
pub open spec fn selection_valid(index: int, count: int) -> bool {
    0 <= index < count || (count <= 0 && index == 0)
}

/// One step up: the entry before, or the first entry itself.
pub open spec fn move_up_spec(index: int) -> int {
    if index > 0 {
        index - 1
    } else {
        0
    }
}

/// One step down: the entry after, but never past the last entry; 0 in an
/// empty list.
pub open spec fn move_down_spec(index: int, count: int) -> int {
    if count <= 0 {
        0
    } else if index + 1 < count {
        index + 1
    } else {
        count - 1
    }
}

/// The selection kept within a list that may have shrunk: the last entry
/// when it pointed past the end, 0 in an empty list.
pub open spec fn clamp_selection_spec(index: int, count: int) -> int {
    if index < count {
        index
    } else if count <= 0 {
        0
    } else {
        count - 1
    }
}

/// The selection after one action: only the two moves change it.
pub open spec fn step_selection(index: int, count: int, action: Action) -> int {
    match action {
        Action::MoveUp => move_up_spec(index),
        Action::MoveDown => move_down_spec(index, count),
        _ => index,
    }
}

/// The selection after a sequence of actions, first to last.
pub open spec fn after_actions(index: int, count: int, actions: Seq<Action>) -> int
    decreases actions.len(),
{
    if actions.len() == 0 {
        index
    } else {
        step_selection(after_actions(index, count, actions.drop_last()), count, actions.last())
    }
}

/// However the user moves up and down, the selection stays on an entry of
/// the list, or at 0 when the list is empty.
pub proof fn lemma_moves_keep_selection_valid(index: int, count: int, actions: Seq<Action>)
    requires
        0 <= count,
        selection_valid(index, count),
    ensures
        selection_valid(after_actions(index, count, actions), count),
    decreases actions.len(),
{
    if actions.len() > 0 {
        lemma_moves_keep_selection_valid(index, count, actions.drop_last());
    }
}

/// Clamping always yields a valid selection and leaves a valid one alone.
pub proof fn lemma_clamp_selection_valid(index: int, count: int)
    requires
        0 <= index,
        0 <= count,
    ensures
        selection_valid(clamp_selection_spec(index, count), count),
        selection_valid(index, count) ==> clamp_selection_spec(index, count) == index,
{
}

/// The entry that the selection points at, if it points at one.
pub open spec fn selected_entry_spec(
    live_len: nat,
    dead_len: nat,
    include_new_session: bool,
    selected: int,
) -> Option<Entry> {
    if 0 <= selected < entry_count_spec(live_len, dead_len, include_new_session) {
        Some(entry_at(live_len, include_new_session, selected))
    } else {
        None
    }
}

/// What activating the selection asks of the host: for the new-session
/// entry, to create a session, and to close; for the session that hosts the
/// browser, only to close; for any other session, running or exited, to
/// switch to it by name, and to close. A selection that points at no entry
/// asks nothing.
pub open spec fn activate_spec(
    live: Seq<LiveSessionView>,
    dead: Seq<DeadSessionView>,
    include_new_session: bool,
    selected: int,
) -> Seq<EffectView> {
    match selected_entry_spec(live.len(), dead.len(), include_new_session, selected) {
        None => Seq::empty(),
        Some(Entry::NewSession) => seq![EffectView::SwitchSession(None), EffectView::CloseSelf],
        Some(Entry::Live(j)) => if live[j as int].is_current {
            seq![EffectView::CloseSelf]
        } else {
            seq![EffectView::SwitchSession(Some(live[j as int].name)), EffectView::CloseSelf]
        },
        Some(Entry::Dead(j)) => seq![
            EffectView::SwitchSession(Some(dead[j as int].name)),
            EffectView::CloseSelf,
        ],
    }
}

/// What deleting the selection asks of the host: to delete the selected
/// session when it is an exited one, and nothing otherwise.
pub open spec fn delete_selected_spec(
    live_len: nat,
    dead: Seq<DeadSessionView>,
    include_new_session: bool,
    selected: int,
) -> Seq<EffectView> {
    match selected_entry_spec(live_len, dead.len(), include_new_session, selected) {
        Some(Entry::Dead(j)) => seq![EffectView::DeleteDeadSession(dead[j as int].name)],
        _ => Seq::empty(),
    }
}

impl KeyPress {
    /// Whether this is the given key, pressed with no modifier held.
    pub fn is_key_without_modifier(&self, key: BareKey) -> (is: bool)
        ensures
            is == (self.bare_key == key && !self.modified),
    {
        self.bare_key == key && !self.modified
    }
}

/// The action a key stands for, if any.
pub fn action_for_key(key: KeyPress) -> (action: Option<Action>)
    ensures
        action == action_for_key_spec(key),
{
    if key.is_key_without_modifier(BareKey::Up) || key.is_key_without_modifier(BareKey::Char('k')) {
        Some(Action::MoveUp)
    } else if key.is_key_without_modifier(BareKey::Down) || key.is_key_without_modifier(
        BareKey::Char('j'),
    ) {
        Some(Action::MoveDown)
    } else if key.is_key_without_modifier(BareKey::Enter) {
        Some(Action::Activate)
    } else if key.is_key_without_modifier(BareKey::Char('d')) {
        Some(Action::DeleteOne)
    } else if key.is_key_without_modifier(BareKey::Char('D')) {
        Some(Action::DeleteAll)
    } else if key.is_key_without_modifier(BareKey::Char('q')) || key.is_key_without_modifier(
        BareKey::Esc,
    ) {
        Some(Action::Quit)
    } else {
        None
    }
}

/// Moves the selection one entry up; at the first entry it stays.
pub fn move_up(index: usize) -> (moved: usize)
    ensures
        moved == move_up_spec(index as int),
{
    if index > 0 {
        index - 1
    } else {
        0
    }
}

/// Moves the selection one entry down in a list of `count` entries; at the
/// last entry it stays.
pub fn move_down(index: usize, count: usize) -> (moved: usize)
    ensures
        moved == move_down_spec(index as int, count as int),
        selection_valid(moved as int, count as int),
{
    if count == 0 {
        0
    } else if index < count - 1 {
        index + 1
    } else {
        count - 1
    }
}

/// Brings the selection back into a list of `count` entries.
pub fn clamp_index(index: usize, count: usize) -> (clamped: usize)
    ensures
        clamped == clamp_selection_spec(index as int, count as int),
        selection_valid(clamped as int, count as int),
{
    if index < count {
        index
    } else if count == 0 {
        0
    } else {
        count - 1
    }
}

/// The entry that the selection points at, if it points at one.
pub fn selected_entry(
    live_len: usize,
    dead_len: usize,
    include_new_session: bool,
    selected: usize,
) -> (entry: Option<Entry>)
    ensures
        entry == selected_entry_spec(
            live_len as nat,
            dead_len as nat,
            include_new_session,
            selected as int,
        ),
{
    let lead: usize = if include_new_session {
        1
    } else {
        0
    };
    if selected < lead {
        Some(Entry::NewSession)
    } else if selected - lead < live_len {
        Some(Entry::Live(selected - lead))
    } else if selected - lead - live_len < dead_len {
        Some(Entry::Dead(selected - lead - live_len))
    } else {
        None
    }
}

/// What activating the selection asks of the host.
pub fn activate(
    live: &Vec<LiveSession>,
    dead: &Vec<DeadSession>,
    include_new_session: bool,
    selected: usize,
) -> (effects: Vec<Effect>)
    ensures
        effect_views(effects@) == activate_spec(
            live_views(live@),
            dead_views(dead@),
            include_new_session,
            selected as int,
        ),
{
    let mut effects: Vec<Effect> = Vec::new();
    match selected_entry(live.len(), dead.len(), include_new_session, selected) {
        None => {},
        Some(Entry::NewSession) => {
            effects.push(Effect::SwitchSession(None));
            effects.push(Effect::CloseSelf);
        },
        Some(Entry::Live(j)) => {
            if !live[j].is_current {
                effects.push(Effect::SwitchSession(Some(live[j].name.clone())));
            }
            effects.push(Effect::CloseSelf);
        },
        Some(Entry::Dead(j)) => {
            effects.push(Effect::SwitchSession(Some(dead[j].name.clone())));
            effects.push(Effect::CloseSelf);
        },
    }
    effects
}

/// What deleting the selection asks of the host.
pub fn delete_selected(
    live_len: usize,
    dead: &Vec<DeadSession>,
    include_new_session: bool,
    selected: usize,
) -> (effects: Vec<Effect>)
    ensures
        effect_views(effects@) == delete_selected_spec(
            live_len as nat,
            dead_views(dead@),
            include_new_session,
            selected as int,
        ),
{
    let mut effects: Vec<Effect> = Vec::new();
    match selected_entry(live_len, dead.len(), include_new_session, selected) {
        Some(Entry::Dead(j)) => {
            effects.push(Effect::DeleteDeadSession(dead[j].name.clone()));
        },
        _ => {},
    }
    effects
}

} // verus!
