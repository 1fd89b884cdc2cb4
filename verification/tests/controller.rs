use sessioner::controller::{
    action_for_key, activate, clamp_index, delete_selected, move_down, move_up, selected_entry,
    Action, BareKey, Effect, KeyPress,
};
use sessioner::entry::Entry;
use sessioner::session::{DeadSession, LiveSession};

fn key(bare_key: BareKey) -> KeyPress {
    KeyPress { bare_key, modified: false }
}

fn live(name: &str, is_current: bool) -> LiveSession {
    LiveSession { name: name.to_string(), is_current, connected_clients: 1, tabs: vec![] }
}

fn dead(name: &str) -> DeadSession {
    DeadSession { name: name.to_string(), age_secs: 130 }
}

#[test]
fn keys_map_to_actions() {
    assert_eq!(action_for_key(key(BareKey::Up)), Some(Action::MoveUp));
    assert_eq!(action_for_key(key(BareKey::Char('k'))), Some(Action::MoveUp));
    assert_eq!(action_for_key(key(BareKey::Down)), Some(Action::MoveDown));
    assert_eq!(action_for_key(key(BareKey::Char('j'))), Some(Action::MoveDown));
    assert_eq!(action_for_key(key(BareKey::Enter)), Some(Action::Activate));
    assert_eq!(action_for_key(key(BareKey::Char('d'))), Some(Action::DeleteOne));
    assert_eq!(action_for_key(key(BareKey::Char('D'))), Some(Action::DeleteAll));
    assert_eq!(action_for_key(key(BareKey::Char('q'))), Some(Action::Quit));
    assert_eq!(action_for_key(key(BareKey::Esc)), Some(Action::Quit));
}

#[test]
fn other_keys_map_to_nothing() {
    for bare in [
        BareKey::PageDown,
        BareKey::PageUp,
        BareKey::Left,
        BareKey::Right,
        BareKey::Home,
        BareKey::End,
        BareKey::Backspace,
        BareKey::Delete,
        BareKey::Insert,
        BareKey::F(1),
        BareKey::Char('x'),
        BareKey::Char('K'),
        BareKey::Char('Q'),
        BareKey::Tab,
        BareKey::CapsLock,
        BareKey::ScrollLock,
        BareKey::NumLock,
        BareKey::PrintScreen,
        BareKey::Pause,
        BareKey::Menu,
    ] {
        assert_eq!(action_for_key(key(bare)), None);
    }
}

#[test]
fn keys_with_a_modifier_map_to_nothing() {
    for bare in [
        BareKey::Up,
        BareKey::Down,
        BareKey::Enter,
        BareKey::Esc,
        BareKey::Char('k'),
        BareKey::Char('j'),
        BareKey::Char('d'),
        BareKey::Char('D'),
        BareKey::Char('q'),
    ] {
        assert_eq!(action_for_key(KeyPress { bare_key: bare, modified: true }), None);
    }
}

#[test]
fn a_key_is_itself_only_without_modifier() {
    assert!(key(BareKey::Enter).is_key_without_modifier(BareKey::Enter));
    assert!(!key(BareKey::Enter).is_key_without_modifier(BareKey::Esc));
    assert!(!KeyPress { bare_key: BareKey::Enter, modified: true }
        .is_key_without_modifier(BareKey::Enter));
    assert!(key(BareKey::Char('d')).is_key_without_modifier(BareKey::Char('d')));
    assert!(!key(BareKey::Char('d')).is_key_without_modifier(BareKey::Char('D')));
    assert!(!key(BareKey::F(1)).is_key_without_modifier(BareKey::F(2)));
}

#[test]
fn move_up_stops_at_the_first_entry() {
    assert_eq!(move_up(3), 2);
    assert_eq!(move_up(1), 0);
    assert_eq!(move_up(0), 0);
}

#[test]
fn move_down_stops_at_the_last_entry() {
    assert_eq!(move_down(0, 3), 1);
    assert_eq!(move_down(1, 3), 2);
    assert_eq!(move_down(2, 3), 2);
    assert_eq!(move_down(0, 1), 0);
    assert_eq!(move_down(0, 0), 0);
    assert_eq!(move_down(usize::MAX, usize::MAX), usize::MAX - 1);
}

#[test]
fn moves_never_leave_the_list() {
    for count in 0..5usize {
        let mut index = 0;
        for step in 0..40usize {
            index = if step % 7 < 4 { move_down(index, count) } else { move_up(index) };
            if count == 0 {
                assert_eq!(index, 0);
            } else {
                assert!(index < count);
            }
        }
    }
}

#[test]
fn clamp_brings_the_selection_back() {
    assert_eq!(clamp_index(2, 5), 2);
    assert_eq!(clamp_index(4, 5), 4);
    assert_eq!(clamp_index(5, 5), 4);
    assert_eq!(clamp_index(9, 5), 4);
    assert_eq!(clamp_index(9, 1), 0);
    assert_eq!(clamp_index(9, 0), 0);
    assert_eq!(clamp_index(0, 0), 0);
}

#[test]
fn selected_entry_follows_the_fixed_order() {
    assert_eq!(selected_entry(2, 2, true, 0), Some(Entry::NewSession));
    assert_eq!(selected_entry(2, 2, true, 1), Some(Entry::Live(0)));
    assert_eq!(selected_entry(2, 2, true, 2), Some(Entry::Live(1)));
    assert_eq!(selected_entry(2, 2, true, 3), Some(Entry::Dead(0)));
    assert_eq!(selected_entry(2, 2, true, 4), Some(Entry::Dead(1)));
    assert_eq!(selected_entry(2, 2, true, 5), None);
    assert_eq!(selected_entry(2, 2, false, 0), Some(Entry::Live(0)));
    assert_eq!(selected_entry(2, 2, false, 3), Some(Entry::Dead(1)));
    assert_eq!(selected_entry(2, 2, false, 4), None);
    assert_eq!(selected_entry(0, 0, false, 0), None);
    assert_eq!(selected_entry(0, 2, true, 1), Some(Entry::Dead(0)));
}

#[test]
fn activating_the_new_session_entry_creates_a_session() {
    let effects = activate(&vec![live("a", false)], &vec![], true, 0);
    assert_eq!(effects, vec![Effect::SwitchSession(None), Effect::CloseSelf]);
}

#[test]
fn activating_the_current_session_only_closes() {
    let effects = activate(&vec![live("a", false), live("here", true)], &vec![], true, 2);
    assert_eq!(effects, vec![Effect::CloseSelf]);
}

#[test]
fn activating_another_session_switches_to_it() {
    let effects = activate(&vec![live("a", false), live("here", true)], &vec![], true, 1);
    assert_eq!(
        effects,
        vec![Effect::SwitchSession(Some("a".to_string())), Effect::CloseSelf]
    );
}

#[test]
fn activating_an_exited_session_resurrects_it() {
    let effects = activate(&vec![live("a", false)], &vec![dead("old"), dead("older")], true, 3);
    assert_eq!(
        effects,
        vec![Effect::SwitchSession(Some("older".to_string())), Effect::CloseSelf]
    );
}

#[test]
fn activating_a_stale_selection_does_nothing() {
    assert_eq!(activate(&vec![live("a", false)], &vec![dead("old")], true, 3), vec![]);
    assert_eq!(activate(&vec![], &vec![], false, 0), vec![]);
}

#[test]
fn deleting_applies_to_exited_sessions_only() {
    let exited = vec![dead("old"), dead("older")];
    assert_eq!(delete_selected(1, &exited, true, 0), vec![]);
    assert_eq!(delete_selected(1, &exited, true, 1), vec![]);
    assert_eq!(
        delete_selected(1, &exited, true, 2),
        vec![Effect::DeleteDeadSession("old".to_string())]
    );
    assert_eq!(
        delete_selected(1, &exited, true, 3),
        vec![Effect::DeleteDeadSession("older".to_string())]
    );
    assert_eq!(delete_selected(1, &exited, true, 4), vec![]);
}

#[test]
fn deleting_on_the_new_session_entry_spares_the_first_exited_session() {
    let exited = vec![dead("old")];
    assert_eq!(delete_selected(0, &exited, true, 0), vec![]);
    assert_eq!(
        delete_selected(0, &exited, true, 1),
        vec![Effect::DeleteDeadSession("old".to_string())]
    );
}
