use sessioner::entry::{derive_entries, entry_count, layout_fits, Entry, LineBlock};
use sessioner::session::{DeadSession, LiveSession, Pane, Tab};

fn pane(title: &str, is_plugin: bool) -> Pane {
    Pane { title: title.to_string(), is_plugin }
}

fn session(name: &str, tabs: Vec<Tab>) -> LiveSession {
    LiveSession { name: name.to_string(), is_current: false, connected_clients: 0, tabs }
}

fn dead(name: &str, age_secs: u64) -> DeadSession {
    DeadSession { name: name.to_string(), age_secs }
}

#[test]
fn pane_titles_follow_tab_positions_not_list_order() {
    let s = session(
        "work",
        vec![
            Tab { index: 2, panes: vec![pane("logs", false)] },
            Tab { index: 0, panes: vec![pane("editor", false), pane("shell", false)] },
            Tab { index: 1, panes: vec![pane("build", false)] },
        ],
    );
    assert_eq!(s.pane_titles(), vec!["editor", "shell", "build", "logs"]);
}

#[test]
fn pane_titles_leave_plugin_panes_out() {
    let s = session(
        "work",
        vec![Tab {
            index: 0,
            panes: vec![pane("tab-bar", true), pane("vim", false), pane("status-bar", true)],
        }],
    );
    assert_eq!(s.pane_titles(), vec!["vim"]);
}

#[test]
fn pane_titles_of_a_session_without_tabs_are_empty() {
    let s = session("idle", vec![]);
    assert_eq!(s.pane_titles(), Vec::<String>::new());
}

#[test]
fn pane_titles_keep_list_order_among_tabs_at_one_position() {
    let s = session(
        "odd",
        vec![
            Tab { index: 3, panes: vec![pane("b", false)] },
            Tab { index: 1, panes: vec![pane("a", false)] },
            Tab { index: 3, panes: vec![pane("c", false)] },
        ],
    );
    assert_eq!(s.pane_titles(), vec!["a", "b", "c"]);
}

#[test]
fn pane_titles_reach_the_largest_tab_position() {
    let s = session(
        "far",
        vec![
            Tab { index: usize::MAX, panes: vec![pane("last", false)] },
            Tab { index: 0, panes: vec![pane("first", false)] },
        ],
    );
    assert_eq!(s.pane_titles(), vec!["first", "last"]);
}

#[test]
fn pane_titles_are_derived_afresh_on_every_call() {
    let mut s = session("work", vec![Tab { index: 0, panes: vec![pane("one", false)] }]);
    assert_eq!(s.pane_titles(), vec!["one"]);
    s.tabs[0].panes.push(pane("two", false));
    assert_eq!(s.pane_titles(), vec!["one", "two"]);
}

#[test]
fn status_suffix_prefers_attached_over_connected() {
    let mut s = session("work", vec![]);
    assert_eq!(s.status_suffix(), "");
    s.connected_clients = 2;
    assert_eq!(s.status_suffix(), " (connected)");
    s.is_current = true;
    assert_eq!(s.status_suffix(), " (attached)");
}

#[test]
fn entries_come_in_fixed_order_with_contiguous_blocks() {
    let live = vec![
        session("a", vec![Tab { index: 0, panes: vec![pane("p1", false), pane("p2", false)] }]),
        session("b", vec![]),
    ];
    let exited = vec![dead("x", 5), dead("y", 500)];
    assert!(layout_fits(&live, &exited, true));
    let entries = derive_entries(&live, &exited, true);
    assert_eq!(
        entries,
        vec![
            (Entry::NewSession, LineBlock { starting_line: 0, line_count: 1 }),
            (Entry::Live(0), LineBlock { starting_line: 1, line_count: 3 }),
            (Entry::Live(1), LineBlock { starting_line: 4, line_count: 1 }),
            (Entry::Dead(0), LineBlock { starting_line: 5, line_count: 2 }),
            (Entry::Dead(1), LineBlock { starting_line: 7, line_count: 2 }),
        ]
    );
}

#[test]
fn entries_without_the_new_session_entry_start_with_the_first_session() {
    let live = vec![session("a", vec![])];
    let exited = vec![dead("x", 5)];
    let entries = derive_entries(&live, &exited, false);
    assert_eq!(
        entries,
        vec![
            (Entry::Live(0), LineBlock { starting_line: 0, line_count: 1 }),
            (Entry::Dead(0), LineBlock { starting_line: 1, line_count: 2 }),
        ]
    );
}

#[test]
fn entries_of_empty_lists() {
    assert_eq!(derive_entries(&vec![], &vec![], false), vec![]);
    assert_eq!(
        derive_entries(&vec![], &vec![], true),
        vec![(Entry::NewSession, LineBlock { starting_line: 0, line_count: 1 })]
    );
}

#[test]
fn entries_tile_the_lines_for_many_shapes() {
    for n_live in 0..4usize {
        for n_dead in 0..4usize {
            for flag in [false, true] {
                let live: Vec<LiveSession> = (0..n_live)
                    .map(|i| {
                        session(
                            "s",
                            vec![Tab {
                                index: 0,
                                panes: (0..i).map(|_| pane("p", false)).collect(),
                            }],
                        )
                    })
                    .collect();
                let exited: Vec<DeadSession> = (0..n_dead).map(|_| dead("d", 1)).collect();
                let entries = derive_entries(&live, &exited, flag);
                assert_eq!(entries.len(), usize::from(flag) + n_live + n_dead);
                let mut next = 0;
                for (_, block) in &entries {
                    assert_eq!(block.starting_line, next);
                    assert!(block.line_count > 0);
                    next += block.line_count;
                }
            }
        }
    }
}

#[test]
fn entries_do_not_depend_on_earlier_calls() {
    let live = vec![session("a", vec![Tab { index: 0, panes: vec![pane("p", false)] }])];
    let exited = vec![dead("x", 5)];
    let first = derive_entries(&live, &exited, true);
    let second = derive_entries(&live, &exited, true);
    assert_eq!(first, second);
}

#[test]
fn entry_count_adds_the_new_session_entry() {
    assert_eq!(entry_count(2, 3, true), Some(6));
    assert_eq!(entry_count(2, 3, false), Some(5));
    assert_eq!(entry_count(0, 0, false), Some(0));
    assert_eq!(entry_count(usize::MAX, 1, false), None);
    assert_eq!(entry_count(usize::MAX, 0, true), None);
    assert_eq!(entry_count(usize::MAX, 0, false), Some(usize::MAX));
}
