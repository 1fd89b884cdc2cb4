use sessioner::entry::{derive_entries, Entry, LineBlock};
use sessioner::session::{DeadSession, LiveSession, Pane, Tab};
use sessioner::viewport::{
    compute_visible, scroll_to_block, selected_block, total_lines, VisibleLine,
};

fn single_pane_sessions(n: usize) -> Vec<LiveSession> {
    (0..n)
        .map(|i| LiveSession {
            name: format!("s{}", i),
            is_current: false,
            connected_clients: 0,
            tabs: vec![Tab {
                index: 0,
                panes: vec![Pane { title: format!("pane{}", i), is_plugin: false }],
            }],
        })
        .collect()
}

fn session_with_panes(n: usize) -> LiveSession {
    LiveSession {
        name: "tall".to_string(),
        is_current: false,
        connected_clients: 0,
        tabs: vec![Tab {
            index: 0,
            panes: (0..n).map(|i| Pane { title: format!("p{}", i), is_plugin: false }).collect(),
        }],
    }
}

fn block(starting_line: usize, line_count: usize) -> LineBlock {
    LineBlock { starting_line, line_count }
}

#[test]
fn scroll_up_reveals_the_top_of_the_selected_block() {
    assert_eq!(scroll_to_block(block(4, 2), 40, 10, 5), 4);
}

#[test]
fn scroll_down_reveals_the_bottom_of_the_selected_block() {
    // block [12, 15), window of 5 rows at 3: 15 - 5 = 10
    assert_eq!(scroll_to_block(block(12, 3), 40, 3, 5), 10);
}

#[test]
fn scroll_stays_when_the_block_is_in_view() {
    assert_eq!(scroll_to_block(block(6, 2), 40, 4, 5), 4);
    assert_eq!(scroll_to_block(block(4, 5), 40, 4, 5), 4);
}

#[test]
fn scroll_is_zero_when_everything_fits() {
    assert_eq!(scroll_to_block(block(3, 2), 5, 4, 5), 0);
    assert_eq!(scroll_to_block(block(3, 2), 5, 4, 10), 0);
    assert_eq!(scroll_to_block(block(0, 1), 0, 7, 1), 0);
}

#[test]
fn scroll_is_clamped_to_the_end_of_the_list() {
    // the block is in view, but the window would reach past line 20
    assert_eq!(scroll_to_block(block(19, 1), 20, 18, 5), 15);
}

#[test]
fn scroll_anchors_the_top_of_a_block_taller_than_the_window() {
    // block [10, 18) in a window of 5 rows
    assert_eq!(scroll_to_block(block(10, 8), 40, 0, 5), 10);
    assert_eq!(scroll_to_block(block(10, 8), 40, 30, 5), 10);
    assert_eq!(scroll_to_block(block(10, 8), 40, 10, 5), 10);
}

#[test]
fn scroll_without_rows_keeps_the_offset() {
    assert_eq!(scroll_to_block(block(10, 2), 40, 7, 0), 7);
    assert_eq!(scroll_to_block(block(0, 1), 0, 7, 0), 7);
}

#[test]
fn scroll_survives_offsets_and_heights_at_the_machine_limit() {
    assert_eq!(scroll_to_block(block(10, 2), 40, usize::MAX, usize::MAX), 0);
    assert_eq!(scroll_to_block(block(10, 2), 40, usize::MAX, 5), 10);
    assert_eq!(scroll_to_block(block(10, 2), 40, 3, usize::MAX), 0);
}

#[test]
fn scroll_twice_gives_the_same_offset() {
    let blocks = [block(0, 1), block(3, 2), block(10, 8), block(38, 2)];
    for b in blocks {
        for rows in 0..12usize {
            for start in 0..45usize {
                let once = scroll_to_block(b, 40, start, rows);
                let twice = scroll_to_block(b, 40, once, rows);
                assert_eq!(once, twice);
            }
        }
    }
}

#[test]
fn scroll_keeps_the_selected_header_in_the_window() {
    let blocks = [block(0, 1), block(3, 2), block(10, 4), block(38, 2)];
    for b in blocks {
        for rows in b.line_count..12usize {
            for start in 0..45usize {
                let offset = scroll_to_block(b, 40, start, rows);
                assert!(offset <= b.starting_line);
                assert!(b.starting_line < offset + rows);
                assert!(b.starting_line + b.line_count <= offset + rows);
                assert!(offset <= 40usize.saturating_sub(rows));
            }
        }
    }
}

#[test]
fn last_of_twenty_sessions_in_five_rows() {
    let live = single_pane_sessions(20);
    let entries = derive_entries(&live, &vec![], false);
    assert_eq!(total_lines(&entries), 40);
    let mut selected = 0;
    let mut offset = 0;
    for _ in 0..19 {
        selected = sessioner::controller::move_down(selected, entries.len());
        let (next, _) = compute_visible(&entries, selected, offset, 5);
        offset = next;
    }
    assert_eq!(selected, 19);
    assert_eq!(offset, 40 - 5);
    let (offset, lines) = compute_visible(&entries, 19, 0, 5);
    assert_eq!(offset, 35);
    assert_eq!(
        lines,
        vec![
            VisibleLine { entry_index: 17, entry: Entry::Live(17), line_in_block: 1, selected: false },
            VisibleLine { entry_index: 18, entry: Entry::Live(18), line_in_block: 0, selected: false },
            VisibleLine { entry_index: 18, entry: Entry::Live(18), line_in_block: 1, selected: false },
            VisibleLine { entry_index: 19, entry: Entry::Live(19), line_in_block: 0, selected: true },
            VisibleLine { entry_index: 19, entry: Entry::Live(19), line_in_block: 1, selected: true },
        ]
    );
}

#[test]
fn visible_lines_of_a_list_that_fits() {
    let live = single_pane_sessions(1);
    let dead = vec![DeadSession { name: "old".to_string(), age_secs: 1 }];
    let entries = derive_entries(&live, &dead, true);
    let (offset, lines) = compute_visible(&entries, 2, 9, 10);
    assert_eq!(offset, 0);
    assert_eq!(
        lines,
        vec![
            VisibleLine { entry_index: 0, entry: Entry::NewSession, line_in_block: 0, selected: false },
            VisibleLine { entry_index: 1, entry: Entry::Live(0), line_in_block: 0, selected: false },
            VisibleLine { entry_index: 1, entry: Entry::Live(0), line_in_block: 1, selected: false },
            VisibleLine { entry_index: 2, entry: Entry::Dead(0), line_in_block: 0, selected: true },
            VisibleLine { entry_index: 2, entry: Entry::Dead(0), line_in_block: 1, selected: true },
        ]
    );
    assert!(lines[0].is_header());
    assert!(!lines[2].is_header());
}

#[test]
fn visible_lines_without_rows_are_none_and_the_offset_stays() {
    let live = single_pane_sessions(3);
    let entries = derive_entries(&live, &vec![], true);
    let (offset, lines) = compute_visible(&entries, 1, 4, 0);
    assert_eq!(offset, 4);
    assert_eq!(lines, vec![]);
}

#[test]
fn visible_lines_of_an_empty_list() {
    let entries = derive_entries(&vec![], &vec![], false);
    let (offset, lines) = compute_visible(&entries, 0, 3, 5);
    assert_eq!(offset, 0);
    assert_eq!(lines, vec![]);
}

#[test]
fn visible_lines_cut_a_block_at_the_window_edges() {
    let live = vec![session_with_panes(3), session_with_panes(3)];
    let entries = derive_entries(&live, &vec![], false);
    // lines 0..4 belong to the first session, 4..8 to the second
    let (offset, lines) = compute_visible(&entries, 1, 0, 5);
    assert_eq!(offset, 3);
    assert_eq!(lines.len(), 5);
    assert_eq!(
        lines[0],
        VisibleLine { entry_index: 0, entry: Entry::Live(0), line_in_block: 3, selected: false }
    );
    assert_eq!(
        lines[1],
        VisibleLine { entry_index: 1, entry: Entry::Live(1), line_in_block: 0, selected: true }
    );
    assert_eq!(
        lines[4],
        VisibleLine { entry_index: 1, entry: Entry::Live(1), line_in_block: 3, selected: true }
    );
}

#[test]
fn visible_lines_of_a_block_taller_than_the_window_start_at_its_header() {
    let live = vec![session_with_panes(1), session_with_panes(9), session_with_panes(1)];
    let entries = derive_entries(&live, &vec![], false);
    // blocks: [0, 2), [2, 12), [12, 14)
    for start in [0usize, 2, 5, 11] {
        let (offset, lines) = compute_visible(&entries, 1, start, 4);
        assert_eq!(offset, 2);
        assert_eq!(lines.len(), 4);
        assert_eq!(
            lines[0],
            VisibleLine { entry_index: 1, entry: Entry::Live(1), line_in_block: 0, selected: true }
        );
        assert_eq!(lines[3].line_in_block, 3);
    }
}

#[test]
fn visible_lines_are_the_same_on_a_second_computation() {
    let live = single_pane_sessions(6);
    let dead = vec![DeadSession { name: "old".to_string(), age_secs: 1 }];
    let entries = derive_entries(&live, &dead, true);
    for selected in 0..entries.len() {
        for rows in 0..16usize {
            for start in 0..16usize {
                let (once, first) = compute_visible(&entries, selected, start, rows);
                let (twice, second) = compute_visible(&entries, selected, once, rows);
                assert_eq!(once, twice);
                assert_eq!(first, second);
                assert!(first.len() <= rows);
            }
        }
    }
}

#[test]
fn a_selection_past_the_list_scrolls_to_the_top() {
    let live = single_pane_sessions(10);
    let entries = derive_entries(&live, &vec![], false);
    assert_eq!(selected_block(&entries, 10), LineBlock { starting_line: 0, line_count: 1 });
    assert_eq!(selected_block(&entries, 3), LineBlock { starting_line: 6, line_count: 2 });
    let (offset, lines) = compute_visible(&entries, 10, 7, 4);
    assert_eq!(offset, 0);
    assert!(lines.iter().all(|l| !l.selected));
}

#[test]
fn total_lines_is_the_end_of_the_last_block() {
    assert_eq!(total_lines(&vec![]), 0);
    let live = single_pane_sessions(2);
    let dead = vec![DeadSession { name: "old".to_string(), age_secs: 1 }];
    assert_eq!(total_lines(&derive_entries(&live, &dead, true)), 1 + 2 + 2 + 2);
}
