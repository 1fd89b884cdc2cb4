//! The entry model: the sessions flattened into one navigable list, each
//! entry owning a block of consecutive display lines.

use crate::session::{
    live_views, pane_titles_spec, string_views, DeadSession, LiveSession, LiveSessionView,
};
use vstd::prelude::*;

verus! {

/// One selectable row group of the browser.
#[derive(Clone, Copy, Debug, PartialEq, Eq, Structural)]
pub enum Entry {
    /// The synthetic entry that creates a session.
    NewSession,
    /// The running session at this position of the live list.
    Live(usize),
    /// The exited session at this position of the dead list.
    Dead(usize),
}

/// The display lines an entry occupies in the unscrolled list.
#[derive(Clone, Copy, Debug, PartialEq, Eq, Structural)]
pub struct LineBlock {
    pub starting_line: usize,
    pub line_count: usize,
}

/// Lines of an exited session: its header and the line telling its age.
pub const DEAD_BLOCK_LINES: usize = 2;

/// How many entries the list has.
pub open spec fn entry_count_spec(live_len: nat, dead_len: nat, include_new_session: bool) -> nat {
    (if include_new_session {
        1nat
    } else {
        0nat
    }) + live_len + dead_len
}

/// The entry at position `i`: the new-session entry first when it is shown,
/// then the live sessions, then the dead ones, each in list order.
pub open spec fn entry_at(live_len: nat, include_new_session: bool, i: int) -> Entry {
    let lead: int = if include_new_session {
        1
    } else {
        0
    };
    if i < lead {
        Entry::NewSession
    } else if i - lead < live_len {
        Entry::Live((i - lead) as usize)
    } else {
        Entry::Dead((i - lead - live_len) as usize)
    }
}

/// The number of lines an entry takes: one for the new-session entry, a
/// header and one line per pane title for a live session, two for a dead one.
pub open spec fn entry_lines(live: Seq<LiveSessionView>, entry: Entry) -> nat {
    match entry {
        Entry::NewSession => 1,
        Entry::Live(j) => 1 + pane_titles_spec(live[j as int].tabs).len(),
        Entry::Dead(_) => 2,
    }
}

/// The number of lines that the first `i` entries take together.
pub open spec fn lines_before(live: Seq<LiveSessionView>, include_new_session: bool, i: int) -> nat
    decreases i,
{
    if i <= 0 {
        0
    } else {
        lines_before(live, include_new_session, i - 1) + entry_lines(
            live,
            entry_at(live.len(), include_new_session, i - 1),
        )
    }
}

/// The number of lines of the whole list.
pub open spec fn total_lines_spec(
    live: Seq<LiveSessionView>,
    dead_len: nat,
    include_new_session: bool,
) -> nat {
    lines_before(
        live,
        include_new_session,
        entry_count_spec(live.len(), dead_len, include_new_session) as int,
    )
}

/// The list fits the machine: its lines can be numbered in a `usize`.
pub open spec fn layout_fits_spec(
    live: Seq<LiveSessionView>,
    dead_len: nat,
    include_new_session: bool,
) -> bool {
    total_lines_spec(live, dead_len, include_new_session) <= usize::MAX
}

/// The entry at position `i` with the block it occupies.
pub open spec fn block_at(live: Seq<LiveSessionView>, include_new_session: bool, i: int) -> (
    Entry,
    LineBlock,
) {
    (
        entry_at(live.len(), include_new_session, i),
        LineBlock {
            starting_line: lines_before(live, include_new_session, i) as usize,
            line_count: entry_lines(live, entry_at(live.len(), include_new_session, i)) as usize,
        },
    )
}

/// The entries with their blocks, as a function of the two lists and the
/// flag alone.
pub open spec fn entries_spec(
    live: Seq<LiveSessionView>,
    dead_len: nat,
    include_new_session: bool,
) -> Seq<(Entry, LineBlock)> {
    Seq::new(
        entry_count_spec(live.len(), dead_len, include_new_session),
        |i: int| block_at(live, include_new_session, i),
    )
}

/// The line after the last line of block `i`.
pub open spec fn block_end(blocks: Seq<(Entry, LineBlock)>, i: int) -> int {
    blocks[i].1.starting_line + blocks[i].1.line_count
}

/// Blocks that tile the lines from 0 on: none is empty, the first starts at
/// line 0, each next one starts where its predecessor ends, and the last
/// ends within the machine's range.
pub open spec fn contiguous(blocks: Seq<(Entry, LineBlock)>) -> bool {
    &&& forall|i: int| 0 <= i < blocks.len() ==> (#[trigger] blocks[i]).1.line_count > 0
    &&& blocks.len() > 0 ==> blocks[0].1.starting_line == 0
    &&& forall|i: int|
        0 < i < blocks.len() ==> (#[trigger] blocks[i]).1.starting_line == block_end(blocks, i - 1)
    &&& blocks.len() > 0 ==> block_end(blocks, blocks.len() - 1) <= usize::MAX
}

/// The number of lines that contiguous blocks cover.
pub open spec fn covered_lines(blocks: Seq<(Entry, LineBlock)>) -> int {
    if blocks.len() == 0 {
        0
    } else {
        block_end(blocks, blocks.len() - 1)
    }
}

/// The line counts of the first `n` blocks, added up.
pub open spec fn line_count_sum(blocks: Seq<(Entry, LineBlock)>, n: int) -> int
    decreases n,
{
    if n <= 0 {
        0
    } else {
        line_count_sum(blocks, n - 1) + blocks[n - 1].1.line_count
    }
}

/// Blocks that tile the lines end at the sum of their line counts, so the
/// lines they cover are as many as their line counts add up to.
pub proof fn lemma_covered_lines_is_sum(blocks: Seq<(Entry, LineBlock)>, n: int)
    requires
        contiguous(blocks),
        0 <= n <= blocks.len(),
    ensures
        n > 0 ==> block_end(blocks, n - 1) == line_count_sum(blocks, n),
        n == blocks.len() ==> covered_lines(blocks) == line_count_sum(blocks, n),
    decreases n,
{
    reveal_with_fuel(line_count_sum, 2);
    if n > 0 {
        lemma_covered_lines_is_sum(blocks, n - 1);
        if n > 1 {
        }
    }
}

/// Every entry takes at least one line, so line counts grow with the
/// number of entries.
pub proof fn lemma_lines_before_grows(
    live: Seq<LiveSessionView>,
    include_new_session: bool,
    i: int,
    j: int,
)
    requires
        0 <= i <= j,
    ensures
        lines_before(live, include_new_session, i) + (j - i) <= lines_before(
            live,
            include_new_session,
            j,
        ),
    decreases j - i,
{
    if i < j {
        lemma_lines_before_grows(live, include_new_session, i, j - 1);
    }
}

/// The derived entries tile the lines from 0 on without gap or overlap, one
/// entry for the new-session entry when shown and one per session, and they
/// cover exactly the lines of the list.
pub proof fn lemma_entries_contiguous(
    live: Seq<LiveSessionView>,
    dead_len: nat,
    include_new_session: bool,
)
    requires
        layout_fits_spec(live, dead_len, include_new_session),
    ensures
        entries_spec(live, dead_len, include_new_session).len() == (if include_new_session {
            1nat
        } else {
            0nat
        }) + live.len() + dead_len,
        contiguous(entries_spec(live, dead_len, include_new_session)),
        covered_lines(entries_spec(live, dead_len, include_new_session)) == total_lines_spec(
            live,
            dead_len,
            include_new_session,
        ),
{
    let blocks = entries_spec(live, dead_len, include_new_session);
    let count = entry_count_spec(live.len(), dead_len, include_new_session) as int;
    assert forall|i: int| 0 <= i < count implies {
        &&& (#[trigger] blocks[i]).1.starting_line == lines_before(live, include_new_session, i)
        &&& blocks[i].1.line_count == entry_lines(
            live,
            entry_at(live.len(), include_new_session, i),
        )
        &&& block_end(blocks, i) == lines_before(live, include_new_session, i + 1)
    } by {
        lemma_lines_before_grows(live, include_new_session, i + 1, count);
        lemma_lines_before_grows(live, include_new_session, i, i + 1);
    }
}

/// The number of entries: the new-session entry when shown, and one per
/// session. `None` when that number does not fit the machine.
pub fn entry_count(live_len: usize, dead_len: usize, include_new_session: bool) -> (count: Option<
    usize,
>)
    ensures
        match count {
            Some(n) => n == entry_count_spec(live_len as nat, dead_len as nat, include_new_session),
            None => entry_count_spec(live_len as nat, dead_len as nat, include_new_session)
                > usize::MAX,
        },
{
    let lead: usize = if include_new_session {
        1
    } else {
        0
    };
    match live_len.checked_add(dead_len) {
        Some(sessions) => sessions.checked_add(lead),
        None => None,
    }
}

/// Whether the lines of the list can be numbered in a `usize`, which the
/// functions that lay the list out require.
pub fn layout_fits(live: &Vec<LiveSession>, dead: &Vec<DeadSession>, include_new_session: bool) -> (fits:
    bool)
    ensures
        fits == layout_fits_spec(live_views(live@), dead@.len(), include_new_session),
{
    let ghost lv = live_views(live@);
    let ghost count = entry_count_spec(lv.len(), dead@.len(), include_new_session) as int;
    let lead: usize = if include_new_session {
        1
    } else {
        0
    };
    let mut line: usize = lead;
    let mut k: usize = 0;
    assert(lines_before(lv, include_new_session, lead as int) == lead) by {
        reveal_with_fuel(lines_before, 2);
    }
    while k < live.len()
        invariant
            k <= live.len(),
            lv == live_views(live@),
            lead == (if include_new_session {
                1int
            } else {
                0int
            }),
            count == entry_count_spec(lv.len(), dead@.len(), include_new_session),
            line == lines_before(lv, include_new_session, lead + k),
        decreases live.len() - k,
    {
        let titles = live[k].pane_titles();
        let block = match titles.len().checked_add(1) {
            Some(n) => n,
            None => {
                proof {
                    lemma_lines_before_grows(lv, include_new_session, lead + k + 1, count);
                }
                return false;
            },
        };
        line = match line.checked_add(block) {
            Some(n) => n,
            None => {
                proof {
                    lemma_lines_before_grows(lv, include_new_session, lead + k + 1, count);
                }
                return false;
            },
        };
        k += 1;
    }
    let mut d: usize = 0;
    while d < dead.len()
        invariant
            d <= dead.len(),
            lv == live_views(live@),
            lv.len() == live.len(),
            lead == (if include_new_session {
                1int
            } else {
                0int
            }),
            count == entry_count_spec(lv.len(), dead@.len(), include_new_session),
            line == lines_before(lv, include_new_session, lead + live.len() + d),
        decreases dead.len() - d,
    {
        line = match line.checked_add(DEAD_BLOCK_LINES) {
            Some(n) => n,
            None => {
                proof {
                    lemma_lines_before_grows(
                        lv,
                        include_new_session,
                        lead + live.len() + d + 1,
                        count,
                    );
                }
                return false;
            },
        };
        d += 1;
    }
    true
}

/// Flattens the sessions into the ordered entries with their line blocks:
/// the new-session entry first when it is shown, then the live sessions,
/// then the dead ones. The result depends on the two lists and the flag
/// alone; the blocks tile the lines from 0 on.
pub fn derive_entries(
    live: &Vec<LiveSession>,
    dead: &Vec<DeadSession>,
    include_new_session: bool,
) -> (entries: Vec<(Entry, LineBlock)>)
    requires
        layout_fits_spec(live_views(live@), dead@.len(), include_new_session),
    ensures
        entries@ == entries_spec(live_views(live@), dead@.len(), include_new_session),
        entries@.len() == (if include_new_session {
            1nat
        } else {
            0nat
        }) + live@.len() + dead@.len(),
        contiguous(entries@),
        covered_lines(entries@) == total_lines_spec(
            live_views(live@),
            dead@.len(),
            include_new_session,
        ),
{
    let ghost lv = live_views(live@);
    let ghost count = entry_count_spec(lv.len(), dead@.len(), include_new_session) as int;
    let mut entries: Vec<(Entry, LineBlock)> = Vec::new();
    let mut line: usize = 0;
    if include_new_session {
        entries.push((Entry::NewSession, LineBlock { starting_line: 0, line_count: 1 }));
        line = 1;
        assert(lines_before(lv, include_new_session, 1) == 1) by {
            reveal_with_fuel(lines_before, 2);
        }
    }
    let ghost lead: int = if include_new_session {
        1
    } else {
        0
    };
    let mut k: usize = 0;
    while k < live.len()
        invariant
            k <= live.len(),
            lv == live_views(live@),
            lead == (if include_new_session {
                1int
            } else {
                0int
            }),
            count == lead + live.len() + dead.len(),
            lines_before(lv, include_new_session, count) <= usize::MAX,
            line == lines_before(lv, include_new_session, lead + k),
            entries@.len() == lead + k,
            forall|i: int|
                0 <= i < lead + k ==> #[trigger] entries@[i] == block_at(
                    lv,
                    include_new_session,
                    i,
                ),
        decreases live.len() - k,
    {
        let titles = live[k].pane_titles();
        proof {
            lemma_lines_before_grows(lv, include_new_session, lead + k + 1, count);
        }
        let block = LineBlock { starting_line: line, line_count: 1 + titles.len() };
        entries.push((Entry::Live(k), block));
        line += block.line_count;
        k += 1;
    }
    let mut d: usize = 0;
    while d < dead.len()
        invariant
            d <= dead.len(),
            lv.len() == live.len(),
            lead == (if include_new_session {
                1int
            } else {
                0int
            }),
            count == lead + live.len() + dead.len(),
            lines_before(lv, include_new_session, count) <= usize::MAX,
            line == lines_before(lv, include_new_session, lead + live.len() + d),
            entries@.len() == lead + live.len() + d,
            forall|i: int|
                0 <= i < lead + live.len() + d ==> #[trigger] entries@[i] == block_at(
                    lv,
                    include_new_session,
                    i,
                ),
        decreases dead.len() - d,
    {
        proof {
            lemma_lines_before_grows(lv, include_new_session, lead + live.len() + d + 1, count);
        }
        let block = LineBlock { starting_line: line, line_count: DEAD_BLOCK_LINES };
        entries.push((Entry::Dead(d), block));
        line += DEAD_BLOCK_LINES;
        d += 1;
    }
    proof {
        assert(entries@ =~= entries_spec(lv, dead@.len(), include_new_session));
        lemma_entries_contiguous(lv, dead@.len(), include_new_session);
    }
    entries
}

} // verus!
