//! The viewport: which lines of the list show in a window of fixed height,
//! scrolled so that the selected entry stays in view.

use crate::entry::{block_end, contiguous, covered_lines, Entry, LineBlock};
use vstd::prelude::*;

verus! {

/// One display line of the list, tagged with the entry that owns it.
#[derive(Clone, Copy, Debug, PartialEq, Eq, Structural)]
pub struct VisibleLine {
    /// Position of the owning entry in the entry sequence.
    pub entry_index: usize,
    pub entry: Entry,
    /// 0 for the entry's header line, `k` for its `k`-th sub-item line.
    pub line_in_block: usize,
    /// Whether the owning entry is the selected one.
    pub selected: bool,
}

impl VisibleLine {
    /// Whether this is the header line of its entry rather than a sub-item.
    pub fn is_header(&self) -> (header: bool)
        ensures
            header == (self.line_in_block == 0),
    {
        self.line_in_block == 0
    }
}

/// The block of the selected entry. A selection that points at no entry is
/// treated as one line at the top of the list.
pub open spec fn selected_block_spec(blocks: Seq<(Entry, LineBlock)>, selection: int) -> LineBlock {
    if 0 <= selection < blocks.len() {
        blocks[selection].1
    } else {
        LineBlock { starting_line: 0, line_count: 1 }
    }
}

/// The offset after bringing the selected block into view: up to the block's
/// first line when that lies above the window; down when the block reaches
/// below it, so far that its last line is the window's last, or, for a block
/// taller than the window, so far that its first line is the window's first.
pub open spec fn anchored_offset(block: LineBlock, offset: int, rows: int) -> int {
    if block.starting_line < offset {
        block.starting_line as int
    } else if block.starting_line + block.line_count > offset + rows {
        if block.line_count > rows {
            block.starting_line as int
        } else {
            block.starting_line + block.line_count - rows
        }
    } else {
        offset
    }
}

/// The offset kept within the list: 0 when everything fits the window, else
/// at most so large that the window ends with the list.
pub open spec fn clamped_offset(offset: int, total: int, rows: int) -> int {
    if total <= rows {
        0
    } else if offset > total - rows {
        total - rows
    } else {
        offset
    }
}

/// The scroll offset after one scroll computation. A window without rows
/// has nothing to anchor and leaves the offset as it was.
pub open spec fn scroll_spec(block: LineBlock, total: int, offset: int, rows: int) -> int {
    if rows == 0 {
        offset
    } else {
        clamped_offset(anchored_offset(block, offset, rows), total, rows)
    }
}

/// The lines of entry `i`, header first.
pub open spec fn block_lines(blocks: Seq<(Entry, LineBlock)>, selection: int, i: int) -> Seq<
    VisibleLine,
> {
    Seq::new(
        blocks[i].1.line_count as nat,
        |k: int|
            VisibleLine {
                entry_index: i as usize,
                entry: blocks[i].0,
                line_in_block: k as usize,
                selected: i == selection,
            },
    )
}

/// The lines of the first `n` entries, in entry order.
pub open spec fn lines_upto(blocks: Seq<(Entry, LineBlock)>, selection: int, n: int) -> Seq<
    VisibleLine,
>
    decreases n,
{
    if n <= 0 {
        Seq::empty()
    } else {
        lines_upto(blocks, selection, n - 1) + block_lines(blocks, selection, n - 1)
    }
}

/// Every line of the list, in entry order.
pub open spec fn all_lines(blocks: Seq<(Entry, LineBlock)>, selection: int) -> Seq<VisibleLine> {
    lines_upto(blocks, selection, blocks.len() as int)
}

/// The part of `lines` whose line numbers fall in `[offset, offset + rows)`.
pub open spec fn window<T>(lines: Seq<T>, offset: int, rows: int) -> Seq<T> {
    let from = if offset < lines.len() {
        offset
    } else {
        lines.len() as int
    };
    let to = if offset + rows < lines.len() {
        offset + rows
    } else {
        lines.len() as int
    };
    lines.subrange(from, to)
}

/// The lines that show in a window of `rows` rows scrolled to `offset`.
pub open spec fn visible_lines_spec(
    blocks: Seq<(Entry, LineBlock)>,
    selection: int,
    offset: int,
    rows: int,
) -> Seq<VisibleLine> {
    window(all_lines(blocks, selection), offset, rows)
}

/// The scroll offset that `compute_visible` returns.
pub open spec fn scroll_offset_spec(
    blocks: Seq<(Entry, LineBlock)>,
    selection: int,
    offset: int,
    rows: int,
) -> int {
    scroll_spec(selected_block_spec(blocks, selection), covered_lines(blocks), offset, rows)
}

/// Blocks that tile the lines end where the next begins, so a block lies
/// within the lines that the list covers.
pub proof fn lemma_block_within(blocks: Seq<(Entry, LineBlock)>, i: int)
    requires
        contiguous(blocks),
        0 <= i < blocks.len(),
    ensures
        block_end(blocks, i) <= covered_lines(blocks),
    decreases blocks.len() - i,
{
    if i + 1 < blocks.len() {
        lemma_block_within(blocks, i + 1);
    }
}

/// No block is empty, so block `i` starts at line `i` or later.
pub proof fn lemma_block_start_at_least(blocks: Seq<(Entry, LineBlock)>, i: int)
    requires
        contiguous(blocks),
        0 <= i < blocks.len(),
    ensures
        i <= blocks[i].1.starting_line,
    decreases i,
{
    if i > 0 {
        lemma_block_start_at_least(blocks, i - 1);
    }
}

/// The first `n` entries hold as many lines as lie before entry `n`.
pub proof fn lemma_lines_upto_len(blocks: Seq<(Entry, LineBlock)>, selection: int, n: int)
    requires
        contiguous(blocks),
        0 <= n <= blocks.len(),
    ensures
        lines_upto(blocks, selection, n).len() == (if n == 0 {
            0
        } else {
            block_end(blocks, n - 1)
        }),
    decreases n,
{
    if n > 0 {
        lemma_lines_upto_len(blocks, selection, n - 1);
        if n > 1 {
        }
    }
}

/// A line that belongs to the list laid out in `blocks`: it names an entry
/// of the list and one of that entry's lines, and is marked selected exactly
/// when that entry is the selected one.
pub open spec fn line_in_layout(
    blocks: Seq<(Entry, LineBlock)>,
    selection: int,
    line: VisibleLine,
) -> bool {
    &&& line.entry_index < blocks.len()
    &&& line.entry == blocks[line.entry_index as int].0
    &&& line.line_in_block < blocks[line.entry_index as int].1.line_count
    &&& line.selected == (line.entry_index == selection)
}

/// Line number `n` of the first `count` entries belongs to the entry whose
/// block holds `n`, and is the line of that block at `n`'s distance from the
/// block's start.
pub proof fn lemma_line_owner(blocks: Seq<(Entry, LineBlock)>, selection: int, count: int, n: int)
    requires
        contiguous(blocks),
        0 <= count <= blocks.len(),
        0 <= n < lines_upto(blocks, selection, count).len(),
    ensures
        ({
            let line = lines_upto(blocks, selection, count)[n];
            &&& line_in_layout(blocks, selection, line)
            &&& line.entry_index < count
            &&& blocks[line.entry_index as int].1.starting_line + line.line_in_block == n
        }),
    decreases count,
{
    if count > 0 {
        lemma_lines_upto_len(blocks, selection, count - 1);
        lemma_lines_upto_len(blocks, selection, count);
        lemma_block_within(blocks, count - 1);
        if count > 1 {
        }
        let before = lines_upto(blocks, selection, count - 1);
        if n < before.len() {
            lemma_line_owner(blocks, selection, count - 1, n);
        } else {
            lemma_block_start_at_least(blocks, count - 1);
        }
    }
}

/// Every visible line belongs to the list, and the visible lines are the
/// lines numbered from `offset` on, at most `rows` of them.
pub proof fn lemma_visible_lines_in_layout(
    blocks: Seq<(Entry, LineBlock)>,
    selection: int,
    offset: int,
    rows: int,
)
    requires
        contiguous(blocks),
        0 <= offset,
        0 <= rows,
    ensures
        visible_lines_spec(blocks, selection, offset, rows).len() <= rows,
        all_lines(blocks, selection).len() == covered_lines(blocks),
        forall|i: int|
            0 <= i < visible_lines_spec(blocks, selection, offset, rows).len() ==> {
                let line = #[trigger] visible_lines_spec(blocks, selection, offset, rows)[i];
                &&& line_in_layout(blocks, selection, line)
                &&& blocks[line.entry_index as int].1.starting_line + line.line_in_block
                    == offset + i
            },
{
    lemma_lines_upto_len(blocks, selection, blocks.len() as int);
    assert forall|i: int|
        0 <= i < visible_lines_spec(blocks, selection, offset, rows).len() implies {
        let line = #[trigger] visible_lines_spec(blocks, selection, offset, rows)[i];
        &&& line_in_layout(blocks, selection, line)
        &&& blocks[line.entry_index as int].1.starting_line + line.line_in_block == offset + i
    } by {
        lemma_line_owner(blocks, selection, blocks.len() as int, offset + i);
    }
}

/// A line appended at number `lines.len()` shows exactly when that number
/// falls in the window.
proof fn lemma_window_push<T>(lines: Seq<T>, line: T, offset: int, rows: int)
    requires
        0 <= offset,
        0 <= rows,
    ensures
        window(lines.push(line), offset, rows) == (if offset <= lines.len() < offset + rows {
            window(lines, offset, rows).push(line)
        } else {
            window(lines, offset, rows)
        }),
{
}

/// What a scroll computation establishes, whatever the offset was before:
/// the offset stays within the list; a list that fits the window is shown
/// from its top; a selected block that fits the window lies in it whole, its
/// header line included; a taller one has its first line at the window's top.
pub proof fn lemma_scroll_keeps_selection_visible(
    blocks: Seq<(Entry, LineBlock)>,
    selection: int,
    offset: int,
    rows: int,
)
    requires
        contiguous(blocks),
        0 <= offset,
        0 < rows,
    ensures
        ({
            let after = scroll_offset_spec(blocks, selection, offset, rows);
            let total = covered_lines(blocks);
            let block = selected_block_spec(blocks, selection);
            &&& 0 <= after
            &&& after <= (if total <= rows {
                0
            } else {
                total - rows
            })
            &&& total <= rows ==> after == 0
            &&& 0 <= selection < blocks.len() && block.line_count <= rows ==> after
                <= block.starting_line && block.starting_line + block.line_count <= after + rows
            &&& 0 <= selection < blocks.len() && block.line_count <= rows ==> after
                <= block.starting_line < after + rows
            &&& 0 <= selection < blocks.len() && block.line_count > rows ==> after
                == block.starting_line
        }),
{
    if 0 <= selection < blocks.len() {
        lemma_block_within(blocks, selection);
    }
}

/// Scrolling again with nothing changed leaves the offset, and with it the
/// visible lines, as the first computation set them.
pub proof fn lemma_scroll_idempotent(
    blocks: Seq<(Entry, LineBlock)>,
    selection: int,
    offset: int,
    rows: int,
)
    requires
        contiguous(blocks),
        0 <= offset,
        0 <= rows,
    ensures
        ({
            let once = scroll_offset_spec(blocks, selection, offset, rows);
            let twice = scroll_offset_spec(blocks, selection, once, rows);
            &&& twice == once
            &&& visible_lines_spec(blocks, selection, twice, rows) == visible_lines_spec(
                blocks,
                selection,
                once,
                rows,
            )
        }),
{
    if 0 <= selection < blocks.len() {
        lemma_block_within(blocks, selection);
    }
}

/// The number of lines that the entries cover.
pub fn total_lines(entries: &Vec<(Entry, LineBlock)>) -> (total: usize)
    requires
        contiguous(entries@),
    ensures
        total == covered_lines(entries@),
{
    if entries.len() == 0 {
        0
    } else {
        let last = entries[entries.len() - 1].1;
        last.starting_line + last.line_count
    }
}

/// The block of the selected entry, or one line at the top of the list when
/// the selection points at no entry.
pub fn selected_block(entries: &Vec<(Entry, LineBlock)>, selection_index: usize) -> (block:
    LineBlock)
    ensures
        block == selected_block_spec(entries@, selection_index as int),
{
    if selection_index < entries.len() {
        entries[selection_index].1
    } else {
        LineBlock { starting_line: 0, line_count: 1 }
    }
}

/// One scroll computation: brings the selected block into view and keeps
/// the offset within the list of `total` lines. A window without rows leaves
/// the offset as it was.
pub fn scroll_to_block(block: LineBlock, total: usize, scroll_offset: usize, visible_rows: usize) -> (after:
    usize)
    requires
        block.starting_line + block.line_count <= usize::MAX,
    ensures
        after == scroll_spec(block, total as int, scroll_offset as int, visible_rows as int),
{
    if visible_rows == 0 {
        return scroll_offset;
    }
    let mut offset = scroll_offset;
    if block.starting_line < offset {
        offset = block.starting_line;
    } else if block.starting_line + block.line_count - offset > visible_rows {
        if block.line_count > visible_rows {
            offset = block.starting_line;
        } else {
            offset = block.starting_line + block.line_count - visible_rows;
        }
    }
    if total <= visible_rows {
        offset = 0;
    } else if offset > total - visible_rows {
        offset = total - visible_rows;
    }
    offset
}

/// Computes the scroll offset that keeps the selected entry in view, and
/// the lines that then fall in the window, in entry order. A window without
/// rows shows no line and leaves the offset as it was.
pub fn compute_visible(
    entries: &Vec<(Entry, LineBlock)>,
    selection_index: usize,
    scroll_offset: usize,
    visible_rows: usize,
) -> (result: (usize, Vec<VisibleLine>))
    requires
        contiguous(entries@),
    ensures
        result.0 == scroll_offset_spec(
            entries@,
            selection_index as int,
            scroll_offset as int,
            visible_rows as int,
        ),
        result.1@ == visible_lines_spec(
            entries@,
            selection_index as int,
            result.0 as int,
            visible_rows as int,
        ),
        result.1@.len() <= visible_rows,
        forall|i: int|
            0 <= i < result.1@.len() ==> line_in_layout(
                entries@,
                selection_index as int,
                #[trigger] result.1@[i],
            ),
        visible_rows == 0 ==> result.0 == scroll_offset,
        visible_rows > 0 ==> result.0 <= covered_lines(entries@),
        visible_rows > 0 && covered_lines(entries@) <= visible_rows ==> result.0 == 0,
        visible_rows > 0 && covered_lines(entries@) > visible_rows ==> result.0 + visible_rows
            <= covered_lines(entries@),
        selection_index < entries@.len() && entries@[selection_index as int].1.line_count
            <= visible_rows ==> result.0 <= entries@[selection_index as int].1.starting_line
            < result.0 + visible_rows && block_end(entries@, selection_index as int) <= result.0
            + visible_rows,
        selection_index < entries@.len() && 0 < visible_rows
            < entries@[selection_index as int].1.line_count ==> result.0
            == entries@[selection_index as int].1.starting_line,
{
    let ghost blocks = entries@;
    let ghost selection = selection_index as int;
    let mut lines: Vec<VisibleLine> = Vec::new();
    if visible_rows == 0 {
        return (scroll_offset, lines);
    }
    let total = total_lines(entries);
    let block = selected_block(entries, selection_index);
    proof {
        if selection_index < entries.len() {
            lemma_block_within(blocks, selection);
        }
        lemma_scroll_keeps_selection_visible(
            blocks,
            selection,
            scroll_offset as int,
            visible_rows as int,
        );
    }
    let offset = scroll_to_block(block, total, scroll_offset, visible_rows);
    let window_end: usize = if total <= visible_rows {
        total
    } else {
        offset + visible_rows
    };
    let mut i: usize = 0;
    while i < entries.len()
        invariant
            i <= entries.len(),
            blocks == entries@,
            selection == selection_index,
            contiguous(blocks),
            total == covered_lines(blocks),
            offset <= total,
            window_end == (if offset + visible_rows < total {
                offset + visible_rows
            } else {
                total as int
            }),
            lines@ == window(lines_upto(blocks, selection, i as int), offset as int, visible_rows as int),
        decreases entries.len() - i,
    {
        let entry = entries[i].0;
        let block = entries[i].1;
        let selected = i == selection_index;
        let ghost before = lines_upto(blocks, selection, i as int);
        let ghost own = block_lines(blocks, selection, i as int);
        proof {
            lemma_lines_upto_len(blocks, selection, i as int);
            lemma_block_within(blocks, i as int);
            if i > 0 {
            }
        }
        let mut k: usize = 0;
        while k < block.line_count
            invariant
                k <= block.line_count,
                i < entries.len(),
                blocks == entries@,
                selection == selection_index,
                entry == blocks[i as int].0,
                block == blocks[i as int].1,
                selected == (i == selection),
                before == lines_upto(blocks, selection, i as int),
                own == block_lines(blocks, selection, i as int),
                before.len() == block.starting_line,
                block.starting_line + block.line_count <= total,
                offset <= total,
                window_end == (if offset + visible_rows < total {
                    offset + visible_rows
                } else {
                    total as int
                }),
                lines@ == window(before + own.take(k as int), offset as int, visible_rows as int),
            decreases block.line_count - k,
        {
            let number = block.starting_line + k;
            let line = VisibleLine { entry_index: i, entry, line_in_block: k, selected };
            proof {
                lemma_window_push(
                    before + own.take(k as int),
                    line,
                    offset as int,
                    visible_rows as int,
                );
            }
            if number >= offset && number < window_end {
                lines.push(line);
            }
            k += 1;
        }
        i += 1;
    }
    proof {
        lemma_visible_lines_in_layout(blocks, selection, offset as int, visible_rows as int);
    }
    (offset, lines)
}

} // verus!
