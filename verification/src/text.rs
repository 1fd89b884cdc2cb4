//! Styled lines of text, and the small texts the browser composes: ages of
//! exited sessions and the list of key bindings.

use vstd::prelude::*;
use vstd::string::StringExecFns;

verus! {

/// Style of a session's name.
pub const NAME_STYLE: usize = 0;

/// Style of a sub-item line.
pub const DETAIL_STYLE: usize = 1;

/// Style of the status that follows a session's name.
pub const STATUS_STYLE: usize = 2;

/// Style of a key in the list of key bindings.
pub const KEY_STYLE: usize = 3;

/// A run of characters `[start, end)` of a line, shown in one style.
#[derive(Clone, Copy, Debug, PartialEq, Eq, Structural)]
pub struct Span {
    pub style: usize,
    pub start: usize,
    pub end: usize,
}

/// One row of text with its highlights.
#[derive(Clone, Debug, PartialEq, Eq)]
pub struct Line {
    pub text: String,
    /// Nesting depth: 0 for a header line, 1 for a sub-item.
    pub indent: usize,
    pub selected: bool,
    pub spans: Vec<Span>,
}

/// Mathematical model of a [`Line`].
pub struct LineView {
    pub text: Seq<char>,
    pub indent: usize,
    pub selected: bool,
    pub spans: Seq<Span>,
}

impl View for Line {
    type V = LineView;

    open spec fn view(&self) -> LineView {
        LineView {
            text: self.text@,
            indent: self.indent,
            selected: self.selected,
            spans: self.spans@,
        }
    }
}

pub open spec fn line_views(lines: Seq<Line>) -> Seq<LineView> {
    lines.map_values(|l: Line| l@)
}

/// A line without indent, selection or highlight.
pub open spec fn plain_line(text: Seq<char>) -> LineView {
    LineView { text, indent: 0, selected: false, spans: Seq::empty() }
}

/// The character that writes the digit `d`.
pub open spec fn digit(d: nat) -> char {
    if d == 0 {
        '0'
    } else if d == 1 {
        '1'
    } else if d == 2 {
        '2'
    } else if d == 3 {
        '3'
    } else if d == 4 {
        '4'
    } else if d == 5 {
        '5'
    } else if d == 6 {
        '6'
    } else if d == 7 {
        '7'
    } else if d == 8 {
        '8'
    } else {
        '9'
    }
}

/// The decimal numeral of `n`, without leading zeros.
pub open spec fn decimal(n: nat) -> Seq<char>
    decreases n,
{
    if n < 10 {
        seq![digit(n)]
    } else {
        decimal(n / 10).push(digit(n % 10))
    }
}

/// How long ago a session exited, in the largest unit that has begun:
/// seconds below a minute, whole minutes below an hour, whole hours below a
/// day, else whole days.
pub open spec fn format_duration_spec(secs: u64) -> Seq<char> {
    if secs < 60 {
        decimal(secs as nat) + "s ago"@
    } else if secs < 3600 {
        decimal((secs / 60) as nat) + "m ago"@
    } else if secs < 86400 {
        decimal((secs / 3600) as nat) + "h ago"@
    } else {
        decimal((secs / 86400) as nat) + "d ago"@
    }
}

/// The text of the key bindings: each key, a blank and its label, the
/// pairs two blanks apart.
pub open spec fn keyhints_text(pairs: Seq<(Seq<char>, Seq<char>)>) -> Seq<char>
    decreases pairs.len(),
{
    if pairs.len() == 0 {
        Seq::empty()
    } else if pairs.len() == 1 {
        pairs[0].0 + " "@ + pairs[0].1
    } else {
        keyhints_text(pairs.drop_last()) + "  "@ + pairs.last().0 + " "@ + pairs.last().1
    }
}

/// Where key number `i` starts in the text of the key bindings.
pub open spec fn keyhint_start(pairs: Seq<(Seq<char>, Seq<char>)>, i: int) -> int {
    if i <= 0 {
        0
    } else {
        (keyhints_text(pairs.take(i)).len() + 2) as int
    }
}

/// The highlights of the key bindings: one per pair, over its key.
pub open spec fn keyhints_spans(pairs: Seq<(Seq<char>, Seq<char>)>) -> Seq<Span> {
    Seq::new(
        pairs.len(),
        |i: int|
            Span {
                style: KEY_STYLE,
                start: keyhint_start(pairs, i) as usize,
                end: (keyhint_start(pairs, i) + pairs[i].0.len()) as usize,
            },
    )
}

/// The line of key bindings, keys highlighted and labels plain.
pub open spec fn keyhints_spec(pairs: Seq<(Seq<char>, Seq<char>)>) -> LineView {
    LineView {
        text: keyhints_text(pairs),
        indent: 0,
        selected: false,
        spans: keyhints_spans(pairs),
    }
}

pub open spec fn pair_views(pairs: Seq<(&str, &str)>) -> Seq<(Seq<char>, Seq<char>)> {
    pairs.map_values(|p: (&str, &str)| (p.0@, p.1@))
}

/// The numeral of one digit.
fn digit_str(d: u64) -> (s: &'static str)
    requires
        d < 10,
    ensures
        s@ == seq![digit(d as nat)],
{
    proof {
        reveal_strlit("0");
        reveal_strlit("1");
        reveal_strlit("2");
        reveal_strlit("3");
        reveal_strlit("4");
        reveal_strlit("5");
        reveal_strlit("6");
        reveal_strlit("7");
        reveal_strlit("8");
        reveal_strlit("9");
    }
    let s = if d == 0 {
        "0"
    } else if d == 1 {
        "1"
    } else if d == 2 {
        "2"
    } else if d == 3 {
        "3"
    } else if d == 4 {
        "4"
    } else if d == 5 {
        "5"
    } else if d == 6 {
        "6"
    } else if d == 7 {
        "7"
    } else if d == 8 {
        "8"
    } else {
        "9"
    };
    s
}

/// Appends the decimal numeral of `n`.
pub fn append_decimal(text: &mut String, n: u64)
    ensures
        final(text)@ == old(text)@ + decimal(n as nat),
    decreases n,
{
    if n >= 10 {
        append_decimal(text, n / 10);
    }
    text.append(digit_str(n % 10));
}

/// Tells how long ago a session exited: "42s ago", "2m ago", "5h ago" or
/// "3d ago", the number rounded down.
pub fn format_duration(secs: u64) -> (text: String)
    ensures
        text@ == format_duration_spec(secs),
{
    let mut text = String::new();
    if secs < 60 {
        append_decimal(&mut text, secs);
        text.append("s ago");
    } else if secs < 3600 {
        append_decimal(&mut text, secs / 60);
        text.append("m ago");
    } else if secs < 86400 {
        append_decimal(&mut text, secs / 3600);
        text.append("h ago");
    } else {
        append_decimal(&mut text, secs / 86400);
        text.append("d ago");
    }
    text
}

/// Builds the line of key bindings from (key, label) pairs, with each key
/// highlighted in the key style and each label plain.
pub fn keyhints(pairs: &[(&str, &str)]) -> (line: Line)
    ensures
        line@ == keyhints_spec(pair_views(pairs@)),
{
    let ghost model = pair_views(pairs@);
    let mut text = String::new();
    let mut spans: Vec<Span> = Vec::new();
    let mut i: usize = 0;
    while i < pairs.len()
        invariant
            i <= pairs.len(),
            model == pair_views(pairs@),
            text@ == keyhints_text(model.take(i as int)),
            spans@.len() == i,
            forall|j: int| 0 <= j < i ==> #[trigger] spans@[j] == keyhints_spans(model)[j],
        decreases pairs.len() - i,
    {
        let key = pairs[i].0;
        let label = pairs[i].1;
        let ghost done = model.take(i as int);
        let ghost next = model.take(i + 1);
        proof {
            assert(next.drop_last() =~= done);
            reveal_strlit("  ");
        }
        if i > 0 {
            text.append("  ");
        }
        let start = text.as_str().unicode_len();
        text.append(key);
        let end = text.as_str().unicode_len();
        let span = Span { style: KEY_STYLE, start, end };
        spans.push(span);
        text.append(" ");
        text.append(label);
        i += 1;
    }
    assert(model.take(pairs.len() as int) =~= model);
    let line = Line { text, indent: 0, selected: false, spans };
    assert(line@.spans =~= keyhints_spans(model));
    line
}

} // verus!
