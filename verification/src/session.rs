//! The sessions the browser lists: running ones with their tabs and panes,
//! and exited ones that can still be resurrected.

use vstd::prelude::*;

verus! {

/// One pane of a tab.
#[derive(Clone, Debug, PartialEq, Eq)]
pub struct Pane {
    /// The title as the multiplexer shows it.
    pub title: String,
    /// Plugin panes are never listed.
    pub is_plugin: bool,
}

/// Mathematical model of a [`Pane`].
pub struct PaneView {
    pub title: Seq<char>,
    pub is_plugin: bool,
}

impl View for Pane {
    type V = PaneView;

    open spec fn view(&self) -> PaneView {
        PaneView { title: self.title@, is_plugin: self.is_plugin }
    }
}

/// The panes of one tab, in the order the multiplexer reports them.
#[derive(Clone, Debug, PartialEq, Eq)]
pub struct Tab {
    /// Position of the tab within its session.
    pub index: usize,
    pub panes: Vec<Pane>,
}

/// Mathematical model of a [`Tab`].
pub struct TabView {
    pub index: usize,
    pub panes: Seq<PaneView>,
}

impl View for Tab {
    type V = TabView;

    open spec fn view(&self) -> TabView {
        TabView { index: self.index, panes: pane_views(self.panes@) }
    }
}

/// A running session.
#[derive(Clone, Debug, PartialEq, Eq)]
pub struct LiveSession {
    pub name: String,
    /// Whether this is the session the browser itself runs in.
    pub is_current: bool,
    pub connected_clients: usize,
    /// The tabs in any order; pane titles are listed by ascending tab index.
    pub tabs: Vec<Tab>,
}

/// Mathematical model of a [`LiveSession`].
pub struct LiveSessionView {
    pub name: Seq<char>,
    pub is_current: bool,
    pub connected_clients: usize,
    pub tabs: Seq<TabView>,
}

impl View for LiveSession {
    type V = LiveSessionView;

    open spec fn view(&self) -> LiveSessionView {
        LiveSessionView {
            name: self.name@,
            is_current: self.is_current,
            connected_clients: self.connected_clients,
            tabs: tab_views(self.tabs@),
        }
    }
}

/// A session that has exited and can be resurrected.
#[derive(Clone, Debug, PartialEq, Eq)]
pub struct DeadSession {
    pub name: String,
    /// Whole seconds since the session exited.
    pub age_secs: u64,
}

/// Mathematical model of a [`DeadSession`].
pub struct DeadSessionView {
    pub name: Seq<char>,
    pub age_secs: u64,
}

impl View for DeadSession {
    type V = DeadSessionView;

    open spec fn view(&self) -> DeadSessionView {
        DeadSessionView { name: self.name@, age_secs: self.age_secs }
    }
}

pub open spec fn pane_views(panes: Seq<Pane>) -> Seq<PaneView> {
    panes.map_values(|p: Pane| p@)
}

pub open spec fn tab_views(tabs: Seq<Tab>) -> Seq<TabView> {
    tabs.map_values(|t: Tab| t@)
}

pub open spec fn live_views(live: Seq<LiveSession>) -> Seq<LiveSessionView> {
    live.map_values(|s: LiveSession| s@)
}

pub open spec fn dead_views(dead: Seq<DeadSession>) -> Seq<DeadSessionView> {
    dead.map_values(|s: DeadSession| s@)
}

pub open spec fn string_views(strings: Seq<String>) -> Seq<Seq<char>> {
    strings.map_values(|s: String| s@)
}

/// The titles of the panes of one tab that are not plugins, in pane order.
pub open spec fn terminal_titles(panes: Seq<PaneView>) -> Seq<Seq<char>>
    decreases panes.len(),
{
    if panes.len() == 0 {
        Seq::empty()
    } else if panes.last().is_plugin {
        terminal_titles(panes.drop_last())
    } else {
        terminal_titles(panes.drop_last()).push(panes.last().title)
    }
}

/// The titles contributed by the tabs that sit at position `index`, in list
/// order should several tabs claim the same position.
pub open spec fn titles_at(tabs: Seq<TabView>, index: nat) -> Seq<Seq<char>>
    decreases tabs.len(),
{
    if tabs.len() == 0 {
        Seq::empty()
    } else if tabs.last().index == index {
        titles_at(tabs.drop_last(), index) + terminal_titles(tabs.last().panes)
    } else {
        titles_at(tabs.drop_last(), index)
    }
}

/// The titles of all tabs at a position below `bound`, by ascending position.
pub open spec fn titles_below(tabs: Seq<TabView>, bound: nat) -> Seq<Seq<char>>
    decreases bound,
{
    if bound == 0 {
        Seq::empty()
    } else {
        titles_below(tabs, (bound - 1) as nat) + titles_at(tabs, (bound - 1) as nat)
    }
}

/// The pane titles of a session: tab positions ascending, within a tab the
/// panes in their given order, plugin panes left out.
pub open spec fn pane_titles_spec(tabs: Seq<TabView>) -> Seq<Seq<char>> {
    titles_below(tabs, usize::MAX as nat + 1)
}

/// The suffix that tells how a running session is in use.
pub open spec fn status_suffix_spec(session: LiveSessionView) -> Seq<char> {
    if session.is_current {
        " (attached)"@
    } else if session.connected_clients > 0 {
        " (connected)"@
    } else {
        ""@
    }
}

/// No tab at a position means no title from it.
proof fn lemma_titles_at_absent(tabs: Seq<TabView>, index: nat)
    requires
        forall|i: int| 0 <= i < tabs.len() ==> (#[trigger] tabs[i]).index != index,
    ensures
        titles_at(tabs, index) == Seq::<Seq<char>>::empty(),
    decreases tabs.len(),
{
    if tabs.len() > 0 {
        lemma_titles_at_absent(tabs.drop_last(), index);
    }
}

/// Positions that no tab occupies add nothing between two bounds.
proof fn lemma_titles_below_gap(tabs: Seq<TabView>, from: nat, to: nat)
    requires
        from <= to,
        forall|i: int| 0 <= i < tabs.len() ==> !(from <= (#[trigger] tabs[i]).index < to),
    ensures
        titles_below(tabs, to) == titles_below(tabs, from),
    decreases to - from,
{
    if from < to {
        lemma_titles_below_gap(tabs, from, (to - 1) as nat);
        lemma_titles_at_absent(tabs, (to - 1) as nat);
    }
}

/// The smallest position, at least `lower`, that a tab of the list sits at;
/// `None` exactly when every tab sits below `lower`.
fn next_tab_index(tabs: &Vec<Tab>, lower: usize) -> (found: Option<usize>)
    ensures
        match found {
            Some(m) => {
                &&& lower <= m
                &&& exists|i: int|
                    0 <= i < tabs.len() && (#[trigger] tab_views(tabs@)[i]).index == m
                &&& forall|i: int|
                    0 <= i < tabs.len() ==> !(lower <= (#[trigger] tab_views(tabs@)[i]).index < m)
            },
            None => forall|i: int|
                0 <= i < tabs.len() ==> (#[trigger] tab_views(tabs@)[i]).index < lower,
        },
{
    let mut found: Option<usize> = None;
    let mut k: usize = 0;
    while k < tabs.len()
        invariant
            k <= tabs.len(),
            match found {
                Some(m) => {
                    &&& lower <= m
                    &&& exists|i: int| 0 <= i < k && (#[trigger] tabs@[i]).index == m
                    &&& forall|i: int| 0 <= i < k ==> !(lower <= (#[trigger] tabs@[i]).index < m)
                },
                None => forall|i: int| 0 <= i < k ==> (#[trigger] tabs@[i]).index < lower,
            },
        decreases tabs.len() - k,
    {
        let index = tabs[k].index;
        if index >= lower {
            match found {
                Some(m) => {
                    if index < m {
                        found = Some(index);
                    }
                },
                None => {
                    found = Some(index);
                },
            }
        }
        k += 1;
    }
    proof {
        if let Some(m) = found {
            let at = choose|i: int| 0 <= i < tabs.len() && (#[trigger] tabs@[i]).index == m;
            assert(tab_views(tabs@)[at].index == m);
        }
    }
    found
}

/// Appends the titles of the panes that are not plugins.
fn append_terminal_titles(panes: &Vec<Pane>, titles: &mut Vec<String>)
    ensures
        string_views(final(titles)@) == string_views(old(titles)@) + terminal_titles(
            pane_views(panes@),
        ),
{
    let ghost before = string_views(titles@);
    let mut k: usize = 0;
    while k < panes.len()
        invariant
            k <= panes.len(),
            string_views(titles@) == before + terminal_titles(pane_views(panes@).take(k as int)),
        decreases panes.len() - k,
    {
        let ghost done = pane_views(panes@).take(k as int);
        let ghost next = pane_views(panes@).take(k + 1);
        assert(next.drop_last() =~= done);
        let ghost prior = titles@;
        if !panes[k].is_plugin {
            let title = panes[k].title.clone();
            titles.push(title);
            assert(string_views(titles@) =~= string_views(prior).push(title@));
        }
        k += 1;
    }
    assert(pane_views(panes@).take(panes.len() as int) =~= pane_views(panes@));
}

/// Appends the titles of the tabs that sit at position `index`.
fn append_titles_at(tabs: &Vec<Tab>, index: usize, titles: &mut Vec<String>)
    ensures
        string_views(final(titles)@) == string_views(old(titles)@) + titles_at(
            tab_views(tabs@),
            index as nat,
        ),
{
    let ghost before = string_views(titles@);
    let mut k: usize = 0;
    while k < tabs.len()
        invariant
            k <= tabs.len(),
            string_views(titles@) == before + titles_at(
                tab_views(tabs@).take(k as int),
                index as nat,
            ),
        decreases tabs.len() - k,
    {
        let ghost done = tab_views(tabs@).take(k as int);
        let ghost next = tab_views(tabs@).take(k + 1);
        assert(next.drop_last() =~= done);
        if tabs[k].index == index {
            append_terminal_titles(&tabs[k].panes, titles);
        }
        k += 1;
    }
    assert(tab_views(tabs@).take(tabs.len() as int) =~= tab_views(tabs@));
}

impl LiveSession {
    /// The titles of the session's panes, derived afresh on every call: tabs
    /// by ascending position, panes in their order within the tab, plugin
    /// panes left out.
    pub fn pane_titles(&self) -> (titles: Vec<String>)
        ensures
            string_views(titles@) == pane_titles_spec(self@.tabs),
    {
        let mut titles: Vec<String> = Vec::new();
        let mut lower: usize = 0;
        loop
            invariant_except_break
                string_views(titles@) == titles_below(self@.tabs, lower as nat),
            ensures
                string_views(titles@) == pane_titles_spec(self@.tabs),
            decreases usize::MAX - lower,
        {
            match next_tab_index(&self.tabs, lower) {
                None => {
                    proof {
                        lemma_titles_below_gap(self@.tabs, lower as nat, usize::MAX as nat + 1);
                    }
                    break ;
                },
                Some(m) => {
                    proof {
                        lemma_titles_below_gap(self@.tabs, lower as nat, m as nat);
                    }
                    append_titles_at(&self.tabs, m, &mut titles);
                    if m == usize::MAX {
                        break ;
                    }
                    lower = m + 1;
                },
            }
        }
        titles
    }

    /// How the session is in use, as shown after its name: attached when it
    /// hosts the browser, connected when other clients are on it.
    pub fn status_suffix(&self) -> (suffix: &'static str)
        ensures
            suffix@ == status_suffix_spec(self@),
    {
        if self.is_current {
            " (attached)"
        } else if self.connected_clients > 0 {
            " (connected)"
        } else {
            ""
        }
    }
}

} // verus!
