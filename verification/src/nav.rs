//! Which tab is open, which side is chosen and where the cursor of a list
//! stands.

use vstd::prelude::*;

verus! {

/// The number of tabs.
pub const TAB_NUM: usize = 2;

/// The side of the game whose players the box score tab lists.
#[derive(Debug, Clone, Copy, PartialEq, Eq, Structural)]
pub enum TabTeam {
    Home,
    Visitor,
}

impl TabTeam {
    /// The other side.
    pub open spec fn other(self) -> TabTeam {
        match self {
            TabTeam::Home => TabTeam::Visitor,
            TabTeam::Visitor => TabTeam::Home,
        }
    }

    /// The position of the side among the team tabs: home first.
    pub fn position(self) -> (at: usize)
        ensures
            at == match self {
                TabTeam::Home => 0usize,
                TabTeam::Visitor => 1usize,
            },
    {
        match self {
            TabTeam::Home => 0,
            TabTeam::Visitor => 1,
        }
    }
}

/// Which tab is open and which side is chosen.
pub struct TabsState<'a> {
    pub titles: [&'a str; TAB_NUM],
    pub index: usize,
    pub team: TabTeam,
}

/// The tab after `index`, going round.
pub open spec fn tab_after(index: usize) -> usize {
    ((index + 1) % (TAB_NUM as int)) as usize
}

/// The tab before `index`, going round from the first to the last.
pub open spec fn tab_before(index: usize) -> usize {
    if index > 0 {
        (index - 1) as usize
    } else {
        (TAB_NUM - 1) as usize
    }
}

impl<'a> TabsState<'a> {
    /// Whether the open tab is one of the tabs there are.
    pub open spec fn well_formed(&self) -> bool {
        self.index < TAB_NUM
    }

    /// The first tab open and the home side chosen.
    pub fn new(titles: [&'a str; TAB_NUM]) -> (tabs: TabsState<'a>)
        ensures
            tabs.titles == titles,
            tabs.index == 0,
            tabs.team == TabTeam::Home,
            tabs.well_formed(),
    {
        TabsState { titles, index: 0, team: TabTeam::Home }
    }

    /// Opens the next tab, going round.
    pub fn next(&mut self)
        ensures
            final(self).index == tab_after(old(self).index),
            final(self).team == old(self).team,
            final(self).titles == old(self).titles,
            final(self).well_formed(),
    {
        self.index = (self.index % TAB_NUM + 1) % TAB_NUM;
    }

    /// Chooses the other side.
    pub fn next_team(&mut self)
        ensures
            final(self).team == old(self).team.other(),
            final(self).index == old(self).index,
            final(self).titles == old(self).titles,
    {
        self.team = match self.team {
            TabTeam::Home => TabTeam::Visitor,
            TabTeam::Visitor => TabTeam::Home,
        }
    }

    /// Opens the tab before, going round.
    pub fn previous(&mut self)
        ensures
            final(self).index == tab_before(old(self).index),
            final(self).team == old(self).team,
            final(self).titles == old(self).titles,
            old(self).well_formed() ==> final(self).well_formed(),
    {
        if self.index > 0 {
            self.index -= 1;
        } else {
            self.index = TAB_NUM - 1;
        }
    }
}

/// With two tabs, the next tab and the tab before are the same: the other
/// one. Going forward and back, or back and forward, returns to the start.
pub proof fn lemma_tabs_cycle(index: usize)
    requires
        index < TAB_NUM,
    ensures
        tab_after(index) == 1 - index,
        tab_before(index) == 1 - index,
        tab_before(tab_after(index)) == index,
        tab_after(tab_before(index)) == index,
{
}

/// `tui::widgets::ListState`, which a list widget draws from and scrolls
/// with.
#[verifier::external_type_specification]
#[verifier::external_body]
pub struct ExListState(tui::widgets::ListState);

/// The index that a list state has selected, if it has one: what
/// `ListState::selected` answers.
pub uninterp spec fn selection(state: tui::widgets::ListState) -> Option<usize>;

/// `ListState::default`. Believed, not proved: the new state selects
/// nothing.
pub assume_specification[ <tui::widgets::ListState as Default>::default ]() -> (state:
    tui::widgets::ListState)
    ensures
        selection(state) is None,
;

/// `ListState::selected`. Believed, not proved: it answers with the
/// selection and changes nothing.
pub assume_specification[ tui::widgets::ListState::selected ](
    state: &tui::widgets::ListState,
) -> (index: Option<usize>)
    ensures
        index == selection(*state),
;

/// `ListState::select`. Believed, not proved: afterwards the selection is the
/// index that was given, `None` included.
pub assume_specification[ tui::widgets::ListState::select ](
    state: &mut tui::widgets::ListState,
    index: Option<usize>,
)
    ensures
        selection(*final(state)) == index,
;

/// The cursor after a step forward in a list of `len` items: the first item
/// from no selection and from the last item or beyond, else the item after.
/// An empty list has nothing to select.
pub open spec fn cursor_after(cursor: Option<usize>, len: nat) -> Option<usize> {
    if len == 0 {
        None
    } else {
        match cursor {
            Some(i) => if i >= len - 1 {
                Some(0)
            } else {
                Some((i + 1) as usize)
            },
            None => Some(0),
        }
    }
}

/// The cursor after a step back in a list of `len` items: the first item
/// from no selection, the last from the first, else the item before. An
/// empty list has nothing to select.
pub open spec fn cursor_before(cursor: Option<usize>, len: nat) -> Option<usize> {
    if len == 0 {
        None
    } else {
        match cursor {
            Some(i) => if i == 0 {
                Some((len - 1) as usize)
            } else {
                Some((i - 1) as usize)
            },
            None => Some(0),
        }
    }
}

/// Whether a cursor is unset or points at one of `len` items.
pub open spec fn cursor_in_range(cursor: Option<usize>, len: nat) -> bool {
    match cursor {
        Some(i) => i < len,
        None => true,
    }
}

/// A list with a cursor.
pub struct StatefulList<T> {
    pub state: tui::widgets::ListState,
    pub items: Vec<T>,
}

impl<T> StatefulList<T> {
    /// The item the cursor is on, if it is on one.
    pub open spec fn cursor(&self) -> Option<usize> {
        selection(self.state)
    }

    /// Whether the cursor is unset or on an item of the list.
    pub open spec fn well_formed(&self) -> bool {
        cursor_in_range(self.cursor(), self.items.len() as nat)
    }

    /// A list of the items with the cursor unset.
    pub fn with_items(items: Vec<T>) -> (list: StatefulList<T>)
        ensures
            list.items == items,
            list.cursor() is None,
            list.well_formed(),
    {
        StatefulList { state: tui::widgets::ListState::default(), items }
    }

    /// The item the cursor is on, if it is on one.
    pub fn selected(&self) -> (index: Option<usize>)
        ensures
            index == self.cursor(),
    {
        self.state.selected()
    }

    /// Moves the cursor one item forward, going round at the end.
    pub fn next(&mut self)
        ensures
            final(self).cursor() == cursor_after(old(self).cursor(), old(self).items.len() as nat),
            final(self).items == old(self).items,
            final(self).well_formed(),
    {
        let len = self.items.len();
        let target = if len == 0 {
            None
        } else {
            match self.state.selected() {
                Some(i) => if i >= len - 1 {
                    Some(0)
                } else {
                    Some(i + 1)
                },
                None => Some(0),
            }
        };
        self.state.select(target);
    }

    /// Moves the cursor one item back, going round at the start.
    pub fn previous(&mut self)
        ensures
            final(self).cursor() == cursor_before(old(self).cursor(), old(self).items.len() as nat),
            final(self).items == old(self).items,
            old(self).well_formed() ==> final(self).well_formed(),
    {
        let len = self.items.len();
        let target = if len == 0 {
            None
        } else {
            match self.state.selected() {
                Some(i) => if i == 0 {
                    Some(len - 1)
                } else {
                    Some(i - 1)
                },
                None => Some(0),
            }
        };
        self.state.select(target);
    }
}

/// How the cursor of a list that is not empty goes round: a step back from
/// no selection lands on the first item, not the last; a step back from the
/// first item lands on the last; a step forward from the last lands on the
/// first.
pub proof fn lemma_cursor_wraps(len: nat)
    requires
        0 < len <= usize::MAX,
    ensures
        cursor_before(None, len) == Some(0usize),
        cursor_before(Some(0usize), len) == Some((len - 1) as usize),
        cursor_after(Some((len - 1) as usize), len) == Some(0usize),
        cursor_after(None, len) == Some(0usize),
{
}

/// A cursor that is in range stays in range under both steps.
pub proof fn lemma_cursor_stays_in_range(cursor: Option<usize>, len: nat)
    requires
        cursor_in_range(cursor, len),
    ensures
        cursor_in_range(cursor_after(cursor, len), len),
        cursor_in_range(cursor_before(cursor, len), len),
{
}

} // verus!
