//! The state of the scoreboard on screen and how key presses change it.

use crate::boxscore::BoxScore;
use crate::nav::{
    cursor_after, cursor_before, tab_after, tab_before, StatefulList, TabTeam, TabsState,
};
use crate::pbp::{Play, PlayByPlay};
use crate::player::player_views;
use crate::ui::{row_views, rows_of_team, team_rows, Row, COLUMNS};
use vstd::prelude::*;

verus! {

/// The key that toggles the chart.
pub const CHART_KEY: char = 't';

/// A key of the keyboard, as far as the scoreboard tells keys apart.
#[derive(Debug, Clone, Copy, PartialEq, Eq, Structural)]
pub enum Key {
    Left,
    Right,
    Up,
    Down,
    Char(char),
    Other,
}

/// What reaches the scoreboard from outside.
#[derive(Debug, Clone, Copy, PartialEq, Eq, Structural)]
pub enum Event {
    /// A key was pressed, with or without shift held.
    Input { key: Key, shift: bool },
    Mouse,
    Tick,
}

/// What the scoreboard is asked to do.
#[derive(Debug, Clone, Copy, PartialEq, Eq, Structural)]
pub enum Command {
    Quit,
    PreviousTab,
    NextTab,
    CursorUp,
    CursorDown,
    SwitchTeam,
    Key(char),
    Tick,
    Nothing,
}

/// What the caller does after an event has been handled.
#[derive(Debug, Clone, Copy, PartialEq, Eq, Structural)]
pub enum Action {
    Continue,
    Quit,
}

/// The command that an event stands for while a game is shown. With shift
/// held, the arrows left and right and the letters `L` and `H` switch the
/// team and nothing else does anything. Without it, `q` quits, left or `l`
/// and right or `h` change the tab, up or `k` and down or `j` move the
/// cursor, and any other character is passed on as a key. The mouse does
/// nothing.
pub open spec fn command_for(event: Event) -> Command {
    match event {
        Event::Input { key, shift: true } => match key {
            Key::Left | Key::Right | Key::Char('L') | Key::Char('H') => Command::SwitchTeam,
            _ => Command::Nothing,
        },
        Event::Input { key, shift: false } => match key {
            Key::Char('q') => Command::Quit,
            Key::Left | Key::Char('l') => Command::PreviousTab,
            Key::Up | Key::Char('k') => Command::CursorUp,
            Key::Right | Key::Char('h') => Command::NextTab,
            Key::Down | Key::Char('j') => Command::CursorDown,
            Key::Char(c) => Command::Key(c),
            Key::Other => Command::Nothing,
        },
        Event::Mouse => Command::Nothing,
        Event::Tick => Command::Tick,
    }
}

/// The command that an event stands for while there is no game to show: `q`
/// quits, with or without shift, and nothing else does anything.
pub open spec fn idle_command_for(event: Event) -> Command {
    match event {
        Event::Input { key: Key::Char('q'), .. } => Command::Quit,
        _ => Command::Nothing,
    }
}

impl Event {
    /// The command that the event stands for while a game is shown.
    pub fn command(self) -> (command: Command)
        ensures
            command == command_for(self),
    {
        match self {
            Event::Input { key, shift: true } => match key {
                Key::Left | Key::Right | Key::Char('L') | Key::Char('H') => Command::SwitchTeam,
                _ => Command::Nothing,
            },
            Event::Input { key, shift: false } => match key {
                Key::Char('q') => Command::Quit,
                Key::Left | Key::Char('l') => Command::PreviousTab,
                Key::Up | Key::Char('k') => Command::CursorUp,
                Key::Right | Key::Char('h') => Command::NextTab,
                Key::Down | Key::Char('j') => Command::CursorDown,
                Key::Char(c) => Command::Key(c),
                Key::Other => Command::Nothing,
            },
            Event::Mouse => Command::Nothing,
            Event::Tick => Command::Tick,
        }
    }

    /// What to do with the event while there is no game to show.
    pub fn idle_action(self) -> (action: Action)
        ensures
            action == (if idle_command_for(self) is Quit {
                Action::Quit
            } else {
                Action::Continue
            }),
    {
        match self {
            Event::Input { key: Key::Char('q'), .. } => Action::Quit,
            _ => Action::Continue,
        }
    }
}

/// What of the scoreboard's state the commands change.
pub struct Nav {
    /// The open tab: 0 shows the game, 1 the box score.
    pub tab: usize,
    pub team: TabTeam,
    /// The play the cursor is on.
    pub cursor: Option<usize>,
    pub show_chart: bool,
}

/// The state after a command, in a scoreboard that lists `plays` plays. The
/// team is switched only while the box score tab is open, and the one key
/// that does something is the chart key.
pub open spec fn nav_after(nav: Nav, plays: nat, command: Command) -> Nav {
    match command {
        Command::PreviousTab => Nav { tab: tab_before(nav.tab), ..nav },
        Command::NextTab => Nav { tab: tab_after(nav.tab), ..nav },
        Command::CursorUp => Nav { cursor: cursor_before(nav.cursor, plays), ..nav },
        Command::CursorDown => Nav { cursor: cursor_after(nav.cursor, plays), ..nav },
        Command::SwitchTeam => if nav.tab == 1 {
            Nav { team: nav.team.other(), ..nav }
        } else {
            nav
        },
        Command::Key(c) => if c == CHART_KEY {
            Nav { show_chart: !nav.show_chart, ..nav }
        } else {
            nav
        },
        Command::Quit | Command::Tick | Command::Nothing => nav,
    }
}

/// The scoreboard of one game.
pub struct App<'a> {
    pub title: &'a str,
    pub tabs: TabsState<'a>,
    pub boxscore: BoxScore,
    pub enhanced_graphics: bool,
    pub show_chart: bool,
    pub plays: StatefulList<Play>,
}

impl<'a> App<'a> {
    /// What of the state the commands change.
    pub open spec fn nav(&self) -> Nav {
        Nav {
            tab: self.tabs.index,
            team: self.tabs.team,
            cursor: self.plays.cursor(),
            show_chart: self.show_chart,
        }
    }

    /// Whether two scoreboards show the same game under the same titles.
    pub open spec fn same_data(&self, other: &App<'a>) -> bool {
        &&& self.title == other.title
        &&& self.tabs.titles == other.tabs.titles
        &&& self.boxscore == other.boxscore
        &&& self.enhanced_graphics == other.enhanced_graphics
        &&& self.plays.items == other.plays.items
    }

    /// Whether the open tab exists and the cursor is unset or on a play.
    pub open spec fn well_formed(&self) -> bool {
        self.tabs.well_formed() && self.plays.well_formed()
    }

    /// The state after a command.
    pub open spec fn follows(&self, before: &App<'a>, command: Command) -> bool {
        &&& self.same_data(before)
        &&& self.nav() == nav_after(before.nav(), before.plays.items.len() as nat, command)
    }

    /// The scoreboard of a game as it opens: on the game tab, with the home
    /// side chosen, the chart shown and the cursor unset.
    pub fn new(
        title: &'a str,
        enhanced_graphics: bool,
        boxscore: BoxScore,
        playbyplay: PlayByPlay,
    ) -> (app: App<'a>)
        ensures
            app.title == title,
            app.enhanced_graphics == enhanced_graphics,
            app.boxscore == boxscore,
            app.plays.items == playbyplay.plays,
            app.nav() == (Nav { tab: 0, team: TabTeam::Home, cursor: None, show_chart: true }),
            app.well_formed(),
    {
        App {
            title,
            tabs: TabsState::new(["Game", "Boxscore"]),
            boxscore,
            enhanced_graphics,
            show_chart: true,
            plays: StatefulList::with_items(playbyplay.plays),
        }
    }

    /// Moves the cursor one play up.
    pub fn on_up(&mut self)
        ensures
            final(self).follows(old(self), Command::CursorUp),
            old(self).well_formed() ==> final(self).well_formed(),
    {
        self.plays.previous();
    }

    /// Moves the cursor one play down.
    pub fn on_down(&mut self)
        ensures
            final(self).follows(old(self), Command::CursorDown),
            old(self).tabs.well_formed() ==> final(self).well_formed(),
    {
        self.plays.next();
    }

    /// Opens the next tab.
    pub fn on_right(&mut self)
        ensures
            final(self).follows(old(self), Command::NextTab),
            old(self).plays.well_formed() ==> final(self).well_formed(),
    {
        self.tabs.next();
    }

    /// Chooses the other side, while the box score tab is open.
    pub fn next_team(&mut self)
        ensures
            final(self).follows(old(self), Command::SwitchTeam),
            old(self).well_formed() ==> final(self).well_formed(),
    {
        if self.tabs.index == 1 {
            self.tabs.next_team();
        }
    }

    /// Opens the tab before.
    pub fn on_left(&mut self)
        ensures
            final(self).follows(old(self), Command::PreviousTab),
            old(self).well_formed() ==> final(self).well_formed(),
    {
        self.tabs.previous();
    }

    /// Handles a character key: the chart key shows or hides the chart.
    pub fn on_key(&mut self, c: char)
        ensures
            final(self).follows(old(self), Command::Key(c)),
            old(self).well_formed() ==> final(self).well_formed(),
    {
        if c == CHART_KEY {
            self.show_chart = !self.show_chart;
        }
    }

    /// Handles a tick of the clock, which changes nothing.
    pub fn on_tick(&mut self)
        ensures
            *final(self) == *old(self),
    {
    }

    /// The identifier of the chosen side's team.
    pub fn get_current_team(&self) -> (team_id: &str)
        ensures
            team_id@ == match self.tabs.team {
                TabTeam::Home => self.boxscore.h_team.team_id@,
                TabTeam::Visitor => self.boxscore.v_team.team_id@,
            },
    {
        match self.tabs.team {
            TabTeam::Home => self.boxscore.h_team.team_id.as_str(),
            TabTeam::Visitor => self.boxscore.v_team.team_id.as_str(),
        }
    }

    /// The rows of the box score table: those of the chosen side's players,
    /// in the order of the player list.
    pub fn rows(&self) -> (rows: Vec<Row>)
        ensures
            row_views(rows@) == team_rows(
                player_views(self.boxscore.players@),
                match self.tabs.team {
                    TabTeam::Home => self.boxscore.h_team.team_id@,
                    TabTeam::Visitor => self.boxscore.v_team.team_id@,
                },
            ),
            forall|k: int| 0 <= k < rows.len() ==> (#[trigger] rows[k]).cells.len() == COLUMNS,
    {
        rows_of_team(&self.boxscore.players, self.get_current_team())
    }

    /// Carries out a command and says whether to go on.
    pub fn apply(&mut self, command: Command) -> (action: Action)
        ensures
            final(self).follows(old(self), command),
            action == (if command is Quit {
                Action::Quit
            } else {
                Action::Continue
            }),
            old(self).well_formed() ==> final(self).well_formed(),
    {
        match command {
            Command::Quit => return Action::Quit,
            Command::PreviousTab => self.on_left(),
            Command::NextTab => self.on_right(),
            Command::CursorUp => self.on_up(),
            Command::CursorDown => self.on_down(),
            Command::SwitchTeam => self.next_team(),
            Command::Key(c) => self.on_key(c),
            Command::Tick => self.on_tick(),
            Command::Nothing => {},
        }
        Action::Continue
    }

    /// Handles an event while a game is shown and says whether to go on.
    pub fn on_event(&mut self, event: Event) -> (action: Action)
        ensures
            final(self).follows(old(self), command_for(event)),
            action == (if command_for(event) is Quit {
                Action::Quit
            } else {
                Action::Continue
            }),
            old(self).well_formed() ==> final(self).well_formed(),
    {
        self.apply(event.command())
    }
}

/// Switching the team does nothing on the game tab and chooses the other
/// side on the box score tab; nothing but the chosen side ever changes.
pub proof fn lemma_switch_team(nav: Nav, plays: nat)
    ensures
        nav.tab == 0 ==> nav_after(nav, plays, Command::SwitchTeam) == nav,
        nav.tab == 1 ==> nav_after(nav, plays, Command::SwitchTeam) == (Nav {
            team: nav.team.other(),
            ..nav
        }),
        nav.tab == 1 ==> nav_after(
            nav_after(nav, plays, Command::SwitchTeam),
            plays,
            Command::SwitchTeam,
        ) == nav,
{
}

} // verus!
