//! What the screen shows as text: the lines of the play list and the rows of
//! the box score table.

use crate::pbp::{period_label, Play, PlayView};
use crate::player::{player_views, plays_for, shown, stat_text, Player, PlayerView};
use crate::text::{decimal_text, number_text, text_eq, text_view, text_views};
use vstd::prelude::*;
use vstd::string::*;

verus! {

/// The width to which the cells of a statistic are filled.
pub const CELL_WIDTH: usize = 5;

/// The width of the column of names.
pub const NAME_WIDTH: usize = 15;

/// The width of the column of positions.
pub const POSITION_WIDTH: usize = 3;

/// The number of columns of the box score table.
pub const COLUMNS: usize = 22;

/// A text filled with spaces in front up to `width` characters; a text that
/// is as long or longer is left as it is.
pub open spec fn padded(text: Seq<char>, width: nat) -> Seq<char> {
    if text.len() >= width {
        text
    } else {
        Seq::new((width - text.len()) as nat, |i: int| ' ') + text
    }
}

/// Fills a text with spaces in front up to `width` characters.
pub fn pad_left(text: &str, width: usize) -> (filled: String)
    ensures
        filled@ == padded(text@, width as nat),
{
    let len = text.unicode_len();
    let mut filled = String::new();
    let mut k: usize = len;
    proof {
        reveal_strlit(" ");
    }
    while k < width
        invariant
            len <= k,
            len < width ==> k <= width,
            len >= width ==> k == len,
            filled@ == Seq::new((k - len) as nat, |i: int| ' '),
            " "@ == seq![' '],
        decreases width - k,
    {
        filled.append(" ");
        k += 1;
    }
    filled.append(text);
    filled
}

/// The line of a play in the play list: period, clock, the score with the
/// home side first, and what happened.
pub open spec fn play_line(play: PlayView) -> Seq<char> {
    period_label(play.period) + seq![' '] + play.clock + seq![' ', '|', ' '] + decimal_text(
        play.h_score as nat,
    ) + seq![' ', '-', ' '] + decimal_text(play.v_score as nat) + seq![' ', '|', ' ']
        + play.description
}

/// Writes the line of a play in the play list.
pub fn line_of_play(play: &Play) -> (line: String)
    ensures
        line@ == play_line(play@),
{
    proof {
        reveal_strlit(" ");
        reveal_strlit(" | ");
        reveal_strlit(" - ");
    }
    let mut line = String::new();
    line.append(play.period.label());
    line.append(" ");
    line.append(play.clock.as_str());
    line.append(" | ");
    line.append(number_text(play.h_score).as_str());
    line.append(" - ");
    line.append(number_text(play.v_score).as_str());
    line.append(" | ");
    line.append(play.description.as_str());
    line
}

/// The lines of a play list, one for each play and in the same order.
pub fn lines_of_plays(plays: &Vec<Play>) -> (lines: Vec<String>)
    ensures
        lines.len() == plays.len(),
        forall|i: int| 0 <= i < plays.len() ==> (#[trigger] lines[i])@ == play_line(plays[i]@),
{
    let mut lines: Vec<String> = Vec::new();
    let mut i: usize = 0;
    while i < plays.len()
        invariant
            i <= plays.len(),
            lines.len() == i,
            forall|j: int| 0 <= j < i ==> (#[trigger] lines[j])@ == play_line(plays[j]@),
        decreases plays.len() - i,
    {
        lines.push(line_of_play(&plays[i]));
        i += 1;
    }
    lines
}

/// The cell of a statistic: its text, or `0` where the feed wrote none,
/// filled to the cell width.
pub open spec fn stat_cell(stat: Option<Seq<char>>) -> Seq<char> {
    padded(shown(stat), CELL_WIDTH as nat)
}

/// The cell of a position: its text, or nothing where the feed wrote none.
pub open spec fn position_cell(pos: Option<Seq<char>>) -> Seq<char> {
    match pos {
        Some(t) => t,
        None => Seq::empty(),
    }
}

/// The cells of a player's row, one under each column of the table.
pub open spec fn row_cells(p: PlayerView) -> Seq<Seq<char>> {
    seq![
        p.first_name + seq![' '] + p.last_name,
        position_cell(p.pos),
        stat_cell(p.min),
        stat_cell(p.points),
        stat_cell(p.tot_reb),
        stat_cell(p.assists),
        stat_cell(p.steals),
        stat_cell(p.blocks),
        stat_cell(p.fgm),
        stat_cell(p.fga),
        stat_cell(p.fgp),
        stat_cell(p.tpm),
        stat_cell(p.tpa),
        stat_cell(p.tpp),
        stat_cell(p.ftm),
        stat_cell(p.fta),
        stat_cell(p.ftp),
        stat_cell(p.off_reb),
        stat_cell(p.def_reb),
        stat_cell(p.turnovers),
        stat_cell(p.p_fouls),
        stat_cell(p.plus_minus),
    ]
}

/// One row of the box score table.
#[derive(Debug, PartialEq, Eq)]
pub struct Row {
    pub cells: Vec<String>,
    /// Whether the player is on the court, which decides the row's colour.
    pub on_court: bool,
}

/// The mathematical value of a [`Row`].
pub struct RowView {
    pub cells: Seq<Seq<char>>,
    pub on_court: bool,
}

impl View for Row {
    type V = RowView;

    open spec fn view(&self) -> RowView {
        RowView { cells: text_views(self.cells@), on_court: self.on_court }
    }
}

/// The row of a player. A player counts as on the court only where the feed
/// says so.
pub open spec fn row_of(p: PlayerView) -> RowView {
    RowView { cells: row_cells(p), on_court: p.is_on_court == Some(true) }
}

/// Writes the cell of a statistic.
fn cell(stat: &Option<String>) -> (text: String)
    ensures
        text@ == stat_cell(text_view(*stat)),
{
    pad_left(stat_text(stat).as_str(), CELL_WIDTH)
}

impl Row {
    /// The row of a player in the box score table.
    pub fn of_player(player: &Player) -> (row: Row)
        ensures
            row@ == row_of(player@),
            row.cells.len() == COLUMNS,
    {
        proof {
            reveal_strlit(" ");
            assert(" "@ =~= seq![' ']);
        }
        let mut name = player.first_name.clone();
        name.append(" ");
        name.append(player.last_name.as_str());
        let pos = match &player.pos {
            Some(t) => t.clone(),
            None => String::new(),
        };
        let mut cells: Vec<String> = Vec::new();
        cells.push(name);
        cells.push(pos);
        cells.push(cell(&player.min));
        cells.push(cell(&player.points));
        cells.push(cell(&player.tot_reb));
        cells.push(cell(&player.assists));
        cells.push(cell(&player.steals));
        cells.push(cell(&player.blocks));
        cells.push(cell(&player.fgm));
        cells.push(cell(&player.fga));
        cells.push(cell(&player.fgp));
        cells.push(cell(&player.tpm));
        cells.push(cell(&player.tpa));
        cells.push(cell(&player.tpp));
        cells.push(cell(&player.ftm));
        cells.push(cell(&player.fta));
        cells.push(cell(&player.ftp));
        cells.push(cell(&player.off_reb));
        cells.push(cell(&player.def_reb));
        cells.push(cell(&player.turnovers));
        cells.push(cell(&player.p_fouls));
        cells.push(cell(&player.plus_minus));
        assert(text_views(cells@) =~= row_cells(player@));
        let on_court = match player.is_on_court {
            Some(true) => true,
            _ => false,
        };
        Row { cells, on_court }
    }
}

/// The values of a sequence of rows, one by one.
pub open spec fn row_views(rows: Seq<Row>) -> Seq<RowView> {
    Seq::new(rows.len(), |i: int| rows[i]@)
}

/// The rows of the table for one team: a row for each of its players, in
/// the order of the player list.
pub open spec fn team_rows(players: Seq<PlayerView>, team_id: Seq<char>) -> Seq<RowView> {
    players.filter(|p: PlayerView| plays_for(p, team_id)).map_values(|p: PlayerView| row_of(p))
}

/// Writes the rows of the table for one team.
pub fn rows_of_team(players: &Vec<Player>, team_id: &str) -> (rows: Vec<Row>)
    ensures
        row_views(rows@) == team_rows(player_views(players@), team_id@),
        forall|k: int| 0 <= k < rows.len() ==> (#[trigger] rows[k]).cells.len() == COLUMNS,
{
    let ghost all = player_views(players@);
    let ghost wanted = |p: PlayerView| plays_for(p, team_id@);
    let ghost row = |p: PlayerView| row_of(p);
    let mut rows: Vec<Row> = Vec::new();
    let mut i: usize = 0;
    while i < players.len()
        invariant
            i <= players.len(),
            all == player_views(players@),
            wanted == |p: PlayerView| plays_for(p, team_id@),
            row == |p: PlayerView| row_of(p),
            row_views(rows@) == all.take(i as int).filter(wanted).map_values(row),
            forall|k: int| 0 <= k < rows.len() ==> (#[trigger] rows[k]).cells.len() == COLUMNS,
        decreases players.len() - i,
    {
        let player = &players[i];
        proof {
            reveal(Seq::filter);
            assert(all.take(i + 1).drop_last() =~= all.take(i as int));
        }
        let listed = match &player.team_id {
            Some(id) => text_eq(id.as_str(), team_id),
            None => false,
        };
        if listed {
            rows.push(Row::of_player(player));
            assert(all.take(i + 1).filter(wanted).map_values(row) =~= all.take(i as int).filter(
                wanted,
            ).map_values(row).push(row_of(player@)));
        }
        i += 1;
    }
    proof {
        assert(all.take(all.len() as int) =~= all);
    }
    rows
}

/// The titles of the table's columns, from left to right.
pub open spec fn column_titles() -> Seq<Seq<char>> {
    seq![
        "Player"@,
        "P"@,
        "Min"@,
        "Pts"@,
        "Reb"@,
        "Ast"@,
        "Stl"@,
        "Blk"@,
        "FGM"@,
        "FGA"@,
        "FG%"@,
        "3PM"@,
        "3PA"@,
        "3P%"@,
        "FTM"@,
        "FTA"@,
        "FT%"@,
        "OREB"@,
        "DREB"@,
        "TOV"@,
        "PF"@,
        "+/-"@,
    ]
}

/// The titles of the table's columns.
pub fn headers() -> (titles: [&'static str; COLUMNS])
    ensures
        titles@.len() == column_titles().len(),
        forall|i: int| 0 <= i < COLUMNS ==> (#[trigger] titles@[i])@ == column_titles()[i],
{
    [
        "Player", "P", "Min", "Pts", "Reb", "Ast", "Stl", "Blk", "FGM", "FGA", "FG%", "3PM",
        "3PA", "3P%", "FTM", "FTA", "FT%", "OREB", "DREB", "TOV", "PF", "+/-",
    ]
}

/// The width of column `column` of the table: the names are widest, the
/// positions narrowest, and every statistic has the cell width.
pub fn column_width(column: usize) -> (width: usize)
    ensures
        width == if column == 0 {
            NAME_WIDTH
        } else if column == 1 {
            POSITION_WIDTH
        } else {
            CELL_WIDTH
        },
{
    if column == 0 {
        NAME_WIDTH
    } else if column == 1 {
        POSITION_WIDTH
    } else {
        CELL_WIDTH
    }
}

} // verus!
