//! The box score of one game: the two teams and the players.

use crate::error::DecodeError;
use crate::json::{document_of, views, Json, JsonValue};
use crate::player::{
    decode_players, lemma_no_stats, lemma_team_players_are_listed, no_stats, player_views,
    players_of, players_ok, roster_items, roster_ok, team_players, without_stats, Player,
    PlayerView,
};
use crate::text::{parse_u8_or_zero, u8_or_zero};
use crate::totals::{
    leaders_of, leaders_ok, totals_of, totals_ok, zero_totals, Leaders, LeadersView, Totals,
    TotalsView,
};
use crate::period::{period_at_ok, period_of, Period};
use vstd::prelude::*;

verus! {

/// The number of quarters a line score has a slot for.
pub const QUARTERS: usize = 4;

/// One side of a game as the box score reports it.
#[derive(Debug, PartialEq, Eq)]
pub struct Team {
    pub team_id: String,
    pub tri_code: String,
    pub win: u8,
    pub loss: u8,
    pub score: u8,
    /// The points of each quarter; a quarter not yet played counts zero.
    pub linescore: [u8; 4],
    /// The side's statistics; all zero until the feed reports them.
    pub totals: Totals,
    pub leaders: Option<Leaders>,
}

/// The mathematical value of a [`Team`].
pub struct TeamView {
    pub team_id: Seq<char>,
    pub tri_code: Seq<char>,
    pub win: u8,
    pub loss: u8,
    pub score: u8,
    pub linescore: Seq<u8>,
    pub totals: TotalsView,
    pub leaders: Option<LeadersView>,
}

/// The value of leaders that may be absent.
pub open spec fn leaders_view(leaders: Option<Leaders>) -> Option<LeadersView> {
    match leaders {
        Some(l) => Some(l@),
        None => None,
    }
}

impl View for Team {
    type V = TeamView;

    open spec fn view(&self) -> TeamView {
        TeamView {
            team_id: self.team_id@,
            tri_code: self.tri_code@,
            win: self.win,
            loss: self.loss,
            score: self.score,
            linescore: self.linescore@,
            totals: self.totals@,
            leaders: leaders_view(self.leaders),
        }
    }
}

/// The points of one quarter, as the text the feed wrote.
#[derive(Debug, PartialEq, Eq)]
pub struct Score {
    pub score: String,
}

impl View for Score {
    type V = Seq<char>;

    open spec fn view(&self) -> Seq<char> {
        self.score@
    }
}

/// Whether a value has the shape of a quarter's score: a text `score`.
pub open spec fn score_ok(j: JsonValue) -> bool {
    j.text_at("score"@) is Some
}

/// The text of a quarter's score.
pub open spec fn score_of(j: JsonValue) -> Seq<char> {
    j.text_at("score"@)->0
}

impl Score {
    /// Decodes the score of one quarter.
    pub fn from_json(json: &Json) -> (score: Result<Score, DecodeError>)
        ensures
            match score {
                Ok(s) => score_ok(json@) && s@ == score_of(json@),
                Err(e) => e == DecodeError::Shape && !score_ok(json@),
            },
    {
        Ok(Score { score: json.text_at("score")? })
    }
}

/// Whether every entry of a line score has the shape of a quarter's score.
pub open spec fn line_scores_ok(entries: Seq<JsonValue>) -> bool {
    forall|i: int| 0 <= i < entries.len() ==> score_ok(#[trigger] entries[i])
}

/// The points of quarter `k` (counted from zero): what entry `k` of the line
/// score writes, read leniently, and zero where the line score is shorter.
pub open spec fn quarter_points(entries: Seq<JsonValue>, k: int) -> u8 {
    if 0 <= k < entries.len() {
        u8_or_zero(score_of(entries[k]))
    } else {
        0
    }
}

/// The four slots of a line score.
pub open spec fn line_score_of(entries: Seq<JsonValue>) -> Seq<u8> {
    Seq::new(QUARTERS as nat, |k: int| quarter_points(entries, k))
}

/// Whether a value has the shape of a team: texts `teamId`, `triCode`, `win`,
/// `loss` and `score`, and an array `linescore` of quarter scores.
pub open spec fn team_ok(j: JsonValue) -> bool {
    &&& j.text_at("teamId"@) is Some
    &&& j.text_at("triCode"@) is Some
    &&& j.text_at("win"@) is Some
    &&& j.text_at("loss"@) is Some
    &&& j.text_at("score"@) is Some
    &&& j.items_at("linescore"@) is Some
    &&& line_scores_ok(j.items_at("linescore"@)->0)
}

/// The team that a value of that shape describes. Its totals are all zero
/// and it has no leaders: those come from the statistics section.
pub open spec fn team_of(j: JsonValue) -> TeamView {
    TeamView {
        team_id: j.text_at("teamId"@)->0,
        tri_code: j.text_at("triCode"@)->0,
        win: u8_or_zero(j.text_at("win"@)->0),
        loss: u8_or_zero(j.text_at("loss"@)->0),
        score: u8_or_zero(j.text_at("score"@)->0),
        linescore: line_score_of(j.items_at("linescore"@)->0),
        totals: zero_totals(),
        leaders: None,
    }
}

/// Whether `j` has a member `key` with the shape of a team.
pub open spec fn team_at_ok(j: JsonValue, key: Seq<char>) -> bool {
    j.member(key) matches Some(t) && team_ok(t)
}

/// Whether a value has the shape of a side's statistics: a text
/// `longestRun`; where present and not `null`, totals under `totals` and
/// leaders under `leaders`.
pub open spec fn team_stats_ok(j: JsonValue) -> bool {
    &&& j.text_at("longestRun"@) is Some
    &&& j.present("totals"@) matches Some(t) ==> totals_ok(t)
    &&& j.present("leaders"@) matches Some(l) ==> leaders_ok(l)
}

/// Whether `j` has a member `key` with the shape of a side's statistics.
pub open spec fn team_stats_at_ok(j: JsonValue, key: Seq<char>) -> bool {
    j.member(key) matches Some(t) && team_stats_ok(t)
}

/// A team with the totals and leaders that its statistics report: zero
/// totals where they report none, and no leaders where they name none.
pub open spec fn with_stats(team: TeamView, stats: JsonValue) -> TeamView {
    TeamView {
        team_id: team.team_id,
        tri_code: team.tri_code,
        win: team.win,
        loss: team.loss,
        score: team.score,
        linescore: team.linescore,
        totals: match stats.present("totals"@) {
            Some(t) => totals_of(t),
            None => zero_totals(),
        },
        leaders: match stats.present("leaders"@) {
            Some(l) => Some(leaders_of(l)),
            None => None,
        },
    }
}

/// Checks the entries of a line score.
fn check_line_scores(entries: &Vec<Json>) -> (ok: bool)
    ensures
        ok == line_scores_ok(views(entries@)),
{
    let mut i: usize = 0;
    while i < entries.len()
        invariant
            i <= entries.len(),
            forall|j: int| 0 <= j < i ==> score_ok(#[trigger] views(entries@)[j]),
        decreases entries.len() - i,
    {
        match Score::from_json(&entries[i]) {
            Ok(_) => {},
            Err(_) => {
                assert(views(entries@)[i as int] == entries[i as int]@);
                return false;
            },
        }
        i += 1;
    }
    true
}

/// Reads quarter `k` of a line score whose entries have been checked.
fn read_quarter(entries: &Vec<Json>, k: usize) -> (points: u8)
    requires
        line_scores_ok(views(entries@)),
    ensures
        points == quarter_points(views(entries@), k as int),
{
    if k < entries.len() {
        match Score::from_json(&entries[k]) {
            Ok(quarter) => parse_u8_or_zero(quarter.score.as_str()),
            Err(_) => 0,
        }
    } else {
        0
    }
}

impl Team {
    /// Decodes one team of a box score.
    pub fn from_json(json: &Json) -> (team: Result<Team, DecodeError>)
        ensures
            match team {
                Ok(t) => team_ok(json@) && t@ == team_of(json@),
                Err(e) => e == DecodeError::Shape && !team_ok(json@),
            },
    {
        let team_id = json.text_at("teamId")?;
        let tri_code = json.text_at("triCode")?;
        let win = json.text_at("win")?;
        let loss = json.text_at("loss")?;
        let score = json.text_at("score")?;
        let entries = json.items_at("linescore")?;
        if !check_line_scores(entries) {
            return Err(DecodeError::Shape);
        }
        let linescore = [
            read_quarter(entries, 0),
            read_quarter(entries, 1),
            read_quarter(entries, 2),
            read_quarter(entries, 3),
        ];
        assert(linescore@ =~= line_score_of(views(entries@)));
        Ok(
            Team {
                team_id,
                tri_code,
                win: parse_u8_or_zero(win.as_str()),
                loss: parse_u8_or_zero(loss.as_str()),
                score: parse_u8_or_zero(score.as_str()),
                linescore,
                totals: Totals::zero(),
                leaders: None,
            },
        )
    }

    /// Decodes the team stored under `key`.
    pub fn at(json: &Json, key: &str) -> (team: Result<Team, DecodeError>)
        ensures
            match team {
                Ok(t) => team_at_ok(json@, key@) && t@ == team_of(json@.member(key@)->0),
                Err(e) => e == DecodeError::Shape && !team_at_ok(json@, key@),
            },
    {
        match json.get(key) {
            Some(t) => Team::from_json(t),
            None => Err(DecodeError::Shape),
        }
    }

    /// Gives the team the totals and leaders that its statistics report.
    pub fn with_stats(self, stats: &Json) -> (team: Result<Team, DecodeError>)
        ensures
            match team {
                Ok(t) => team_stats_ok(stats@) && t@ == with_stats(self@, stats@),
                Err(e) => e == DecodeError::Shape && !team_stats_ok(stats@),
            },
    {
        let _run = stats.text_at("longestRun")?;
        let totals = match stats.get_present("totals") {
            Some(t) => Totals::from_json(t)?,
            None => Totals::zero(),
        };
        let leaders = match stats.get_present("leaders") {
            Some(l) => Some(Leaders::from_json(l)?),
            None => None,
        };
        Ok(
            Team {
                team_id: self.team_id,
                tri_code: self.tri_code,
                win: self.win,
                loss: self.loss,
                score: self.score,
                linescore: self.linescore,
                totals,
                leaders,
            },
        )
    }
}

/// Where a game stands in a playoff series.
#[derive(Debug, PartialEq, Eq)]
pub struct Playoffs {
    pub round_num: String,
    pub conf_name: String,
    pub series_id: String,
    pub completed: bool,
    pub num_in_series: String,
    pub if_necessary: bool,
    pub v_team_seed: u8,
    pub h_team_seed: u8,
}

/// The mathematical value of a [`Playoffs`].
pub struct PlayoffsView {
    pub round_num: Seq<char>,
    pub conf_name: Seq<char>,
    pub series_id: Seq<char>,
    pub completed: bool,
    pub num_in_series: Seq<char>,
    pub if_necessary: bool,
    pub v_team_seed: u8,
    pub h_team_seed: u8,
}

impl View for Playoffs {
    type V = PlayoffsView;

    open spec fn view(&self) -> PlayoffsView {
        PlayoffsView {
            round_num: self.round_num@,
            conf_name: self.conf_name@,
            series_id: self.series_id@,
            completed: self.completed,
            num_in_series: self.num_in_series@,
            if_necessary: self.if_necessary,
            v_team_seed: self.v_team_seed,
            h_team_seed: self.h_team_seed,
        }
    }
}

/// The value of playoffs that may be absent.
pub open spec fn playoffs_view(playoffs: Option<Playoffs>) -> Option<PlayoffsView> {
    match playoffs {
        Some(p) => Some(p@),
        None => None,
    }
}

/// The text `seedNum` of the side stored under `key`.
pub open spec fn seed_text(j: JsonValue, key: Seq<char>) -> Option<Seq<char>> {
    match j.member(key) {
        Some(side) => side.text_at("seedNum"@),
        None => None,
    }
}

/// Whether a value has the shape of a playoffs record: texts `roundNum`,
/// `confName`, `seriesId` and `gameNumInSeries`, booleans
/// `isSeriesCompleted` and `isIfNecessary`, and under `vTeam` and `hTeam` a
/// side with a text `seedNum`.
pub open spec fn playoffs_ok(j: JsonValue) -> bool {
    &&& j.text_at("roundNum"@) is Some
    &&& j.text_at("confName"@) is Some
    &&& j.text_at("seriesId"@) is Some
    &&& j.bool_at("isSeriesCompleted"@) is Some
    &&& j.text_at("gameNumInSeries"@) is Some
    &&& j.bool_at("isIfNecessary"@) is Some
    &&& seed_text(j, "vTeam"@) is Some
    &&& seed_text(j, "hTeam"@) is Some
}

/// The playoffs record that a value of that shape holds; the seeds are read
/// leniently.
pub open spec fn playoffs_of(j: JsonValue) -> PlayoffsView {
    PlayoffsView {
        round_num: j.text_at("roundNum"@)->0,
        conf_name: j.text_at("confName"@)->0,
        series_id: j.text_at("seriesId"@)->0,
        completed: j.bool_at("isSeriesCompleted"@)->0,
        num_in_series: j.text_at("gameNumInSeries"@)->0,
        if_necessary: j.bool_at("isIfNecessary"@)->0,
        v_team_seed: u8_or_zero(seed_text(j, "vTeam"@)->0),
        h_team_seed: u8_or_zero(seed_text(j, "hTeam"@)->0),
    }
}

/// Reads the text `seedNum` of the side stored under `key`.
fn read_seed(json: &Json, key: &str) -> (seed: Result<String, DecodeError>)
    ensures
        match seed {
            Ok(s) => seed_text(json@, key@) == Some(s@),
            Err(e) => e == DecodeError::Shape && seed_text(json@, key@) is None,
        },
{
    match json.get(key) {
        Some(side) => side.text_at("seedNum"),
        None => Err(DecodeError::Shape),
    }
}

impl Playoffs {
    /// Decodes a playoffs record.
    pub fn from_json(json: &Json) -> (playoffs: Result<Playoffs, DecodeError>)
        ensures
            match playoffs {
                Ok(p) => playoffs_ok(json@) && p@ == playoffs_of(json@),
                Err(e) => e == DecodeError::Shape && !playoffs_ok(json@),
            },
    {
        let round_num = json.text_at("roundNum")?;
        let conf_name = json.text_at("confName")?;
        let series_id = json.text_at("seriesId")?;
        let completed = json.bool_at("isSeriesCompleted")?;
        let num_in_series = json.text_at("gameNumInSeries")?;
        let if_necessary = json.bool_at("isIfNecessary")?;
        let v_seed = read_seed(json, "vTeam")?;
        let h_seed = read_seed(json, "hTeam")?;
        Ok(
            Playoffs {
                round_num,
                conf_name,
                series_id,
                completed,
                num_in_series,
                if_necessary,
                v_team_seed: parse_u8_or_zero(v_seed.as_str()),
                h_team_seed: parse_u8_or_zero(h_seed.as_str()),
            },
        )
    }
}

/// The box score of a game: both sides and every player.
#[derive(Debug, PartialEq, Eq)]
pub struct BoxScore {
    pub players: Vec<Player>,
    pub v_team: Team,
    pub h_team: Team,
    pub clock: String,
    pub period: Period,
    pub playoffs: Option<Playoffs>,
}

/// The mathematical value of a [`BoxScore`].
pub struct BoxScoreView {
    pub players: Seq<PlayerView>,
    pub v_team: TeamView,
    pub h_team: TeamView,
    pub clock: Seq<char>,
    pub period: Period,
    pub playoffs: Option<PlayoffsView>,
}

impl View for BoxScore {
    type V = BoxScoreView;

    open spec fn view(&self) -> BoxScoreView {
        BoxScoreView {
            players: player_views(self.players@),
            v_team: self.v_team@,
            h_team: self.h_team@,
            clock: self.clock@,
            period: self.period,
            playoffs: playoffs_view(self.playoffs),
        }
    }
}

/// Whether a value has the shape of the basic game data: a text `clock`, a
/// period record `period`, teams `vTeam` and `hTeam`, and, where present and
/// not `null`, a playoffs record `playoffs`.
pub open spec fn basic_ok(b: JsonValue) -> bool {
    &&& b.text_at("clock"@) is Some
    &&& b.present("playoffs"@) matches Some(p) ==> playoffs_ok(p)
    &&& period_at_ok(b, "period"@)
    &&& team_at_ok(b, "vTeam"@)
    &&& team_at_ok(b, "hTeam"@)
}

/// Whether a value has the shape of the statistics section: texts
/// `timesTied` and `leadChanges`, the statistics of both sides under `vTeam`
/// and `hTeam`, and an array `activePlayers` of players.
pub open spec fn stats_ok(s: JsonValue) -> bool {
    &&& s.text_at("timesTied"@) is Some
    &&& s.text_at("leadChanges"@) is Some
    &&& team_stats_at_ok(s, "vTeam"@)
    &&& team_stats_at_ok(s, "hTeam"@)
    &&& s.items_at("activePlayers"@) is Some
    &&& players_ok(s.items_at("activePlayers"@)->0)
}

/// Whether a document has the shape of a box score: the basic game data
/// under `basicGameData` and, where present and not `null`, the statistics
/// section under `stats`.
pub open spec fn box_score_ok(doc: JsonValue) -> bool {
    &&& doc.member("basicGameData"@) matches Some(b) && basic_ok(b)
    &&& doc.present("stats"@) matches Some(s) ==> stats_ok(s)
}

/// Whether a box score brings its own statistics section.
pub open spec fn has_stats(doc: JsonValue) -> bool {
    doc.present("stats"@) is Some
}

/// The identifier of the home team of a box score document.
pub open spec fn home_id(doc: JsonValue) -> Seq<char> {
    team_of(doc.member("basicGameData"@)->0.member("hTeam"@)->0).team_id
}

/// The identifier of the visiting team of a box score document.
pub open spec fn visitor_id(doc: JsonValue) -> Seq<char> {
    team_of(doc.member("basicGameData"@)->0.member("vTeam"@)->0).team_id
}

/// The players taken from the league roster for a box score without
/// statistics: those of the home team, then those of the visitors.
pub open spec fn fallback_players(doc: JsonValue, roster: JsonValue) -> Seq<PlayerView> {
    let league = players_of(roster_items(roster)->0);
    team_players(league, home_id(doc)) + team_players(league, visitor_id(doc))
}

/// The box score that a document of that shape describes. With a statistics
/// section the players are its active players and each side has what the
/// section reports of it; without one the players are `fallback`.
pub open spec fn box_score_of(doc: JsonValue, fallback: Seq<PlayerView>) -> BoxScoreView {
    let b = doc.member("basicGameData"@)->0;
    let v_team = team_of(b.member("vTeam"@)->0);
    let h_team = team_of(b.member("hTeam"@)->0);
    BoxScoreView {
        players: match doc.present("stats"@) {
            Some(s) => players_of(s.items_at("activePlayers"@)->0),
            None => fallback,
        },
        v_team: match doc.present("stats"@) {
            Some(s) => with_stats(v_team, s.member("vTeam"@)->0),
            None => v_team,
        },
        h_team: match doc.present("stats"@) {
            Some(s) => with_stats(h_team, s.member("hTeam"@)->0),
            None => h_team,
        },
        clock: b.text_at("clock"@)->0,
        period: period_of(b.member("period"@)->0),
        playoffs: match b.present("playoffs"@) {
            Some(p) => Some(playoffs_of(p)),
            None => None,
        },
    }
}

/// What decoding a box score document gives, with the roster document at
/// hand if there is one. A document of the wrong shape is refused first;
/// the roster is looked at only where the statistics section is missing.
pub open spec fn box_score_result(doc: JsonValue, roster: Option<JsonValue>) -> Result<
    BoxScoreView,
    DecodeError,
> {
    if !box_score_ok(doc) {
        Err(DecodeError::Shape)
    } else if has_stats(doc) {
        Ok(box_score_of(doc, Seq::empty()))
    } else {
        match roster {
            None => Err(DecodeError::RosterRequired),
            Some(r) => if roster_ok(r) {
                Ok(box_score_of(doc, fallback_players(doc, r)))
            } else {
                Err(DecodeError::Shape)
            },
        }
    }
}

/// What decoding a box score text gives, with the roster text at hand if
/// there is one.
pub open spec fn box_score_text_result(payload: Seq<char>, roster: Option<Seq<char>>) -> Result<
    BoxScoreView,
    DecodeError,
> {
    match document_of(payload) {
        None => Err(DecodeError::Syntax),
        Some(doc) => match roster {
            Some(text) if box_score_ok(doc) && !has_stats(doc) => match document_of(text) {
                None => Err(DecodeError::Syntax),
                Some(r) => box_score_result(doc, Some(r)),
            },
            _ => box_score_result(doc, None),
        },
    }
}

/// Whether an outcome is the expected one: the same error, or a box score
/// with the expected value.
pub open spec fn is_box_score(
    outcome: Result<BoxScore, DecodeError>,
    expected: Result<BoxScoreView, DecodeError>,
) -> bool {
    match outcome {
        Ok(b) => expected == Ok::<BoxScoreView, DecodeError>(b@),
        Err(e) => expected == Err::<BoxScoreView, DecodeError>(e),
    }
}

/// The value of a document that may be absent.
pub open spec fn document_view(doc: Option<&Json>) -> Option<JsonValue> {
    match doc {
        Some(d) => Some(d@),
        None => None,
    }
}

/// The characters of a text that may be absent.
pub open spec fn str_view(text: Option<&str>) -> Option<Seq<char>> {
    match text {
        Some(t) => Some(t@),
        None => None,
    }
}

/// The basic game data of a box score, decoded.
struct Basic {
    v_team: Team,
    h_team: Team,
    clock: String,
    period: Period,
    playoffs: Option<Playoffs>,
}

/// Decodes the basic game data.
fn decode_basic(b: &Json) -> (basic: Result<Basic, DecodeError>)
    ensures
        match basic {
            Ok(x) => {
                &&& basic_ok(b@)
                &&& x.v_team@ == team_of(b@.member("vTeam"@)->0)
                &&& x.h_team@ == team_of(b@.member("hTeam"@)->0)
                &&& x.clock@ == b@.text_at("clock"@)->0
                &&& x.period == period_of(b@.member("period"@)->0)
                &&& playoffs_view(x.playoffs) == match b@.present("playoffs"@) {
                    Some(p) => Some(playoffs_of(p)),
                    None => None,
                }
            },
            Err(e) => e == DecodeError::Shape && !basic_ok(b@),
        },
{
    let clock = b.text_at("clock")?;
    let playoffs = match b.get_present("playoffs") {
        Some(p) => Some(Playoffs::from_json(p)?),
        None => None,
    };
    let period = Period::at(b, "period")?;
    let v_team = Team::at(b, "vTeam")?;
    let h_team = Team::at(b, "hTeam")?;
    Ok(Basic { v_team, h_team, clock, period, playoffs })
}

impl BoxScore {
    /// Decodes a box score document. Where it has no statistics section the
    /// players come from `roster`: those of the home team, then those of the
    /// visitors.
    pub fn from_json(doc: &Json, roster: Option<&Json>) -> (outcome: Result<BoxScore, DecodeError>)
        ensures
            is_box_score(outcome, box_score_result(doc@, document_view(roster))),
    {
        let basic = match doc.get("basicGameData") {
            Some(b) => decode_basic(b)?,
            None => return Err(DecodeError::Shape),
        };
        match doc.get_present("stats") {
            Some(s) => {
                let _tied = s.text_at("timesTied")?;
                let _changes = s.text_at("leadChanges")?;
                let v_stats = match s.get("vTeam") {
                    Some(t) => t,
                    None => return Err(DecodeError::Shape),
                };
                let v_team = basic.v_team.with_stats(v_stats)?;
                let h_stats = match s.get("hTeam") {
                    Some(t) => t,
                    None => return Err(DecodeError::Shape),
                };
                let h_team = basic.h_team.with_stats(h_stats)?;
                let items = s.items_at("activePlayers")?;
                let players = decode_players(items)?;
                Ok(
                    BoxScore {
                        players,
                        v_team,
                        h_team,
                        clock: basic.clock,
                        period: basic.period,
                        playoffs: basic.playoffs,
                    },
                )
            },
            None => {
                let roster = match roster {
                    Some(r) => r,
                    None => return Err(DecodeError::RosterRequired),
                };
                let mut players = Player::from_team_id(roster, basic.h_team.team_id.as_str())?;
                let mut visitors = Player::from_team_id(roster, basic.v_team.team_id.as_str())?;
                let ghost home = players@;
                let ghost away = visitors@;
                players.append(&mut visitors);
                assert(player_views(players@) =~= player_views(home) + player_views(away));
                Ok(
                    BoxScore {
                        players,
                        v_team: basic.v_team,
                        h_team: basic.h_team,
                        clock: basic.clock,
                        period: basic.period,
                        playoffs: basic.playoffs,
                    },
                )
            },
        }
    }

    /// Decodes a box score text, with the text of the league roster if it has
    /// been fetched. The roster is parsed only where it is needed.
    pub fn new(payload: &str, roster: Option<&str>) -> (outcome: Result<BoxScore, DecodeError>)
        ensures
            is_box_score(outcome, box_score_text_result(payload@, str_view(roster))),
    {
        let doc = Json::parse(payload)?;
        match BoxScore::from_json(&doc, None) {
            Err(DecodeError::RosterRequired) => match roster {
                Some(text) => {
                    let league = Json::parse(text)?;
                    BoxScore::from_json(&doc, Some(&league))
                },
                None => Err(DecodeError::RosterRequired),
            },
            outcome => outcome,
        }
    }
}

/// A box score without a statistics section takes its players from the
/// roster: those the roster lists for the home team, in roster order, and
/// after them those it lists for the visitors.
pub proof fn lemma_fallback_players(doc: JsonValue, roster: JsonValue)
    requires
        box_score_ok(doc),
        !has_stats(doc),
        roster_ok(roster),
    ensures
        box_score_result(doc, Some(roster)) is Ok,
        box_score_result(doc, Some(roster))->Ok_0.players == team_players(
            players_of(roster_items(roster)->0),
            home_id(doc),
        ) + team_players(players_of(roster_items(roster)->0), visitor_id(doc)),
{
}

/// Where no entry of the roster writes a statistic, every player that a box
/// score takes from it is without statistics: each of them shows `0` and
/// counts zero.
pub proof fn lemma_fallback_statistics(doc: JsonValue, roster: JsonValue)
    requires
        box_score_ok(doc),
        !has_stats(doc),
        roster_ok(roster),
        forall|m: int|
            0 <= m < roster_items(roster)->0.len() ==> without_stats(
                #[trigger] roster_items(roster)->0[m],
            ),
    ensures
        forall|i: int|
            0 <= i < fallback_players(doc, roster).len() ==> no_stats(
                #[trigger] fallback_players(doc, roster)[i],
            ),
{
    let items = roster_items(roster)->0;
    let league = players_of(items);
    let home = team_players(league, home_id(doc));
    assert forall|i: int| 0 <= i < fallback_players(doc, roster).len() implies no_stats(
        #[trigger] fallback_players(doc, roster)[i],
    ) by {
        let player = fallback_players(doc, roster)[i];
        if i < home.len() {
            lemma_team_players_are_listed(league, home_id(doc), i);
        } else {
            lemma_team_players_are_listed(league, visitor_id(doc), i - home.len());
        }
        let m = choose|m: int| 0 <= m < league.len() && league[m] == player;
        lemma_no_stats(items[m]);
    }
}

/// A box score with a statistics section never looks at the roster: its
/// players are the section's active players, in the section's order.
pub proof fn lemma_embedded_players(doc: JsonValue, roster: Option<JsonValue>)
    requires
        box_score_ok(doc),
        has_stats(doc),
    ensures
        box_score_result(doc, roster) is Ok,
        box_score_result(doc, roster)->Ok_0.players == players_of(
            doc.present("stats"@)->0.items_at("activePlayers"@)->0,
        ),
{
}

/// A line score has four slots, however many quarters the feed reports: a
/// reported quarter holds its points, and a slot without a quarter holds
/// zero.
pub proof fn lemma_line_score_slots(entries: Seq<JsonValue>)
    ensures
        line_score_of(entries).len() == QUARTERS,
        forall|k: int|
            0 <= k < QUARTERS ==> #[trigger] line_score_of(entries)[k] == quarter_points(
                entries,
                k,
            ),
        forall|k: int|
            entries.len() <= k < QUARTERS ==> #[trigger] line_score_of(entries)[k] == 0,
{
}

} // verus!
