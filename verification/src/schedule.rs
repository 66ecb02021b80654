//! The season schedule: which games are played on which date, and the
//! franchises of the league.

use crate::error::DecodeError;
use crate::json::{document_of, views, Json, JsonValue};
use crate::text::{
    decimal, parse_decimal, parse_u8_or_zero, text_eq, text_views, u8_or_zero,
};
use crate::period::{period_at_ok, period_of, Period};
use crate::watch::{video_of, watch_ok, watch_video, VideoView, Watch};
use vstd::prelude::*;

verus! {

/// One side of a scheduled game: the team, its record and its score.
#[derive(Debug, PartialEq, Eq)]
pub struct Side {
    pub team_id: String,
    pub win: u8,
    pub loss: u8,
    pub score: u8,
}

/// The mathematical value of a [`Side`].
pub struct SideView {
    pub team_id: Seq<char>,
    pub win: u8,
    pub loss: u8,
    pub score: u8,
}

impl View for Side {
    type V = SideView;

    open spec fn view(&self) -> SideView {
        SideView { team_id: self.team_id@, win: self.win, loss: self.loss, score: self.score }
    }
}

/// Whether a value has the shape of a side: texts `teamId`, `win`, `loss`
/// and `score`.
pub open spec fn side_ok(j: JsonValue) -> bool {
    &&& j.text_at("teamId"@) is Some
    &&& j.text_at("win"@) is Some
    &&& j.text_at("loss"@) is Some
    &&& j.text_at("score"@) is Some
}

/// The side that a value of that shape describes; record and score are read
/// leniently.
pub open spec fn side_of(j: JsonValue) -> SideView {
    SideView {
        team_id: j.text_at("teamId"@)->0,
        win: u8_or_zero(j.text_at("win"@)->0),
        loss: u8_or_zero(j.text_at("loss"@)->0),
        score: u8_or_zero(j.text_at("score"@)->0),
    }
}

/// Whether `j` has a member `key` with the shape of a side.
pub open spec fn side_at_ok(j: JsonValue, key: Seq<char>) -> bool {
    j.member(key) matches Some(s) && side_ok(s)
}

impl Side {
    /// Decodes one side of a scheduled game.
    pub fn from_json(json: &Json) -> (side: Result<Side, DecodeError>)
        ensures
            match side {
                Ok(s) => side_ok(json@) && s@ == side_of(json@),
                Err(e) => e == DecodeError::Shape && !side_ok(json@),
            },
    {
        let team_id = json.text_at("teamId")?;
        let win = json.text_at("win")?;
        let loss = json.text_at("loss")?;
        let score = json.text_at("score")?;
        Ok(
            Side {
                team_id,
                win: parse_u8_or_zero(win.as_str()),
                loss: parse_u8_or_zero(loss.as_str()),
                score: parse_u8_or_zero(score.as_str()),
            },
        )
    }

    /// Decodes the side stored under `key`.
    fn at(json: &Json, key: &str) -> (side: Result<Side, DecodeError>)
        ensures
            match side {
                Ok(s) => side_at_ok(json@, key@) && s@ == side_of(json@.member(key@)->0),
                Err(e) => e == DecodeError::Shape && !side_at_ok(json@, key@),
            },
    {
        match json.get(key) {
            Some(s) => Side::from_json(s),
            None => Err(DecodeError::Shape),
        }
    }
}

/// One game of the schedule.
#[derive(Debug, PartialEq, Eq)]
pub struct Game {
    pub game_id: String,
    /// The day of the game, as `yyyymmdd`.
    pub start_date: String,
    pub start_time: String,
    pub period: Period,
    pub h_team: Side,
    pub v_team: Side,
    /// How the game can be watched, where the feed says.
    pub watch: Option<Watch>,
}

/// The mathematical value of a [`Game`].
pub struct GameView {
    pub game_id: Seq<char>,
    pub start_date: Seq<char>,
    pub start_time: Seq<char>,
    pub period: Period,
    pub h_team: SideView,
    pub v_team: SideView,
    pub watch: Option<VideoView>,
}

/// The value of a watch record that may be absent.
pub open spec fn watch_view(watch: Option<Watch>) -> Option<VideoView> {
    match watch {
        Some(w) => Some(w@),
        None => None,
    }
}

impl View for Game {
    type V = GameView;

    open spec fn view(&self) -> GameView {
        GameView {
            game_id: self.game_id@,
            start_date: self.start_date@,
            start_time: self.start_time@,
            period: self.period,
            h_team: self.h_team@,
            v_team: self.v_team@,
            watch: watch_view(self.watch),
        }
    }
}

/// Whether a value has the shape of a game record: texts `gameId`,
/// `startDateEastern` and `startTimeEastern`, a period record `period`,
/// sides `hTeam` and `vTeam`, and, where present and not `null`, a watch
/// record `watch`.
pub open spec fn game_ok(j: JsonValue) -> bool {
    &&& j.text_at("gameId"@) is Some
    &&& j.text_at("startDateEastern"@) is Some
    &&& j.text_at("startTimeEastern"@) is Some
    &&& period_at_ok(j, "period"@)
    &&& side_at_ok(j, "hTeam"@)
    &&& side_at_ok(j, "vTeam"@)
    &&& j.present("watch"@) matches Some(w) ==> watch_ok(w)
}

/// The game that a value of that shape describes.
pub open spec fn game_of(j: JsonValue) -> GameView {
    GameView {
        game_id: j.text_at("gameId"@)->0,
        start_date: j.text_at("startDateEastern"@)->0,
        start_time: j.text_at("startTimeEastern"@)->0,
        period: period_of(j.member("period"@)->0),
        h_team: side_of(j.member("hTeam"@)->0),
        v_team: side_of(j.member("vTeam"@)->0),
        watch: match j.present("watch"@) {
            Some(w) => Some(video_of(watch_video(w)->0)),
            None => None,
        },
    }
}

impl Game {
    /// Decodes one game record.
    pub fn from_json(json: &Json) -> (game: Result<Game, DecodeError>)
        ensures
            match game {
                Ok(g) => game_ok(json@) && g@ == game_of(json@),
                Err(e) => e == DecodeError::Shape && !game_ok(json@),
            },
    {
        let game_id = json.text_at("gameId")?;
        let start_date = json.text_at("startDateEastern")?;
        let start_time = json.text_at("startTimeEastern")?;
        let period = Period::at(json, "period")?;
        let h_team = Side::at(json, "hTeam")?;
        let v_team = Side::at(json, "vTeam")?;
        let watch = match json.get_present("watch") {
            Some(w) => Some(Watch::from_json(w)?),
            None => None,
        };
        Ok(Game { game_id, start_date, start_time, period, h_team, v_team, watch })
    }
}

/// The values of a sequence of games, one by one.
pub open spec fn game_views(games: Seq<Game>) -> Seq<GameView> {
    Seq::new(games.len(), |i: int| games[i]@)
}

/// Whether every value of a sequence has the shape of a game record.
pub open spec fn games_ok(items: Seq<JsonValue>) -> bool {
    forall|i: int| 0 <= i < items.len() ==> game_ok(#[trigger] items[i])
}

/// The games that a sequence of such values describes, in its order.
pub open spec fn games_of(items: Seq<JsonValue>) -> Seq<GameView> {
    Seq::new(items.len(), |i: int| game_of(items[i]))
}

/// The array of game records in a schedule document: `league`, then
/// `standard`.
pub open spec fn schedule_items(doc: JsonValue) -> Option<Seq<JsonValue>> {
    match doc.member("league"@) {
        Some(league) => league.items_at("standard"@),
        None => None,
    }
}

/// Whether a document has the shape of a schedule.
pub open spec fn schedule_ok(doc: JsonValue) -> bool {
    schedule_items(doc) matches Some(items) && games_ok(items)
}

/// The games of a document of that shape, in the order it lists them.
pub open spec fn schedule_of(doc: JsonValue) -> Seq<GameView> {
    games_of(schedule_items(doc)->0)
}

/// What decoding a schedule text gives.
pub open spec fn schedule_text_result(payload: Seq<char>) -> Result<Seq<GameView>, DecodeError> {
    match document_of(payload) {
        None => Err(DecodeError::Syntax),
        Some(doc) => if schedule_ok(doc) {
            Ok(schedule_of(doc))
        } else {
            Err(DecodeError::Shape)
        },
    }
}

/// Whether a game is played on `date`: its date is that text, character for
/// character.
pub open spec fn played_on(game: GameView, date: Seq<char>) -> bool {
    game.start_date == date
}

/// The identifiers of the games played on `date`, in schedule order.
pub open spec fn games_on_date(games: Seq<GameView>, date: Seq<char>) -> Seq<Seq<char>> {
    games.filter(|g: GameView| played_on(g, date)).map_values(|g: GameView| g.game_id)
}

/// The season's games, in the order the feed lists them.
#[derive(Debug, PartialEq, Eq)]
pub struct Schedule {
    pub games: Vec<Game>,
}

impl View for Schedule {
    type V = Seq<GameView>;

    open spec fn view(&self) -> Seq<GameView> {
        game_views(self.games@)
    }
}

impl Schedule {
    /// Decodes a schedule document.
    pub fn from_json(doc: &Json) -> (outcome: Result<Schedule, DecodeError>)
        ensures
            match outcome {
                Ok(s) => schedule_ok(doc@) && s@ == schedule_of(doc@),
                Err(e) => e == DecodeError::Shape && !schedule_ok(doc@),
            },
    {
        let league = match doc.get("league") {
            Some(league) => league,
            None => return Err(DecodeError::Shape),
        };
        let items = league.items_at("standard")?;
        let mut games: Vec<Game> = Vec::new();
        let mut i: usize = 0;
        while i < items.len()
            invariant
                i <= items.len(),
                games.len() == i,
                schedule_items(doc@) == Some(views(items@)),
                forall|j: int| 0 <= j < i ==> game_ok(#[trigger] views(items@)[j]),
                forall|j: int| 0 <= j < i ==> (#[trigger] games[j])@ == game_of(views(items@)[j]),
            decreases items.len() - i,
        {
            assert(views(items@)[i as int] == items[i as int]@);
            match Game::from_json(&items[i]) {
                Ok(game) => games.push(game),
                Err(e) => return Err(e),
            }
            i += 1;
        }
        Ok(Schedule { games })
    }

    /// Decodes a schedule text.
    pub fn new(payload: &str) -> (outcome: Result<Schedule, DecodeError>)
        ensures
            match outcome {
                Ok(s) => schedule_text_result(payload@) == Ok::<Seq<GameView>, DecodeError>(s@),
                Err(e) => schedule_text_result(payload@) == Err::<Seq<GameView>, DecodeError>(e),
            },
    {
        let doc = Json::parse(payload)?;
        Schedule::from_json(&doc)
    }

    /// The part of the schedule that is played on the date `today`, in
    /// schedule order.
    pub fn get_today(self, today: &str) -> (games: Schedule)
        ensures
            games@ == self@.filter(|g: GameView| played_on(g, today@)),
    {
        let ghost all = self@;
        let ghost wanted = |g: GameView| played_on(g, today@);
        let mut games: Vec<Game> = Vec::new();
        for game in it: self.games
            invariant
                all == game_views(it.seq()),
                wanted == |g: GameView| played_on(g, today@),
                game_views(games@) == all.take(it.index() as int).filter(wanted),
        {
            let ghost k = it.index() as int;
            proof {
                reveal(Seq::filter);
                assert(all.take(k + 1).drop_last() =~= all.take(k));
            }
            if text_eq(game.start_date.as_str(), today) {
                games.push(game);
            }
        }
        proof {
            assert(all.take(all.len() as int) =~= all);
        }
        Schedule { games }
    }

    /// The identifiers of the games played on `date`, in schedule order.
    pub fn get_date_game_id(&self, date: &str) -> (ids: Vec<String>)
        ensures
            text_views(ids@) == games_on_date(self@, date@),
    {
        let ghost all = self@;
        let ghost wanted = |g: GameView| played_on(g, date@);
        let ghost id = |g: GameView| g.game_id;
        let mut ids: Vec<String> = Vec::new();
        let mut i: usize = 0;
        while i < self.games.len()
            invariant
                i <= self.games.len(),
                all == self@,
                wanted == |g: GameView| played_on(g, date@),
                id == |g: GameView| g.game_id,
                text_views(ids@) == all.take(i as int).filter(wanted).map_values(id),
            decreases self.games.len() - i,
        {
            let game = &self.games[i];
            proof {
                reveal(Seq::filter);
                assert(all.take(i + 1).drop_last() =~= all.take(i as int));
            }
            if text_eq(game.start_date.as_str(), date) {
                ids.push(game.game_id.clone());
                assert(all.take(i + 1).filter(wanted).map_values(id) =~= all.take(
                    i as int,
                ).filter(wanted).map_values(id).push(game.game_id@));
            }
            i += 1;
        }
        proof {
            assert(all.take(all.len() as int) =~= all);
        }
        ids
    }
}

/// A schedule of one game answers with that game's identifier for the
/// game's own date, and with nothing for any other date.
pub proof fn lemma_games_on_date_single(game: GameView, date: Seq<char>)
    ensures
        games_on_date(seq![game], date) == if game.start_date == date {
            seq![game.game_id]
        } else {
            Seq::<Seq<char>>::empty()
        },
{
    reveal(Seq::filter);
    let wanted = |g: GameView| played_on(g, date);
    assert(seq![game].drop_last() =~= Seq::<GameView>::empty());
    assert(Seq::<GameView>::empty().filter(wanted) =~= Seq::<GameView>::empty());
}

/// The answer for a schedule made of two parts is the answer for the first
/// part followed by the answer for the second: matching games come out in
/// schedule order, each once, and nothing else does.
pub proof fn lemma_games_on_date_concat(
    first: Seq<GameView>,
    second: Seq<GameView>,
    date: Seq<char>,
)
    ensures
        games_on_date(first + second, date) == games_on_date(first, date) + games_on_date(
            second,
            date,
        ),
{
    let wanted = |g: GameView| played_on(g, date);
    Seq::filter_distributes_over_add(first, second, wanted);
    assert(games_on_date(first + second, date) =~= games_on_date(first, date) + games_on_date(
        second,
        date,
    ));
}

/// A date on which no game is played has no game identifiers.
pub proof fn lemma_no_games_on_date(games: Seq<GameView>, date: Seq<char>)
    requires
        forall|i: int| 0 <= i < games.len() ==> !played_on(#[trigger] games[i], date),
    ensures
        games_on_date(games, date) == Seq::<Seq<char>>::empty(),
{
    let wanted = |g: GameView| played_on(g, date);
    let kept = games.filter(wanted);
    if kept.len() > 0 {
        games.lemma_filter_pred(wanted, 0);
        games.lemma_filter_contains_rev(wanted, kept[0]);
    }
}

/// The two conferences of the league.
#[derive(Debug, Clone, Copy, PartialEq, Eq, Structural)]
pub enum Conference {
    East,
    West,
}

/// The six divisions of the league.
#[derive(Debug, Clone, Copy, PartialEq, Eq, Structural)]
pub enum Division {
    Atlantic,
    Central,
    NorthWest,
    Pacific,
    SouthEast,
    SouthWest,
}

/// The conference that a text names, if it names one.
pub open spec fn conference_named(text: Seq<char>) -> Option<Conference> {
    if text == "East"@ {
        Some(Conference::East)
    } else if text == "West"@ {
        Some(Conference::West)
    } else {
        None
    }
}

/// The division that a text names, if it names one.
pub open spec fn division_named(text: Seq<char>) -> Option<Division> {
    if text == "Atlantic"@ {
        Some(Division::Atlantic)
    } else if text == "Central"@ {
        Some(Division::Central)
    } else if text == "Northwest"@ {
        Some(Division::NorthWest)
    } else if text == "Pacific"@ {
        Some(Division::Pacific)
    } else if text == "Southeast"@ {
        Some(Division::SouthEast)
    } else if text == "Southwest"@ {
        Some(Division::SouthWest)
    } else {
        None
    }
}

impl Conference {
    /// The conference that a text names.
    pub fn from_text(text: &str) -> (conference: Option<Conference>)
        ensures
            conference == conference_named(text@),
    {
        if text_eq(text, "East") {
            Some(Conference::East)
        } else if text_eq(text, "West") {
            Some(Conference::West)
        } else {
            None
        }
    }
}

impl Division {
    /// The division that a text names.
    pub fn from_text(text: &str) -> (division: Option<Division>)
        ensures
            division == division_named(text@),
    {
        if text_eq(text, "Atlantic") {
            Some(Division::Atlantic)
        } else if text_eq(text, "Central") {
            Some(Division::Central)
        } else if text_eq(text, "Northwest") {
            Some(Division::NorthWest)
        } else if text_eq(text, "Pacific") {
            Some(Division::Pacific)
        } else if text_eq(text, "Southeast") {
            Some(Division::SouthEast)
        } else if text_eq(text, "Southwest") {
            Some(Division::SouthWest)
        } else {
            None
        }
    }
}

/// A franchise of the league.
#[derive(Debug, PartialEq, Eq)]
pub struct Team {
    pub city: String,
    pub name: String,
    pub conference: Conference,
    pub tricode: String,
    pub team_short_name: String,
    pub div_name: Division,
    pub nickname: String,
    pub team_id: u64,
    pub alt_city_name: String,
}

/// The mathematical value of a [`Team`].
pub struct TeamView {
    pub city: Seq<char>,
    pub name: Seq<char>,
    pub conference: Conference,
    pub tricode: Seq<char>,
    pub team_short_name: Seq<char>,
    pub div_name: Division,
    pub nickname: Seq<char>,
    pub team_id: u64,
    pub alt_city_name: Seq<char>,
}

impl View for Team {
    type V = TeamView;

    open spec fn view(&self) -> TeamView {
        TeamView {
            city: self.city@,
            name: self.name@,
            conference: self.conference,
            tricode: self.tricode@,
            team_short_name: self.team_short_name@,
            div_name: self.div_name,
            nickname: self.nickname@,
            team_id: self.team_id,
            alt_city_name: self.alt_city_name@,
        }
    }
}

/// The conference named under `confName`.
pub open spec fn conference_at(j: JsonValue) -> Option<Conference> {
    match j.text_at("confName"@) {
        Some(text) => conference_named(text),
        None => None,
    }
}

/// The division named under `divName`.
pub open spec fn division_at(j: JsonValue) -> Option<Division> {
    match j.text_at("divName"@) {
        Some(text) => division_named(text),
        None => None,
    }
}

/// The number written under `teamId`. Unlike a statistic, an identifier that
/// is no number is not read as zero: there is none then.
pub open spec fn team_number_at(j: JsonValue) -> Option<nat> {
    match j.text_at("teamId"@) {
        Some(text) => decimal(text, u64::MAX as nat),
        None => None,
    }
}

/// Whether a value has the shape of a franchise: texts `city`, `fullName`,
/// `tricode`, `teamShortName`, `nickname` and `altCityName`, a conference
/// under `confName`, a division under `divName`, and under `teamId` a text
/// that writes a number of at most 64 bits.
pub open spec fn team_ok(j: JsonValue) -> bool {
    &&& j.text_at("city"@) is Some
    &&& j.text_at("fullName"@) is Some
    &&& conference_at(j) is Some
    &&& j.text_at("tricode"@) is Some
    &&& j.text_at("teamShortName"@) is Some
    &&& division_at(j) is Some
    &&& j.text_at("nickname"@) is Some
    &&& team_number_at(j) is Some
    &&& j.text_at("altCityName"@) is Some
}

/// The franchise that a value of that shape describes.
pub open spec fn team_of(j: JsonValue) -> TeamView {
    TeamView {
        city: j.text_at("city"@)->0,
        name: j.text_at("fullName"@)->0,
        conference: conference_at(j)->0,
        tricode: j.text_at("tricode"@)->0,
        team_short_name: j.text_at("teamShortName"@)->0,
        div_name: division_at(j)->0,
        nickname: j.text_at("nickname"@)->0,
        team_id: team_number_at(j)->0 as u64,
        alt_city_name: j.text_at("altCityName"@)->0,
    }
}

/// What decoding a franchise text gives.
pub open spec fn team_text_result(payload: Seq<char>) -> Result<TeamView, DecodeError> {
    match document_of(payload) {
        None => Err(DecodeError::Syntax),
        Some(doc) => if team_ok(doc) {
            Ok(team_of(doc))
        } else {
            Err(DecodeError::Shape)
        },
    }
}

impl Team {
    /// Decodes a franchise.
    pub fn from_json(json: &Json) -> (team: Result<Team, DecodeError>)
        ensures
            match team {
                Ok(t) => team_ok(json@) && t@ == team_of(json@),
                Err(e) => e == DecodeError::Shape && !team_ok(json@),
            },
    {
        let city = json.text_at("city")?;
        let name = json.text_at("fullName")?;
        let conf_name = json.text_at("confName")?;
        let conference = match Conference::from_text(conf_name.as_str()) {
            Some(c) => c,
            None => return Err(DecodeError::Shape),
        };
        let tricode = json.text_at("tricode")?;
        let team_short_name = json.text_at("teamShortName")?;
        let division = json.text_at("divName")?;
        let div_name = match Division::from_text(division.as_str()) {
            Some(d) => d,
            None => return Err(DecodeError::Shape),
        };
        let nickname = json.text_at("nickname")?;
        let id = json.text_at("teamId")?;
        let team_id = match parse_decimal(id.as_str(), u64::MAX) {
            Some(n) => n,
            None => return Err(DecodeError::Shape),
        };
        let alt_city_name = json.text_at("altCityName")?;
        Ok(
            Team {
                city,
                name,
                conference,
                tricode,
                team_short_name,
                div_name,
                nickname,
                team_id,
                alt_city_name,
            },
        )
    }

    /// Decodes a franchise text.
    pub fn new(payload: &str) -> (outcome: Result<Team, DecodeError>)
        ensures
            match outcome {
                Ok(t) => team_text_result(payload@) == Ok::<TeamView, DecodeError>(t@),
                Err(e) => team_text_result(payload@) == Err::<TeamView, DecodeError>(e),
            },
    {
        let doc = Json::parse(payload)?;
        Team::from_json(&doc)
    }
}

} // verus!
