//! Players: their statistics as the feeds write them, and the league roster.

use crate::error::DecodeError;
use crate::json::{document_of, views, Json, JsonValue};
use crate::text::{count_or_zero, is_number, parse_count_or_zero, text_eq, text_view};
use vstd::prelude::*;

verus! {

/// The ranks of a player in each column of the box score, by which the feed
/// sorts its rows.
#[derive(Debug, Clone, Copy, PartialEq, Eq, Structural)]
pub struct SortKey {
    pub name: usize,
    pub pos: usize,
    pub points: usize,
    pub min: usize,
    pub fgm: usize,
    pub fga: usize,
    pub fgp: usize,
    pub ftm: usize,
    pub fta: usize,
    pub ftp: usize,
    pub tpm: usize,
    pub tpa: usize,
    pub tpp: usize,
    pub off_reb: usize,
    pub def_reb: usize,
    pub tot_reb: usize,
    pub assists: usize,
    pub p_fouls: usize,
    pub steals: usize,
    pub turnovers: usize,
    pub blocks: usize,
    pub plus_minus: usize,
}

/// Whether a value has the shape of a sort key: a count under each column's
/// name.
pub open spec fn sort_key_ok(j: JsonValue) -> bool {
    &&& j.count_at("name"@) is Some
    &&& j.count_at("pos"@) is Some
    &&& j.count_at("points"@) is Some
    &&& j.count_at("min"@) is Some
    &&& j.count_at("fgm"@) is Some
    &&& j.count_at("fga"@) is Some
    &&& j.count_at("fgp"@) is Some
    &&& j.count_at("ftm"@) is Some
    &&& j.count_at("fta"@) is Some
    &&& j.count_at("ftp"@) is Some
    &&& j.count_at("tpm"@) is Some
    &&& j.count_at("tpa"@) is Some
    &&& j.count_at("tpp"@) is Some
    &&& j.count_at("offReb"@) is Some
    &&& j.count_at("defReb"@) is Some
    &&& j.count_at("totReb"@) is Some
    &&& j.count_at("assists"@) is Some
    &&& j.count_at("pFouls"@) is Some
    &&& j.count_at("steals"@) is Some
    &&& j.count_at("turnovers"@) is Some
    &&& j.count_at("blocks"@) is Some
    &&& j.count_at("plusMinus"@) is Some
}

/// The sort key that a value of that shape holds.
pub open spec fn sort_key_of(j: JsonValue) -> SortKey {
    SortKey {
        name: j.count_at("name"@)->0,
        pos: j.count_at("pos"@)->0,
        points: j.count_at("points"@)->0,
        min: j.count_at("min"@)->0,
        fgm: j.count_at("fgm"@)->0,
        fga: j.count_at("fga"@)->0,
        fgp: j.count_at("fgp"@)->0,
        ftm: j.count_at("ftm"@)->0,
        fta: j.count_at("fta"@)->0,
        ftp: j.count_at("ftp"@)->0,
        tpm: j.count_at("tpm"@)->0,
        tpa: j.count_at("tpa"@)->0,
        tpp: j.count_at("tpp"@)->0,
        off_reb: j.count_at("offReb"@)->0,
        def_reb: j.count_at("defReb"@)->0,
        tot_reb: j.count_at("totReb"@)->0,
        assists: j.count_at("assists"@)->0,
        p_fouls: j.count_at("pFouls"@)->0,
        steals: j.count_at("steals"@)->0,
        turnovers: j.count_at("turnovers"@)->0,
        blocks: j.count_at("blocks"@)->0,
        plus_minus: j.count_at("plusMinus"@)->0,
    }
}

impl SortKey {
    /// Decodes a sort key.
    pub fn from_json(json: &Json) -> (key: Result<SortKey, DecodeError>)
        ensures
            match key {
                Ok(k) => sort_key_ok(json@) && k == sort_key_of(json@),
                Err(e) => e == DecodeError::Shape && !sort_key_ok(json@),
            },
    {
        Ok(
            SortKey {
                name: json.count_at("name")?,
                pos: json.count_at("pos")?,
                points: json.count_at("points")?,
                min: json.count_at("min")?,
                fgm: json.count_at("fgm")?,
                fga: json.count_at("fga")?,
                fgp: json.count_at("fgp")?,
                ftm: json.count_at("ftm")?,
                fta: json.count_at("fta")?,
                ftp: json.count_at("ftp")?,
                tpm: json.count_at("tpm")?,
                tpa: json.count_at("tpa")?,
                tpp: json.count_at("tpp")?,
                off_reb: json.count_at("offReb")?,
                def_reb: json.count_at("defReb")?,
                tot_reb: json.count_at("totReb")?,
                assists: json.count_at("assists")?,
                p_fouls: json.count_at("pFouls")?,
                steals: json.count_at("steals")?,
                turnovers: json.count_at("turnovers")?,
                blocks: json.count_at("blocks")?,
                plus_minus: json.count_at("plusMinus")?,
            },
        )
    }
}

/// A player, with the statistics of one game where the feed has them. A
/// statistic keeps the text the feed wrote; one that the feed leaves out is
/// `None`.
#[derive(Debug, PartialEq, Eq)]
pub struct Player {
    pub person_id: String,
    pub first_name: String,
    pub last_name: String,
    pub jersey: Option<String>,
    pub team_id: Option<String>,
    pub is_on_court: Option<bool>,
    pub points: Option<String>,
    pub pos: Option<String>,
    pub position_full: Option<String>,
    pub player_code: Option<String>,
    pub min: Option<String>,
    pub fgm: Option<String>,
    pub fga: Option<String>,
    pub fgp: Option<String>,
    pub ftm: Option<String>,
    pub fta: Option<String>,
    pub ftp: Option<String>,
    pub tpm: Option<String>,
    pub tpa: Option<String>,
    pub tpp: Option<String>,
    pub off_reb: Option<String>,
    pub def_reb: Option<String>,
    pub tot_reb: Option<String>,
    pub assists: Option<String>,
    pub p_fouls: Option<String>,
    pub steals: Option<String>,
    pub turnovers: Option<String>,
    pub blocks: Option<String>,
    pub plus_minus: Option<String>,
    pub dnp: Option<String>,
    pub sort_key: Option<SortKey>,
}

/// The mathematical value of a [`Player`].
pub struct PlayerView {
    pub person_id: Seq<char>,
    pub first_name: Seq<char>,
    pub last_name: Seq<char>,
    pub jersey: Option<Seq<char>>,
    pub team_id: Option<Seq<char>>,
    pub is_on_court: Option<bool>,
    pub points: Option<Seq<char>>,
    pub pos: Option<Seq<char>>,
    pub position_full: Option<Seq<char>>,
    pub player_code: Option<Seq<char>>,
    pub min: Option<Seq<char>>,
    pub fgm: Option<Seq<char>>,
    pub fga: Option<Seq<char>>,
    pub fgp: Option<Seq<char>>,
    pub ftm: Option<Seq<char>>,
    pub fta: Option<Seq<char>>,
    pub ftp: Option<Seq<char>>,
    pub tpm: Option<Seq<char>>,
    pub tpa: Option<Seq<char>>,
    pub tpp: Option<Seq<char>>,
    pub off_reb: Option<Seq<char>>,
    pub def_reb: Option<Seq<char>>,
    pub tot_reb: Option<Seq<char>>,
    pub assists: Option<Seq<char>>,
    pub p_fouls: Option<Seq<char>>,
    pub steals: Option<Seq<char>>,
    pub turnovers: Option<Seq<char>>,
    pub blocks: Option<Seq<char>>,
    pub plus_minus: Option<Seq<char>>,
    pub dnp: Option<Seq<char>>,
    pub sort_key: Option<SortKey>,
}

impl View for Player {
    type V = PlayerView;

    open spec fn view(&self) -> PlayerView {
        PlayerView {
            person_id: self.person_id@,
            first_name: self.first_name@,
            last_name: self.last_name@,
            jersey: text_view(self.jersey),
            team_id: text_view(self.team_id),
            is_on_court: self.is_on_court,
            points: text_view(self.points),
            pos: text_view(self.pos),
            position_full: text_view(self.position_full),
            player_code: text_view(self.player_code),
            min: text_view(self.min),
            fgm: text_view(self.fgm),
            fga: text_view(self.fga),
            fgp: text_view(self.fgp),
            ftm: text_view(self.ftm),
            fta: text_view(self.fta),
            ftp: text_view(self.ftp),
            tpm: text_view(self.tpm),
            tpa: text_view(self.tpa),
            tpp: text_view(self.tpp),
            off_reb: text_view(self.off_reb),
            def_reb: text_view(self.def_reb),
            tot_reb: text_view(self.tot_reb),
            assists: text_view(self.assists),
            p_fouls: text_view(self.p_fouls),
            steals: text_view(self.steals),
            turnovers: text_view(self.turnovers),
            blocks: text_view(self.blocks),
            plus_minus: text_view(self.plus_minus),
            dnp: text_view(self.dnp),
            sort_key: self.sort_key,
        }
    }
}

/// Whether a value has the shape of a player: texts `personId`, `firstName`
/// and `lastName`; where present and not `null`, a boolean `isOnCourt`, a
/// sort key `sortKey`, and a text under every other name the decoder reads.
/// What a text holds is never a reason to refuse it.
pub open spec fn player_ok(j: JsonValue) -> bool {
    &&& j.text_at("personId"@) is Some
    &&& j.text_at("firstName"@) is Some
    &&& j.text_at("lastName"@) is Some
    &&& j.optional_text_at("jersey"@) is Some
    &&& j.optional_text_at("teamId"@) is Some
    &&& j.optional_bool_at("isOnCourt"@) is Some
    &&& j.optional_text_at("points"@) is Some
    &&& j.optional_text_at("pos"@) is Some
    &&& j.optional_text_at("positionFull"@) is Some
    &&& j.optional_text_at("playerCode"@) is Some
    &&& j.optional_text_at("min"@) is Some
    &&& j.optional_text_at("fgm"@) is Some
    &&& j.optional_text_at("fga"@) is Some
    &&& j.optional_text_at("fgp"@) is Some
    &&& j.optional_text_at("ftm"@) is Some
    &&& j.optional_text_at("fta"@) is Some
    &&& j.optional_text_at("ftp"@) is Some
    &&& j.optional_text_at("tpm"@) is Some
    &&& j.optional_text_at("tpa"@) is Some
    &&& j.optional_text_at("tpp"@) is Some
    &&& j.optional_text_at("offReb"@) is Some
    &&& j.optional_text_at("defReb"@) is Some
    &&& j.optional_text_at("totReb"@) is Some
    &&& j.optional_text_at("assists"@) is Some
    &&& j.optional_text_at("pFouls"@) is Some
    &&& j.optional_text_at("steals"@) is Some
    &&& j.optional_text_at("turnovers"@) is Some
    &&& j.optional_text_at("blocks"@) is Some
    &&& j.optional_text_at("plusMinus"@) is Some
    &&& j.optional_text_at("dnp"@) is Some
    &&& j.present("sortKey"@) matches Some(k) ==> sort_key_ok(k)
}

/// The player that a value of that shape describes.
pub open spec fn player_of(j: JsonValue) -> PlayerView {
    PlayerView {
        person_id: j.text_at("personId"@)->0,
        first_name: j.text_at("firstName"@)->0,
        last_name: j.text_at("lastName"@)->0,
        jersey: j.optional_text_at("jersey"@)->0,
        team_id: j.optional_text_at("teamId"@)->0,
        is_on_court: j.optional_bool_at("isOnCourt"@)->0,
        points: j.optional_text_at("points"@)->0,
        pos: j.optional_text_at("pos"@)->0,
        position_full: j.optional_text_at("positionFull"@)->0,
        player_code: j.optional_text_at("playerCode"@)->0,
        min: j.optional_text_at("min"@)->0,
        fgm: j.optional_text_at("fgm"@)->0,
        fga: j.optional_text_at("fga"@)->0,
        fgp: j.optional_text_at("fgp"@)->0,
        ftm: j.optional_text_at("ftm"@)->0,
        fta: j.optional_text_at("fta"@)->0,
        ftp: j.optional_text_at("ftp"@)->0,
        tpm: j.optional_text_at("tpm"@)->0,
        tpa: j.optional_text_at("tpa"@)->0,
        tpp: j.optional_text_at("tpp"@)->0,
        off_reb: j.optional_text_at("offReb"@)->0,
        def_reb: j.optional_text_at("defReb"@)->0,
        tot_reb: j.optional_text_at("totReb"@)->0,
        assists: j.optional_text_at("assists"@)->0,
        p_fouls: j.optional_text_at("pFouls"@)->0,
        steals: j.optional_text_at("steals"@)->0,
        turnovers: j.optional_text_at("turnovers"@)->0,
        blocks: j.optional_text_at("blocks"@)->0,
        plus_minus: j.optional_text_at("plusMinus"@)->0,
        dnp: j.optional_text_at("dnp"@)->0,
        sort_key: match j.present("sortKey"@) {
            Some(k) => Some(sort_key_of(k)),
            None => None,
        },
    }
}

impl Player {
    /// Decodes one player.
    pub fn from_json(json: &Json) -> (player: Result<Player, DecodeError>)
        ensures
            match player {
                Ok(p) => player_ok(json@) && p@ == player_of(json@),
                Err(e) => e == DecodeError::Shape && !player_ok(json@),
            },
    {
        let person_id = json.text_at("personId")?;
        let first_name = json.text_at("firstName")?;
        let last_name = json.text_at("lastName")?;
        let jersey = json.optional_text_at("jersey")?;
        let team_id = json.optional_text_at("teamId")?;
        let is_on_court = json.optional_bool_at("isOnCourt")?;
        let points = json.optional_text_at("points")?;
        let pos = json.optional_text_at("pos")?;
        let position_full = json.optional_text_at("positionFull")?;
        let player_code = json.optional_text_at("playerCode")?;
        let min = json.optional_text_at("min")?;
        let fgm = json.optional_text_at("fgm")?;
        let fga = json.optional_text_at("fga")?;
        let fgp = json.optional_text_at("fgp")?;
        let ftm = json.optional_text_at("ftm")?;
        let fta = json.optional_text_at("fta")?;
        let ftp = json.optional_text_at("ftp")?;
        let tpm = json.optional_text_at("tpm")?;
        let tpa = json.optional_text_at("tpa")?;
        let tpp = json.optional_text_at("tpp")?;
        let off_reb = json.optional_text_at("offReb")?;
        let def_reb = json.optional_text_at("defReb")?;
        let tot_reb = json.optional_text_at("totReb")?;
        let assists = json.optional_text_at("assists")?;
        let p_fouls = json.optional_text_at("pFouls")?;
        let steals = json.optional_text_at("steals")?;
        let turnovers = json.optional_text_at("turnovers")?;
        let blocks = json.optional_text_at("blocks")?;
        let plus_minus = json.optional_text_at("plusMinus")?;
        let dnp = json.optional_text_at("dnp")?;
        let sort_key = match json.get_present("sortKey") {
            Some(k) => Some(SortKey::from_json(k)?),
            None => None,
        };
        Ok(
            Player {
                person_id,
                first_name,
                last_name,
                jersey,
                team_id,
                is_on_court,
                points,
                pos,
                position_full,
                player_code,
                min,
                fgm,
                fga,
                fgp,
                ftm,
                fta,
                ftp,
                tpm,
                tpa,
                tpp,
                off_reb,
                def_reb,
                tot_reb,
                assists,
                p_fouls,
                steals,
                turnovers,
                blocks,
                plus_minus,
                dnp,
                sort_key,
            },
        )
    }
}

/// The values of a sequence of players, one by one.
pub open spec fn player_views(players: Seq<Player>) -> Seq<PlayerView> {
    Seq::new(players.len(), |i: int| players[i]@)
}

/// Whether every value of a sequence has the shape of a player.
pub open spec fn players_ok(items: Seq<JsonValue>) -> bool {
    forall|i: int| 0 <= i < items.len() ==> player_ok(#[trigger] items[i])
}

/// The players that a sequence of such values describes, in its order.
pub open spec fn players_of(items: Seq<JsonValue>) -> Seq<PlayerView> {
    Seq::new(items.len(), |i: int| player_of(items[i]))
}

/// Whether a player is listed under the team `team_id`. A player without a
/// team belongs to none.
pub open spec fn plays_for(player: PlayerView, team_id: Seq<char>) -> bool {
    player.team_id == Some(team_id)
}

/// The players of one team, in the order of the sequence they are taken
/// from.
pub open spec fn team_players(players: Seq<PlayerView>, team_id: Seq<char>) -> Seq<PlayerView> {
    players.filter(|p: PlayerView| plays_for(p, team_id))
}

/// The array of players in a roster document: `league`, then `standard`.
pub open spec fn roster_items(doc: JsonValue) -> Option<Seq<JsonValue>> {
    match doc.member("league"@) {
        Some(league) => league.items_at("standard"@),
        None => None,
    }
}

/// Whether a document has the shape of a league roster.
pub open spec fn roster_ok(doc: JsonValue) -> bool {
    roster_items(doc) matches Some(items) && players_ok(items)
}

/// What decoding a roster text gives.
pub open spec fn roster_text_result(payload: Seq<char>) -> Result<Seq<PlayerView>, DecodeError> {
    match document_of(payload) {
        None => Err(DecodeError::Syntax),
        Some(doc) => if roster_ok(doc) {
            Ok(players_of(roster_items(doc)->0))
        } else {
            Err(DecodeError::Shape)
        },
    }
}

/// Decodes an array of players; one that cannot be decoded fails them all.
pub fn decode_players(items: &Vec<Json>) -> (players: Result<Vec<Player>, DecodeError>)
    ensures
        match players {
            Ok(list) => players_ok(views(items@)) && player_views(list@) == players_of(
                views(items@),
            ),
            Err(e) => e == DecodeError::Shape && !players_ok(views(items@)),
        },
{
    let mut list: Vec<Player> = Vec::new();
    let mut i: usize = 0;
    while i < items.len()
        invariant
            i <= items.len(),
            list.len() == i,
            forall|j: int| 0 <= j < i ==> player_ok(#[trigger] views(items@)[j]),
            forall|j: int| 0 <= j < i ==> (#[trigger] list[j])@ == player_of(views(items@)[j]),
        decreases items.len() - i,
    {
        assert(views(items@)[i as int] == items[i as int]@);
        match Player::from_json(&items[i]) {
            Ok(player) => list.push(player),
            Err(e) => return Err(e),
        }
        i += 1;
    }
    Ok(list)
}

/// The players of the whole league.
#[derive(Debug, PartialEq, Eq)]
pub struct Roster {
    pub players: Vec<Player>,
}

impl View for Roster {
    type V = Seq<PlayerView>;

    open spec fn view(&self) -> Seq<PlayerView> {
        player_views(self.players@)
    }
}

impl Roster {
    /// Decodes a roster document.
    pub fn from_json(doc: &Json) -> (roster: Result<Roster, DecodeError>)
        ensures
            match roster {
                Ok(r) => roster_ok(doc@) && r@ == players_of(roster_items(doc@)->0),
                Err(e) => e == DecodeError::Shape && !roster_ok(doc@),
            },
    {
        let league = match doc.get("league") {
            Some(league) => league,
            None => return Err(DecodeError::Shape),
        };
        let items = league.items_at("standard")?;
        let players = decode_players(items)?;
        Ok(Roster { players })
    }

    /// Decodes a roster text.
    pub fn new(payload: &str) -> (outcome: Result<Roster, DecodeError>)
        ensures
            match outcome {
                Ok(r) => roster_text_result(payload@) == Ok::<Seq<PlayerView>, DecodeError>(r@),
                Err(e) => roster_text_result(payload@) == Err::<Seq<PlayerView>, DecodeError>(e),
            },
    {
        let doc = Json::parse(payload)?;
        Roster::from_json(&doc)
    }

    /// Keeps the players of one team, in roster order.
    pub fn into_team(self, team_id: &str) -> (team: Vec<Player>)
        ensures
            player_views(team@) == team_players(self@, team_id@),
    {
        let ghost all = self@;
        let ghost wanted = |p: PlayerView| plays_for(p, team_id@);
        let mut team: Vec<Player> = Vec::new();
        for player in it: self.players
            invariant
                all == player_views(it.seq()),
                wanted == |p: PlayerView| plays_for(p, team_id@),
                player_views(team@) == all.take(it.index() as int).filter(wanted),
        {
            let ghost k = it.index() as int;
            proof {
                reveal(Seq::filter);
                assert(all.take(k + 1).drop_last() =~= all.take(k));
            }
            let keep = match &player.team_id {
                Some(id) => text_eq(id.as_str(), team_id),
                None => false,
            };
            if keep {
                team.push(player);
            }
        }
        proof {
            assert(all.take(all.len() as int) =~= all);
        }
        team
    }
}

impl Player {
    /// The players that a roster document lists under the team `team_id`, in
    /// the document's order.
    pub fn from_team_id(roster: &Json, team_id: &str) -> (team: Result<Vec<Player>, DecodeError>)
        ensures
            match team {
                Ok(list) => roster_ok(roster@) && player_views(list@) == team_players(
                    players_of(roster_items(roster@)->0),
                    team_id@,
                ),
                Err(e) => e == DecodeError::Shape && !roster_ok(roster@),
            },
    {
        let roster = Roster::from_json(roster)?;
        Ok(roster.into_team(team_id))
    }
}

/// What a statistic shows: the text the feed wrote, or `0` where it wrote
/// none.
pub open spec fn shown(stat: Option<Seq<char>>) -> Seq<char> {
    match stat {
        Some(t) => t,
        None => seq!['0'],
    }
}

/// What a statistic counts: the number its text writes, and zero where the
/// feed wrote none, an empty text or one that is no number.
pub open spec fn counted(stat: Option<Seq<char>>) -> u64 {
    match stat {
        Some(t) => count_or_zero(t),
        None => 0,
    }
}

/// The text under which a statistic is shown.
pub fn stat_text(stat: &Option<String>) -> (text: String)
    ensures
        text@ == shown(text_view(*stat)),
{
    match stat {
        Some(t) => t.clone(),
        None => {
            proof {
                reveal_strlit("0");
            }
            "0".to_owned()
        },
    }
}

/// The number that a statistic counts.
pub fn stat_number(stat: &Option<String>) -> (number: u64)
    ensures
        number == counted(text_view(*stat)),
{
    match stat {
        Some(t) => parse_count_or_zero(t.as_str()),
        None => 0,
    }
}

/// The names under which the feeds write a player's statistics.
pub open spec fn stat_names() -> Seq<Seq<char>> {
    seq![
        "points"@,
        "min"@,
        "fgm"@,
        "fga"@,
        "fgp"@,
        "ftm"@,
        "fta"@,
        "ftp"@,
        "tpm"@,
        "tpa"@,
        "tpp"@,
        "offReb"@,
        "defReb"@,
        "totReb"@,
        "assists"@,
        "pFouls"@,
        "steals"@,
        "turnovers"@,
        "blocks"@,
        "plusMinus"@,
    ]
}

/// A player's statistics, in the order of their names.
pub open spec fn stats_of(p: PlayerView) -> Seq<Option<Seq<char>>> {
    seq![
        p.points,
        p.min,
        p.fgm,
        p.fga,
        p.fgp,
        p.ftm,
        p.fta,
        p.ftp,
        p.tpm,
        p.tpa,
        p.tpp,
        p.off_reb,
        p.def_reb,
        p.tot_reb,
        p.assists,
        p.p_fouls,
        p.steals,
        p.turnovers,
        p.blocks,
        p.plus_minus,
    ]
}

/// Every statistic of a decoded player is what the feed wrote under its
/// name. A text is taken whatever it holds, and counts zero where it is empty
/// or no number. A statistic that the feed leaves out is absent, shows `0`
/// and counts zero.
pub proof fn lemma_stats_follow_the_feed(j: JsonValue, k: int)
    requires
        player_ok(j),
        0 <= k < stat_names().len(),
    ensures
        stats_of(player_of(j)).len() == stat_names().len(),
        stats_of(player_of(j))[k] == j.optional_text_at(stat_names()[k])->0,
        j.member(stat_names()[k]) matches Some(JsonValue::Text(t)) ==> {
            &&& stats_of(player_of(j))[k] == Some(t)
            &&& t.len() == 0 || !is_number(t) ==> counted(stats_of(player_of(j))[k]) == 0
        },
        j.present(stat_names()[k]) is None ==> {
            &&& stats_of(player_of(j))[k] is None
            &&& shown(stats_of(player_of(j))[k]) == seq!['0']
            &&& counted(stats_of(player_of(j))[k]) == 0
        },
{
}

/// Whether a value writes no statistic of a player: nothing stands under
/// any of the statistics' names.
pub open spec fn without_stats(j: JsonValue) -> bool {
    forall|k: int| 0 <= k < stat_names().len() ==> j.present(#[trigger] stat_names()[k]) is None
}

/// Whether every statistic of a player is absent, so that each shows `0` and
/// counts zero.
pub open spec fn no_stats(p: PlayerView) -> bool {
    forall|k: int|
        0 <= k < stats_of(p).len() ==> {
            &&& (#[trigger] stats_of(p)[k]) is None
            &&& shown(stats_of(p)[k]) == seq!['0']
            &&& counted(stats_of(p)[k]) == 0
        }
}

/// A player decoded from a value that writes no statistic has none.
pub proof fn lemma_no_stats(j: JsonValue)
    requires
        player_ok(j),
        without_stats(j),
    ensures
        no_stats(player_of(j)),
{
    assert forall|k: int| 0 <= k < stats_of(player_of(j)).len() implies {
        &&& (#[trigger] stats_of(player_of(j))[k]) is None
        &&& shown(stats_of(player_of(j))[k]) == seq!['0']
        &&& counted(stats_of(player_of(j))[k]) == 0
    } by {
        lemma_stats_follow_the_feed(j, k);
    }
}

/// The players of a team are players of the sequence they were taken from.
pub proof fn lemma_team_players_are_listed(players: Seq<PlayerView>, team_id: Seq<char>, i: int)
    requires
        0 <= i < team_players(players, team_id).len(),
    ensures
        players.contains(team_players(players, team_id)[i]),
        plays_for(team_players(players, team_id)[i], team_id),
{
    let wanted = |p: PlayerView| plays_for(p, team_id);
    let team = players.filter(wanted);
    players.lemma_filter_pred(wanted, i);
    players.lemma_filter_contains_rev(wanted, team[i]);
}

} // verus!
