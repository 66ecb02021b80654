//! Team statistics of a box score: the totals of a side and its leaders.

use crate::error::DecodeError;
use crate::json::{Json, JsonValue};
use crate::player::{
    decode_players, player_views, players_of, players_ok, Player, PlayerView,
};
use crate::text::text_view;
use vstd::prelude::*;

verus! {

/// The statistics of a whole side, each as the text the feed wrote.
#[derive(Debug, PartialEq, Eq)]
pub struct Totals {
    pub points: String,
    pub fgm: String,
    pub fga: String,
    pub fgp: String,
    pub ftm: String,
    pub fta: String,
    pub ftp: String,
    pub tpm: String,
    pub tpa: String,
    pub tpp: String,
    pub off_reb: String,
    pub def_reb: String,
    pub tot_reb: String,
    pub assists: String,
    pub p_fouls: String,
    pub steals: String,
    pub turnovers: String,
    pub blocks: String,
    pub plus_minus: String,
    pub min: String,
    pub short_timeout_remaining: Option<String>,
    pub full_timeout_remaining: Option<String>,
    pub team_fouls: Option<String>,
}

/// The mathematical value of a [`Totals`].
pub struct TotalsView {
    pub points: Seq<char>,
    pub fgm: Seq<char>,
    pub fga: Seq<char>,
    pub fgp: Seq<char>,
    pub ftm: Seq<char>,
    pub fta: Seq<char>,
    pub ftp: Seq<char>,
    pub tpm: Seq<char>,
    pub tpa: Seq<char>,
    pub tpp: Seq<char>,
    pub off_reb: Seq<char>,
    pub def_reb: Seq<char>,
    pub tot_reb: Seq<char>,
    pub assists: Seq<char>,
    pub p_fouls: Seq<char>,
    pub steals: Seq<char>,
    pub turnovers: Seq<char>,
    pub blocks: Seq<char>,
    pub plus_minus: Seq<char>,
    pub min: Seq<char>,
    pub short_timeout_remaining: Option<Seq<char>>,
    pub full_timeout_remaining: Option<Seq<char>>,
    pub team_fouls: Option<Seq<char>>,
}

impl View for Totals {
    type V = TotalsView;

    open spec fn view(&self) -> TotalsView {
        TotalsView {
            points: self.points@,
            fgm: self.fgm@,
            fga: self.fga@,
            fgp: self.fgp@,
            ftm: self.ftm@,
            fta: self.fta@,
            ftp: self.ftp@,
            tpm: self.tpm@,
            tpa: self.tpa@,
            tpp: self.tpp@,
            off_reb: self.off_reb@,
            def_reb: self.def_reb@,
            tot_reb: self.tot_reb@,
            assists: self.assists@,
            p_fouls: self.p_fouls@,
            steals: self.steals@,
            turnovers: self.turnovers@,
            blocks: self.blocks@,
            plus_minus: self.plus_minus@,
            min: self.min@,
            short_timeout_remaining: text_view(self.short_timeout_remaining),
            full_timeout_remaining: text_view(self.full_timeout_remaining),
            team_fouls: text_view(self.team_fouls),
        }
    }
}

/// The totals of a side of which the feed reports none: every statistic
/// reads `0`, and the three that may be absent are absent.
pub open spec fn zero_totals() -> TotalsView {
    TotalsView {
        points: "0"@,
        fgm: "0"@,
        fga: "0"@,
        fgp: "0"@,
        ftm: "0"@,
        fta: "0"@,
        ftp: "0"@,
        tpm: "0"@,
        tpa: "0"@,
        tpp: "0"@,
        off_reb: "0"@,
        def_reb: "0"@,
        tot_reb: "0"@,
        assists: "0"@,
        p_fouls: "0"@,
        steals: "0"@,
        turnovers: "0"@,
        blocks: "0"@,
        plus_minus: "0"@,
        min: "0"@,
        short_timeout_remaining: None,
        full_timeout_remaining: None,
        team_fouls: None,
    }
}

/// Whether a value has the shape of totals: a text under each statistic's
/// name; the timeouts left and the team fouls may be missing or `null`.
pub open spec fn totals_ok(j: JsonValue) -> bool {
    &&& j.text_at("points"@) is Some
    &&& j.text_at("fgm"@) is Some
    &&& j.text_at("fga"@) is Some
    &&& j.text_at("fgp"@) is Some
    &&& j.text_at("ftm"@) is Some
    &&& j.text_at("fta"@) is Some
    &&& j.text_at("ftp"@) is Some
    &&& j.text_at("tpm"@) is Some
    &&& j.text_at("tpa"@) is Some
    &&& j.text_at("tpp"@) is Some
    &&& j.text_at("offReb"@) is Some
    &&& j.text_at("defReb"@) is Some
    &&& j.text_at("totReb"@) is Some
    &&& j.text_at("assists"@) is Some
    &&& j.text_at("pFouls"@) is Some
    &&& j.text_at("steals"@) is Some
    &&& j.text_at("turnovers"@) is Some
    &&& j.text_at("blocks"@) is Some
    &&& j.text_at("plusMinus"@) is Some
    &&& j.text_at("min"@) is Some
    &&& j.optional_text_at("shortTimeoutRemaining"@) is Some
    &&& j.optional_text_at("fullTimeoutRemaining"@) is Some
    &&& j.optional_text_at("teamFouls"@) is Some
}

/// The totals that a value of that shape holds.
pub open spec fn totals_of(j: JsonValue) -> TotalsView {
    TotalsView {
        points: j.text_at("points"@)->0,
        fgm: j.text_at("fgm"@)->0,
        fga: j.text_at("fga"@)->0,
        fgp: j.text_at("fgp"@)->0,
        ftm: j.text_at("ftm"@)->0,
        fta: j.text_at("fta"@)->0,
        ftp: j.text_at("ftp"@)->0,
        tpm: j.text_at("tpm"@)->0,
        tpa: j.text_at("tpa"@)->0,
        tpp: j.text_at("tpp"@)->0,
        off_reb: j.text_at("offReb"@)->0,
        def_reb: j.text_at("defReb"@)->0,
        tot_reb: j.text_at("totReb"@)->0,
        assists: j.text_at("assists"@)->0,
        p_fouls: j.text_at("pFouls"@)->0,
        steals: j.text_at("steals"@)->0,
        turnovers: j.text_at("turnovers"@)->0,
        blocks: j.text_at("blocks"@)->0,
        plus_minus: j.text_at("plusMinus"@)->0,
        min: j.text_at("min"@)->0,
        short_timeout_remaining: j.optional_text_at("shortTimeoutRemaining"@)->0,
        full_timeout_remaining: j.optional_text_at("fullTimeoutRemaining"@)->0,
        team_fouls: j.optional_text_at("teamFouls"@)->0,
    }
}

impl Totals {
    /// The totals of a side of which the feed reports none.
    pub fn zero() -> (totals: Totals)
        ensures
            totals@ == zero_totals(),
    {
        Totals {
            points: "0".to_owned(),
            fgm: "0".to_owned(),
            fga: "0".to_owned(),
            fgp: "0".to_owned(),
            ftm: "0".to_owned(),
            fta: "0".to_owned(),
            ftp: "0".to_owned(),
            tpm: "0".to_owned(),
            tpa: "0".to_owned(),
            tpp: "0".to_owned(),
            off_reb: "0".to_owned(),
            def_reb: "0".to_owned(),
            tot_reb: "0".to_owned(),
            assists: "0".to_owned(),
            p_fouls: "0".to_owned(),
            steals: "0".to_owned(),
            turnovers: "0".to_owned(),
            blocks: "0".to_owned(),
            plus_minus: "0".to_owned(),
            min: "0".to_owned(),
            short_timeout_remaining: None,
            full_timeout_remaining: None,
            team_fouls: None,
        }
    }

    /// Decodes the totals of a side.
    pub fn from_json(json: &Json) -> (totals: Result<Totals, DecodeError>)
        ensures
            match totals {
                Ok(t) => totals_ok(json@) && t@ == totals_of(json@),
                Err(e) => e == DecodeError::Shape && !totals_ok(json@),
            },
    {
        let points = json.text_at("points")?;
        let fgm = json.text_at("fgm")?;
        let fga = json.text_at("fga")?;
        let fgp = json.text_at("fgp")?;
        let ftm = json.text_at("ftm")?;
        let fta = json.text_at("fta")?;
        let ftp = json.text_at("ftp")?;
        let tpm = json.text_at("tpm")?;
        let tpa = json.text_at("tpa")?;
        let tpp = json.text_at("tpp")?;
        let off_reb = json.text_at("offReb")?;
        let def_reb = json.text_at("defReb")?;
        let tot_reb = json.text_at("totReb")?;
        let assists = json.text_at("assists")?;
        let p_fouls = json.text_at("pFouls")?;
        let steals = json.text_at("steals")?;
        let turnovers = json.text_at("turnovers")?;
        let blocks = json.text_at("blocks")?;
        let plus_minus = json.text_at("plusMinus")?;
        let min = json.text_at("min")?;
        let short_timeout_remaining = json.optional_text_at("shortTimeoutRemaining")?;
        let full_timeout_remaining = json.optional_text_at("fullTimeoutRemaining")?;
        let team_fouls = json.optional_text_at("teamFouls")?;
        Ok(
            Totals {
                points,
                fgm,
                fga,
                fgp,
                ftm,
                fta,
                ftp,
                tpm,
                tpa,
                tpp,
                off_reb,
                def_reb,
                tot_reb,
                assists,
                p_fouls,
                steals,
                turnovers,
                blocks,
                plus_minus,
                min,
                short_timeout_remaining,
                full_timeout_remaining,
                team_fouls,
            },
        )
    }
}

/// The best of a side in one statistic: the value reached and the players
/// who reached it.
#[derive(Debug, PartialEq, Eq)]
pub struct Leader {
    pub value: String,
    pub players: Vec<Player>,
}

/// The mathematical value of a [`Leader`].
pub struct LeaderView {
    pub value: Seq<char>,
    pub players: Seq<PlayerView>,
}

impl View for Leader {
    type V = LeaderView;

    open spec fn view(&self) -> LeaderView {
        LeaderView { value: self.value@, players: player_views(self.players@) }
    }
}

/// Whether a value has the shape of a leader entry: a text `value` and an
/// array `players` of players.
pub open spec fn leader_ok(j: JsonValue) -> bool {
    &&& j.text_at("value"@) is Some
    &&& j.items_at("players"@) is Some
    &&& players_ok(j.items_at("players"@)->0)
}

/// The leader entry that a value of that shape holds.
pub open spec fn leader_of(j: JsonValue) -> LeaderView {
    LeaderView {
        value: j.text_at("value"@)->0,
        players: players_of(j.items_at("players"@)->0),
    }
}

/// Whether `j` has a member `key` with the shape of a leader entry.
pub open spec fn leader_at_ok(j: JsonValue, key: Seq<char>) -> bool {
    j.member(key) matches Some(entry) && leader_ok(entry)
}

impl Leader {
    /// Decodes a leader entry.
    pub fn from_json(json: &Json) -> (leader: Result<Leader, DecodeError>)
        ensures
            match leader {
                Ok(l) => leader_ok(json@) && l@ == leader_of(json@),
                Err(e) => e == DecodeError::Shape && !leader_ok(json@),
            },
    {
        let value = json.text_at("value")?;
        let items = json.items_at("players")?;
        let players = decode_players(items)?;
        Ok(Leader { value, players })
    }

    /// Decodes the leader entry stored under `key`.
    fn at(json: &Json, key: &str) -> (leader: Result<Leader, DecodeError>)
        ensures
            match leader {
                Ok(l) => leader_at_ok(json@, key@) && l@ == leader_of(json@.member(key@)->0),
                Err(e) => e == DecodeError::Shape && !leader_at_ok(json@, key@),
            },
    {
        match json.get(key) {
            Some(entry) => Leader::from_json(entry),
            None => Err(DecodeError::Shape),
        }
    }
}

/// The leaders of a side in points, rebounds and assists.
#[derive(Debug, PartialEq, Eq)]
pub struct Leaders {
    pub points: Leader,
    pub rebounds: Leader,
    pub assists: Leader,
}

/// The mathematical value of a [`Leaders`].
pub struct LeadersView {
    pub points: LeaderView,
    pub rebounds: LeaderView,
    pub assists: LeaderView,
}

impl View for Leaders {
    type V = LeadersView;

    open spec fn view(&self) -> LeadersView {
        LeadersView { points: self.points@, rebounds: self.rebounds@, assists: self.assists@ }
    }
}

/// Whether a value has the shape of a side's leaders: a leader entry under
/// each of `points`, `rebounds` and `assists`.
pub open spec fn leaders_ok(j: JsonValue) -> bool {
    &&& leader_at_ok(j, "points"@)
    &&& leader_at_ok(j, "rebounds"@)
    &&& leader_at_ok(j, "assists"@)
}

/// The leaders that a value of that shape holds.
pub open spec fn leaders_of(j: JsonValue) -> LeadersView {
    LeadersView {
        points: leader_of(j.member("points"@)->0),
        rebounds: leader_of(j.member("rebounds"@)->0),
        assists: leader_of(j.member("assists"@)->0),
    }
}

impl Leaders {
    /// Decodes the leaders of a side.
    pub fn from_json(json: &Json) -> (leaders: Result<Leaders, DecodeError>)
        ensures
            match leaders {
                Ok(l) => leaders_ok(json@) && l@ == leaders_of(json@),
                Err(e) => e == DecodeError::Shape && !leaders_ok(json@),
            },
    {
        let points = Leader::at(json, "points")?;
        let rebounds = Leader::at(json, "rebounds")?;
        let assists = Leader::at(json, "assists")?;
        Ok(Leaders { points, rebounds, assists })
    }
}

} // verus!
