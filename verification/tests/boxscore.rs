use nba_scores::boxscore::{BoxScore, Playoffs, Team};
use nba_scores::error::DecodeError;
use nba_scores::json::Json;
use nba_scores::player::{stat_number, stat_text, Player, Roster};
use nba_scores::totals::{Leader, Leaders, Totals};

const HOME: &str = "1610612737";
const AWAY: &str = "1610612738";

fn team_text(id: &str, code: &str, quarters: &[&str]) -> String {
    let line: Vec<String> = quarters.iter().map(|q| format!("{{\"score\":\"{}\"}}", q)).collect();
    format!(
        "{{\"teamId\":\"{}\",\"triCode\":\"{}\",\"win\":\"30\",\"loss\":\"\",\"score\":\"x\",\
         \"linescore\":[{}]}}",
        id,
        code,
        line.join(",")
    )
}

fn basic_text(extra: &str) -> String {
    format!(
        "\"basicGameData\":{{\"clock\":\"5:32\",{}\"period\":{{\"current\":2,\"type\":0,\
         \"maxRegular\":4,\"isHalftime\":false}},\"vTeam\":{},\"hTeam\":{}}}",
        extra,
        team_text(AWAY, "BOS", &["20", "18"]),
        team_text(HOME, "ATL", &["25", "31"])
    )
}

fn player_text(id: &str, first: &str, team: &str, rest: &str) -> String {
    format!(
        "{{\"personId\":\"{}\",\"firstName\":\"{}\",\"lastName\":\"Doe\",\"teamId\":\"{}\",\
         \"pos\":\"G\"{}}}",
        id, first, team, rest
    )
}

fn roster_text() -> String {
    format!(
        "{{\"league\":{{\"standard\":[{},{},{},{},{}]}}}}",
        player_text("1", "Al", AWAY, ""),
        player_text("2", "Bo", HOME, ""),
        player_text("3", "Cy", "1610612739", ""),
        player_text("4", "Di", HOME, ""),
        player_text("5", "Ed", AWAY, "")
    )
}

fn totals_text() -> String {
    String::from(
        "{\"points\":\"112\",\"fgm\":\"40\",\"fga\":\"88\",\"fgp\":\"45.5\",\"ftm\":\"20\",\
         \"fta\":\"25\",\"ftp\":\"80.0\",\"tpm\":\"12\",\"tpa\":\"30\",\"tpp\":\"40.0\",\
         \"offReb\":\"10\",\"defReb\":\"35\",\"totReb\":\"45\",\"assists\":\"25\",\
         \"pFouls\":\"18\",\"steals\":\"7\",\"turnovers\":\"12\",\"blocks\":\"5\",\
         \"plusMinus\":\"-4\",\"min\":\"240:00\",\"teamFouls\":\"3\"}",
    )
}

fn leaders_text() -> String {
    let entry = format!(
        "{{\"value\":\"31\",\"players\":[{}]}}",
        "{\"personId\":\"2\",\"firstName\":\"Bo\",\"lastName\":\"Doe\"}"
    );
    format!("{{\"points\":{0},\"rebounds\":{0},\"assists\":{0}}}", entry)
}

fn stats_text(home_extra: &str) -> String {
    format!(
        "\"stats\":{{\"timesTied\":\"3\",\"leadChanges\":\"5\",\
         \"vTeam\":{{\"longestRun\":\"8\"}},\"hTeam\":{{\"longestRun\":\"10\"{}}},\
         \"activePlayers\":[{},{}]}}",
        home_extra,
        player_text("7", "Gus", AWAY, ",\"points\":\"21\",\"isOnCourt\":true,\"min\":\"\""),
        player_text("2", "Bo", HOME, ",\"points\":\"n/a\",\"isOnCourt\":false")
    )
}

#[test]
fn team_decodes_with_short_line_score() {
    let json = Json::parse(&team_text(HOME, "ATL", &["25", "31"])).unwrap();
    let team = Team::from_json(&json).unwrap();
    assert_eq!(team.team_id, HOME);
    assert_eq!(team.tri_code, "ATL");
    assert_eq!(team.win, 30);
    assert_eq!(team.loss, 0);
    assert_eq!(team.score, 0);
    assert_eq!(team.linescore, [25, 31, 0, 0]);
    assert_eq!(team.totals, Totals::zero());
    assert_eq!(team.leaders, None);
}

#[test]
fn line_score_always_has_four_slots() {
    let cases: [(&[&str], [u8; 4]); 6] = [
        (&[], [0, 0, 0, 0]),
        (&["1"], [1, 0, 0, 0]),
        (&["1", "2"], [1, 2, 0, 0]),
        (&["1", "2", "3"], [1, 2, 3, 0]),
        (&["1", "2", "3", "4"], [1, 2, 3, 4]),
        (&["1", "2", "3", "4", "5"], [1, 2, 3, 4]),
    ];
    for (quarters, expected) in cases {
        let json = Json::parse(&team_text(HOME, "ATL", quarters)).unwrap();
        assert_eq!(Team::from_json(&json).unwrap().linescore, expected);
    }
}

#[test]
fn line_score_reads_unreadable_quarters_as_zero() {
    let json = Json::parse(&team_text(HOME, "ATL", &["", "abc", "256", "33"])).unwrap();
    assert_eq!(Team::from_json(&json).unwrap().linescore, [0, 0, 0, 33]);
}

#[test]
fn team_needs_its_required_fields() {
    let good = team_text(HOME, "ATL", &["25"]);
    let no_score = good.replacen("\"score\":\"x\"", "\"other\":\"x\"", 1);
    assert_eq!(Team::from_json(&Json::parse(&no_score).unwrap()), Err(DecodeError::Shape));
    for key in ["teamId", "triCode", "win", "loss", "linescore"] {
        let broken = good.replacen(key, "other", 1);
        let json = Json::parse(&broken).unwrap();
        assert_eq!(Team::from_json(&json), Err(DecodeError::Shape));
    }
    let json = Json::parse(&good.replace("{\"score\":\"25\"}", "{\"score\":25}")).unwrap();
    assert_eq!(Team::from_json(&json), Err(DecodeError::Shape));
    let json = Json::parse(&good.replace("{\"score\":\"25\"}", "\"25\"")).unwrap();
    assert_eq!(Team::from_json(&json), Err(DecodeError::Shape));
    assert_eq!(Team::from_json(&Json::Null), Err(DecodeError::Shape));
}

#[test]
fn playoffs_read_seeds_leniently() {
    let text = "{\"roundNum\":\"1\",\"confName\":\"East\",\"seriesId\":\"10\",\
                \"isSeriesCompleted\":false,\"gameNumInSeries\":\"3\",\"isIfNecessary\":true,\
                \"vTeam\":{\"seedNum\":\"4\"},\"hTeam\":{\"seedNum\":\"\"}}";
    let playoffs = Playoffs::from_json(&Json::parse(text).unwrap()).unwrap();
    assert_eq!(
        playoffs,
        Playoffs {
            round_num: String::from("1"),
            conf_name: String::from("East"),
            series_id: String::from("10"),
            completed: false,
            num_in_series: String::from("3"),
            if_necessary: true,
            v_team_seed: 4,
            h_team_seed: 0,
        }
    );
    let broken = text.replace("\"isIfNecessary\":true", "\"isIfNecessary\":\"true\"");
    assert_eq!(Playoffs::from_json(&Json::parse(&broken).unwrap()), Err(DecodeError::Shape));
    let broken = text.replace("\"hTeam\":{\"seedNum\":\"\"}", "\"hTeam\":{}");
    assert_eq!(Playoffs::from_json(&Json::parse(&broken).unwrap()), Err(DecodeError::Shape));
}

#[test]
fn box_score_with_statistics_uses_its_own_players() {
    let text = format!("{{{},{}}}", basic_text(""), stats_text(""));
    let boxscore = BoxScore::new(&text, None).unwrap();
    assert_eq!(boxscore.players.len(), 2);
    assert_eq!(boxscore.players[0].first_name, "Gus");
    assert_eq!(boxscore.players[0].points, Some(String::from("21")));
    assert_eq!(boxscore.players[0].is_on_court, Some(true));
    assert_eq!(boxscore.players[1].first_name, "Bo");
    assert_eq!(boxscore.h_team.team_id, HOME);
    assert_eq!(boxscore.v_team.team_id, AWAY);
    assert_eq!(boxscore.clock, "5:32");
    assert_eq!(boxscore.period.current, 2);
    assert_eq!(boxscore.period.is_halftime, Some(false));
    assert_eq!(boxscore.period.is_end_of_period, None);
    assert_eq!(boxscore.playoffs, None);
    assert_eq!(boxscore.h_team.totals, Totals::zero());
    let with_roster = BoxScore::new(&text, Some("not even json")).unwrap();
    assert_eq!(with_roster, boxscore);
}

#[test]
fn statistics_that_are_no_numbers_count_zero() {
    let text = format!("{{{},{}}}", basic_text(""), stats_text(""));
    let boxscore = BoxScore::new(&text, None).unwrap();
    let gus = &boxscore.players[0];
    let bo = &boxscore.players[1];
    assert_eq!(stat_number(&gus.points), 21);
    assert_eq!(stat_number(&gus.min), 0);
    assert_eq!(stat_text(&gus.min), "");
    assert_eq!(stat_number(&bo.points), 0);
    assert_eq!(stat_text(&bo.points), "n/a");
    assert_eq!(stat_number(&bo.assists), 0);
    assert_eq!(stat_text(&bo.assists), "0");
}

#[test]
fn box_score_takes_totals_and_leaders_from_the_statistics() {
    let extra = format!(",\"totals\":{},\"leaders\":{}", totals_text(), leaders_text());
    let text = format!("{{{},{}}}", basic_text(""), stats_text(&extra));
    let boxscore = BoxScore::new(&text, None).unwrap();
    assert_eq!(boxscore.h_team.totals.points, "112");
    assert_eq!(boxscore.h_team.totals.fgp, "45.5");
    assert_eq!(boxscore.h_team.totals.plus_minus, "-4");
    assert_eq!(boxscore.h_team.totals.team_fouls, Some(String::from("3")));
    assert_eq!(boxscore.h_team.totals.short_timeout_remaining, None);
    let leaders = boxscore.h_team.leaders.as_ref().unwrap();
    assert_eq!(leaders.points.value, "31");
    assert_eq!(leaders.rebounds.players.len(), 1);
    assert_eq!(leaders.assists.players[0].person_id, "2");
    assert_eq!(boxscore.v_team.totals, Totals::zero());
    assert_eq!(boxscore.v_team.leaders, None);
    assert_eq!(boxscore.h_team.linescore, [25, 31, 0, 0]);
}

#[test]
fn malformed_totals_fail_the_box_score() {
    let extra = ",\"totals\":{\"points\":\"112\"}";
    let text = format!("{{{},{}}}", basic_text(""), stats_text(extra));
    assert_eq!(BoxScore::new(&text, None), Err(DecodeError::Shape));
    let extra = ",\"totals\":null,\"leaders\":null";
    let text = format!("{{{},{}}}", basic_text(""), stats_text(extra));
    assert_eq!(BoxScore::new(&text, None).map(|b| b.h_team.totals), Ok(Totals::zero()));
    let extra = ",\"leaders\":{\"points\":{\"value\":\"1\",\"players\":[]}}";
    let text = format!("{{{},{}}}", basic_text(""), stats_text(extra));
    assert_eq!(BoxScore::new(&text, None), Err(DecodeError::Shape));
}

#[test]
fn box_score_without_statistics_asks_for_the_roster() {
    let text = format!("{{{}}}", basic_text(""));
    assert_eq!(BoxScore::new(&text, None), Err(DecodeError::RosterRequired));
    let text = format!("{{{},\"stats\":null}}", basic_text(""));
    assert_eq!(BoxScore::new(&text, None), Err(DecodeError::RosterRequired));
}

#[test]
fn box_score_without_statistics_lists_home_then_visitors() {
    let text = format!("{{{}}}", basic_text(""));
    let boxscore = BoxScore::new(&text, Some(&roster_text())).unwrap();
    let ids: Vec<&str> = boxscore.players.iter().map(|p| p.person_id.as_str()).collect();
    assert_eq!(ids, vec!["2", "4", "1", "5"]);
    let home = Player::from_team_id(&Json::parse(&roster_text()).unwrap(), HOME).unwrap();
    let away = Player::from_team_id(&Json::parse(&roster_text()).unwrap(), AWAY).unwrap();
    let mut expected = home;
    expected.extend(away);
    assert_eq!(boxscore.players, expected);
    for player in &boxscore.players {
        assert_eq!(player.points, None);
        assert_eq!(stat_text(&player.points), "0");
        assert_eq!(stat_number(&player.points), 0);
        assert_eq!(player.min, None);
        assert_eq!(player.sort_key, None);
    }
    assert_eq!(boxscore.h_team.totals, Totals::zero());
}

#[test]
fn a_broken_roster_fails_the_box_score() {
    let text = format!("{{{}}}", basic_text(""));
    assert_eq!(BoxScore::new(&text, Some("{\"league\"")), Err(DecodeError::Syntax));
    assert_eq!(BoxScore::new(&text, Some("{\"league\":{}}")), Err(DecodeError::Shape));
    let broken = roster_text().replace("\"personId\":\"3\"", "\"personId\":3");
    assert_eq!(BoxScore::new(&text, Some(&broken)), Err(DecodeError::Shape));
}

#[test]
fn box_score_shape_is_checked_before_the_roster() {
    assert_eq!(BoxScore::new("{\"basicGameData\"", Some("{")), Err(DecodeError::Syntax));
    assert_eq!(BoxScore::new("{}", Some(&roster_text())), Err(DecodeError::Shape));
    assert_eq!(BoxScore::new("{}", None), Err(DecodeError::Shape));
    let no_clock = format!("{{{}}}", basic_text("").replace("\"clock\":\"5:32\",", ""));
    assert_eq!(BoxScore::new(&no_clock, None), Err(DecodeError::Shape));
    let no_period = format!("{{{}}}", basic_text("").replace("\"period\"", "\"periods\""));
    assert_eq!(BoxScore::new(&no_period, Some(&roster_text())), Err(DecodeError::Shape));
    let no_team = format!("{{{}}}", basic_text("").replace("\"vTeam\"", "\"visitor\""));
    assert_eq!(BoxScore::new(&no_team, None), Err(DecodeError::Shape));
    let bad_stats = format!("{{{},\"stats\":{{}}}}", basic_text(""));
    assert_eq!(BoxScore::new(&bad_stats, Some(&roster_text())), Err(DecodeError::Shape));
    let bad_stats = format!("{{{},\"stats\":7}}", basic_text(""));
    assert_eq!(BoxScore::new(&bad_stats, None), Err(DecodeError::Shape));
}

#[test]
fn box_score_reads_playoffs_when_present() {
    let playoffs = "\"playoffs\":{\"roundNum\":\"2\",\"confName\":\"West\",\"seriesId\":\"7\",\
                    \"isSeriesCompleted\":true,\"gameNumInSeries\":\"6\",\"isIfNecessary\":false,\
                    \"vTeam\":{\"seedNum\":\"2\"},\"hTeam\":{\"seedNum\":\"7\"}},";
    let text = format!("{{{},{}}}", basic_text(playoffs), stats_text(""));
    let boxscore = BoxScore::new(&text, None).unwrap();
    let found = boxscore.playoffs.unwrap();
    assert_eq!(found.round_num, "2");
    assert!(found.completed);
    assert_eq!(found.v_team_seed, 2);
    assert_eq!(found.h_team_seed, 7);
    let text = format!("{{{},{}}}", basic_text("\"playoffs\":{},"), stats_text(""));
    assert_eq!(BoxScore::new(&text, None), Err(DecodeError::Shape));
    let text = format!("{{{},{}}}", basic_text("\"playoffs\":null,"), stats_text(""));
    assert_eq!(BoxScore::new(&text, None).map(|b| b.playoffs), Ok(None));
}

#[test]
fn from_json_agrees_with_new() {
    let text = format!("{{{}}}", basic_text(""));
    let doc = Json::parse(&text).unwrap();
    let roster = Json::parse(&roster_text()).unwrap();
    assert_eq!(
        BoxScore::from_json(&doc, Some(&roster)),
        BoxScore::new(&text, Some(&roster_text()))
    );
    assert_eq!(BoxScore::from_json(&doc, None), Err(DecodeError::RosterRequired));
}

#[test]
fn roster_keeps_the_players_of_one_team_in_order() {
    let roster = Roster::from_json(&Json::parse(&roster_text()).unwrap()).unwrap();
    assert_eq!(roster.players.len(), 5);
    let home = roster.into_team(HOME);
    let names: Vec<&str> = home.iter().map(|p| p.first_name.as_str()).collect();
    assert_eq!(names, vec!["Bo", "Di"]);
    let nobody = Player::from_team_id(&Json::parse(&roster_text()).unwrap(), "0").unwrap();
    assert_eq!(nobody, Vec::<Player>::new());
}

#[test]
fn a_player_without_a_team_belongs_to_none() {
    let text = "{\"league\":{\"standard\":[{\"personId\":\"9\",\"firstName\":\"No\",\
                \"lastName\":\"Team\"},{\"personId\":\"8\",\"firstName\":\"Nul\",\
                \"lastName\":\"Team\",\"teamId\":null}]}}";
    let roster = Json::parse(text).unwrap();
    assert_eq!(Player::from_team_id(&roster, ""), Ok(vec![]));
    assert_eq!(Player::from_team_id(&roster, HOME), Ok(vec![]));
}

#[test]
fn leader_entries_decode() {
    let json = Json::parse(&leaders_text()).unwrap();
    let leaders = Leaders::from_json(&json).unwrap();
    assert_eq!(leaders.points.players[0].first_name, "Bo");
    let entry = Json::parse("{\"value\":\"3\",\"players\":[]}").unwrap();
    assert_eq!(
        Leader::from_json(&entry),
        Ok(Leader { value: String::from("3"), players: vec![] })
    );
    let entry = Json::parse("{\"value\":3,\"players\":[]}").unwrap();
    assert_eq!(Leader::from_json(&entry), Err(DecodeError::Shape));
}

#[test]
fn totals_decode_and_default() {
    let totals = Totals::from_json(&Json::parse(&totals_text()).unwrap()).unwrap();
    assert_eq!(totals.tot_reb, "45");
    assert_eq!(totals.min, "240:00");
    assert_eq!(totals.full_timeout_remaining, None);
    let zero = Totals::zero();
    assert_eq!(zero.points, "0");
    assert_eq!(zero.blocks, "0");
    assert_eq!(zero.min, "0");
    assert_eq!(zero.team_fouls, None);
}
