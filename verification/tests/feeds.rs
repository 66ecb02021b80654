use nba_scores::boxscore::Score;
use nba_scores::error::DecodeError;
use nba_scores::feeds::{box_score_url, play_by_play_url, ROSTER_URL, SCHEDULE_URL};
use nba_scores::json::Json;
use nba_scores::period::Period;
use nba_scores::player::Roster;
use nba_scores::watch::{Broadcast, Video, Watch};

fn video_text() -> String {
    String::from(
        "{\"regionalBlackoutCodes\":\"atl\",\"isLeaguePass\":true,\"isNationalBlackout\":false,\
         \"isTNTOT\":false,\"canPurchase\":true,\"isVR\":false,\"isNextVR\":true,\
         \"isNBAOnTNTVR\":false,\"isMagicLeap\":false,\"isOculusVenues\":true,\"extra\":[]}",
    )
}

#[test]
fn addresses_name_date_and_game() {
    assert_eq!(
        box_score_url("20210412", "0022000801"),
        "http://data.nba.com/prod/v1/20210412/0022000801_boxscore.json"
    );
    assert_eq!(
        play_by_play_url("20210412", "0022000801"),
        "http://data.nba.com/data/10s/json/cms/noseason/game/20210412/0022000801/pbp_all.json"
    );
    assert_eq!(box_score_url("", ""), "http://data.nba.com/prod/v1//_boxscore.json");
    assert_eq!(SCHEDULE_URL, "http://data.nba.com/prod/v1/2020/schedule.json");
    assert_eq!(ROSTER_URL, "http://data.nba.com/10s//prod/v1/2020/players.json");
}

#[test]
fn roster_text_decodes() {
    let text = "{\"league\":{\"standard\":[{\"personId\":\"1\",\"firstName\":\"A\",\
                \"lastName\":\"B\",\"teamId\":\"7\"}],\"africa\":[]}}";
    let roster = Roster::new(text).unwrap();
    assert_eq!(roster.players.len(), 1);
    assert_eq!(roster.players[0].team_id.as_deref(), Some("7"));
    assert_eq!(Roster::new("["), Err(DecodeError::Syntax));
    assert_eq!(Roster::new("[]"), Err(DecodeError::Shape));
    assert_eq!(Roster::new("{\"league\":{\"standard\":[1]}}"), Err(DecodeError::Shape));
}

#[test]
fn a_quarter_score_is_a_text() {
    let json = Json::parse("{\"score\":\"28\"}").unwrap();
    assert_eq!(Score::from_json(&json), Ok(Score { score: String::from("28") }));
    let json = Json::parse("{\"score\":28}").unwrap();
    assert_eq!(Score::from_json(&json), Err(DecodeError::Shape));
    assert_eq!(Score::from_json(&Json::Array(vec![])), Err(DecodeError::Shape));
}

#[test]
fn a_period_record_decodes() {
    let json = Json::parse(
        "{\"current\":4,\"type\":1,\"maxRegular\":4,\"isHalftime\":false,\"isEndOfPeriod\":true}",
    )
    .unwrap();
    assert_eq!(
        Period::from_json(&json),
        Ok(Period {
            current: 4,
            kind: 1,
            max_regular: 4,
            is_halftime: Some(false),
            is_end_of_period: Some(true)
        })
    );
    let json = Json::parse("{\"current\":4.5,\"type\":1,\"maxRegular\":4}").unwrap();
    assert_eq!(Period::from_json(&json), Err(DecodeError::Shape));
    let json = Json::parse("{\"current\":\"4\",\"type\":1,\"maxRegular\":4}").unwrap();
    assert_eq!(Period::from_json(&json), Err(DecodeError::Shape));
    let json = Json::parse("{\"current\":4,\"type\":1,\"maxRegular\":4,\"isHalftime\":0}").unwrap();
    assert_eq!(Period::from_json(&json), Err(DecodeError::Shape));
    let holder = Json::parse("{\"p\":{\"current\":1,\"type\":0,\"maxRegular\":4}}").unwrap();
    assert_eq!(Period::at(&holder, "p").map(|p| p.current), Ok(1));
    assert_eq!(Period::at(&holder, "q"), Err(DecodeError::Shape));
}

#[test]
fn a_watch_record_decodes() {
    let text = format!("{{\"broadcast\":{{\"video\":{},\"audio\":{{}}}}}}", video_text());
    let watch = Watch::from_json(&Json::parse(&text).unwrap()).unwrap();
    assert_eq!(
        watch,
        Watch {
            broadcast: Broadcast {
                video: Video {
                    regional_blackout_codes: String::from("atl"),
                    is_league_pass: true,
                    is_national_blackout: false,
                    is_tntot: false,
                    can_purchase: true,
                    is_vr: false,
                    is_next_vr: true,
                    is_nba_on_tnt_vr: false,
                    is_magic_leap: false,
                    is_oculus_venues: true,
                }
            }
        }
    );
}

#[test]
fn a_watch_record_needs_every_flag() {
    for key in [
        "regionalBlackoutCodes",
        "isLeaguePass",
        "isNationalBlackout",
        "isTNTOT",
        "canPurchase",
        "isVR\"",
        "isNextVR",
        "isNBAOnTNTVR",
        "isMagicLeap",
        "isOculusVenues",
    ] {
        let broken = video_text().replacen(key, "other", 1).replace("other:", "other\":");
        let json = Json::parse(&broken).unwrap();
        assert_eq!(Video::from_json(&json), Err(DecodeError::Shape));
    }
    let json = Json::parse("{\"broadcast\":{}}").unwrap();
    assert_eq!(Watch::from_json(&json), Err(DecodeError::Shape));
    let json = Json::parse("{}").unwrap();
    assert_eq!(Watch::from_json(&json), Err(DecodeError::Shape));
    let flag_as_text = video_text().replace("\"isVR\":false", "\"isVR\":\"no\"");
    assert_eq!(Video::from_json(&Json::parse(&flag_as_text).unwrap()), Err(DecodeError::Shape));
}
