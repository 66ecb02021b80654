use nba_scores::error::DecodeError;
use nba_scores::json::Json;
use nba_scores::pbp::{normal_clock, Period, Play, PlayByPlay};

fn play_text(clock: &str, period: &str, home: &str, visitor: &str, what: &str) -> String {
    format!(
        "{{\"clock\":\"{}\",\"description\":\"{}\",\"home_score\":\"{}\",\
         \"visitor_score\":\"{}\",\"period\":\"{}\",\"event\":\"12\"}}",
        clock, what, home, visitor, period
    )
}

fn pbp_text(plays: &[String]) -> String {
    format!("{{\"sports_content\":{{\"game\":{{\"id\":\"1\",\"play\":[{}]}}}}}}", plays.join(","))
}

#[test]
fn period_text_names_quarters_and_overtime() {
    assert_eq!(Period::from_text("1"), Period::Q1);
    assert_eq!(Period::from_text("2"), Period::Q2);
    assert_eq!(Period::from_text("3"), Period::Q3);
    assert_eq!(Period::from_text("4"), Period::Q4);
    for other in ["5", "6", "", "OT", "0", "01", "1 ", "Q1", "11", "x"] {
        assert_eq!(Period::from_text(other), Period::OT);
    }
}

#[test]
fn period_labels() {
    assert_eq!(Period::Q1.label(), "Q1");
    assert_eq!(Period::Q2.label(), "Q2");
    assert_eq!(Period::Q3.label(), "Q3");
    assert_eq!(Period::Q4.label(), "Q4");
    assert_eq!(Period::OT.label(), "OT");
}

#[test]
fn an_empty_clock_is_the_start_of_the_period() {
    assert_eq!(normal_clock(String::new()), "12:00");
    assert_eq!(normal_clock(String::from("11:43")), "11:43");
    assert_eq!(normal_clock(String::from(" ")), " ");
    assert_eq!(normal_clock(String::from("0.0")), "0.0");
}

#[test]
fn play_decodes_with_defaults() {
    let json = Json::parse(&play_text("", "5", "", "abc", "Jump ball")).unwrap();
    assert_eq!(
        Play::from_json(&json),
        Ok(Play {
            clock: String::from("12:00"),
            description: String::from("Jump ball"),
            h_score: 0,
            v_score: 0,
            period: Period::OT,
        })
    );
    let json = Json::parse(&play_text("03:21", "2", "54", "49", "Made shot")).unwrap();
    assert_eq!(
        Play::from_json(&json),
        Ok(Play {
            clock: String::from("03:21"),
            description: String::from("Made shot"),
            h_score: 54,
            v_score: 49,
            period: Period::Q2,
        })
    );
}

#[test]
fn play_needs_every_field_as_text() {
    let good = play_text("1:00", "1", "2", "3", "x");
    for key in ["clock", "description", "home_score", "visitor_score", "period"] {
        let broken = good.replace(key, "other");
        assert_eq!(Play::from_json(&Json::parse(&broken).unwrap()), Err(DecodeError::Shape));
    }
    let broken = good.replace("\"period\":\"1\"", "\"period\":1");
    assert_eq!(Play::from_json(&Json::parse(&broken).unwrap()), Err(DecodeError::Shape));
}

#[test]
fn plays_keep_the_order_of_the_feed() {
    let text = pbp_text(&[
        play_text("12:00", "1", "0", "0", "Start"),
        play_text("11:40", "1", "2", "0", "Layup"),
        play_text("11:41", "1", "2", "3", "Three"),
    ]);
    let pbp = PlayByPlay::new(&text).unwrap();
    let what: Vec<&str> = pbp.plays.iter().map(|p| p.description.as_str()).collect();
    assert_eq!(what, vec!["Start", "Layup", "Three"]);
    assert_eq!(pbp.plays[2].v_score, 3);
}

#[test]
fn a_missing_play_list_is_empty() {
    let pbp = PlayByPlay::new("{\"sports_content\":{\"game\":{}}}").unwrap();
    assert_eq!(pbp.plays, vec![]);
    let pbp = PlayByPlay::new("{\"sports_content\":{\"game\":{\"play\":null}}}").unwrap();
    assert_eq!(pbp.plays, vec![]);
    let pbp = PlayByPlay::new("{\"sports_content\":{\"game\":{\"play\":[]}}}").unwrap();
    assert_eq!(pbp.plays, vec![]);
}

#[test]
fn play_by_play_refuses_a_malformed_payload() {
    assert_eq!(PlayByPlay::new("{\"sports_content\""), Err(DecodeError::Syntax));
    assert_eq!(PlayByPlay::new("{}"), Err(DecodeError::Shape));
    assert_eq!(PlayByPlay::new("{\"sports_content\":{}}"), Err(DecodeError::Shape));
    assert_eq!(PlayByPlay::new("{\"sports_content\":{\"game\":7}}"), Err(DecodeError::Shape));
    assert_eq!(PlayByPlay::new("{\"sports_content\":{\"game\":null}}"), Err(DecodeError::Shape));
    assert_eq!(
        PlayByPlay::new("{\"sports_content\":{\"game\":{\"play\":{}}}}"),
        Err(DecodeError::Shape)
    );
    assert_eq!(
        PlayByPlay::new("{\"sports_content\":{\"game\":{\"play\":[{}]}}}"),
        Err(DecodeError::Shape)
    );
    let doc = Json::parse("{\"sports_content\":{\"game\":[]}}").unwrap();
    assert_eq!(PlayByPlay::from_json(&doc), Err(DecodeError::Shape));
}
