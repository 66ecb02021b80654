use nba_scores::json::Json;
use nba_scores::pbp::{Period, Play};
use nba_scores::player::Player;
use nba_scores::text::{number_text, parse_decimal};
use nba_scores::ui::{
    column_width, headers, line_of_play, lines_of_plays, pad_left, rows_of_team,
    Row, CELL_WIDTH, COLUMNS,
};

fn player(id: &str, team: Option<&str>, rest: &str) -> Player {
    let team = match team {
        Some(t) => format!(",\"teamId\":\"{}\"", t),
        None => String::new(),
    };
    let text = format!(
        "{{\"personId\":\"{}\",\"firstName\":\"Jo\",\"lastName\":\"Day\"{}{}}}",
        id, team, rest
    );
    Player::from_json(&Json::parse(&text).unwrap()).unwrap()
}

#[test]
fn numbers_are_written_in_decimal() {
    assert_eq!(number_text(0), "0");
    assert_eq!(number_text(7), "7");
    assert_eq!(number_text(10), "10");
    assert_eq!(number_text(99), "99");
    assert_eq!(number_text(100), "100");
    assert_eq!(number_text(109), "109");
    assert_eq!(number_text(255), "255");
    for n in 0..=255u8 {
        assert_eq!(number_text(n), n.to_string());
        assert_eq!(parse_decimal(&number_text(n), 255), Some(n as u64));
    }
}

#[test]
fn padding_fills_in_front() {
    assert_eq!(pad_left("", 5), "     ");
    assert_eq!(pad_left("7", 5), "    7");
    assert_eq!(pad_left("12345", 5), "12345");
    assert_eq!(pad_left("123456", 5), "123456");
    assert_eq!(pad_left("ab", 0), "ab");
    assert_eq!(pad_left("é", 3), "  é");
    for text in ["", "0", "45.5", "35:10", "-12", "123456789"] {
        assert_eq!(pad_left(text, CELL_WIDTH), format!("{: >5}", text));
    }
}

#[test]
fn a_play_line_reads_like_the_feed() {
    let play = Play {
        clock: String::from("11:40"),
        description: String::from("Layup"),
        h_score: 102,
        v_score: 9,
        period: Period::Q3,
    };
    assert_eq!(line_of_play(&play), "Q3 11:40 | 102 - 9 | Layup");
    let play = Play {
        clock: String::new(),
        description: String::new(),
        h_score: 0,
        v_score: 0,
        period: Period::OT,
    };
    assert_eq!(line_of_play(&play), "OT  | 0 - 0 | ");
    assert_eq!(lines_of_plays(&vec![]), Vec::<String>::new());
    assert_eq!(lines_of_plays(&vec![play]), vec!["OT  | 0 - 0 | "]);
}

#[test]
fn a_row_has_one_cell_for_each_column() {
    let p = player(
        "1",
        Some("10"),
        ",\"pos\":\"G\",\"isOnCourt\":true,\"min\":\"35:10\",\"points\":\"30\",\
         \"totReb\":\"8\",\"assists\":\"4\",\"steals\":\"\",\"blocks\":\"1\",\"fgm\":\"10\",\
         \"fga\":\"20\",\"fgp\":\"50.0\",\"tpm\":\"2\",\"tpa\":\"6\",\"tpp\":\"33.3\",\
         \"ftm\":\"8\",\"fta\":\"9\",\"ftp\":\"88.9\",\"offReb\":\"1\",\"defReb\":\"7\",\
         \"turnovers\":\"2\",\"pFouls\":\"3\",\"plusMinus\":\"-6\"",
    );
    let row = Row::of_player(&p);
    assert!(row.on_court);
    assert_eq!(row.cells.len(), COLUMNS);
    assert_eq!(row.cells.len(), headers().len());
    assert_eq!(
        row.cells,
        vec![
            "Jo Day", "G", "35:10", "   30", "    8", "    4", "     ", "    1", "   10", "   20",
            " 50.0", "    2", "    6", " 33.3", "    8", "    9", " 88.9", "    1", "    7",
            "    2", "    3", "   -6",
        ]
    );
}

#[test]
fn a_row_without_statistics_shows_zeros() {
    let row = Row::of_player(&player("1", Some("10"), ""));
    assert!(!row.on_court);
    assert_eq!(row.cells[0], "Jo Day");
    assert_eq!(row.cells[1], "");
    for cell in &row.cells[2..] {
        assert_eq!(cell, "    0");
    }
    let off = Row::of_player(&player("1", None, ",\"isOnCourt\":false"));
    assert!(!off.on_court);
}

#[test]
fn the_table_lists_one_team() {
    let players = vec![
        player("1", Some("10"), ""),
        player("2", Some("20"), ""),
        player("3", None, ""),
        player("4", Some("10"), ",\"points\":\"12\""),
    ];
    let rows = rows_of_team(&players, "10");
    assert_eq!(rows.len(), 2);
    assert_eq!(rows[0], Row::of_player(&players[0]));
    assert_eq!(rows[1], Row::of_player(&players[3]));
    assert_eq!(rows[1].cells[3], "   12");
    assert_eq!(rows_of_team(&players, "30"), vec![]);
    assert_eq!(rows_of_team(&players, ""), vec![]);
    assert_eq!(rows_of_team(&vec![], "10"), vec![]);
}

#[test]
fn the_headers_name_the_columns() {
    let titles = headers();
    assert_eq!(titles.len(), 22);
    assert_eq!(titles[0], "Player");
    assert_eq!(titles[3], "Pts");
    assert_eq!(titles[21], "+/-");
    assert_eq!(column_width(0), 15);
    assert_eq!(column_width(1), 3);
    for column in 2..COLUMNS {
        assert_eq!(column_width(column), 5);
    }
}
