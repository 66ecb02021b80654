use nba_scores::app::{Action, App, Command, Event, Key};
use nba_scores::boxscore::BoxScore;
use nba_scores::pbp::PlayByPlay;
use nba_scores::nav::TabTeam;

fn press(key: Key) -> Event {
    Event::Input { key, shift: false }
}

fn shifted(key: Key) -> Event {
    Event::Input { key, shift: true }
}

fn sample_app() -> App<'static> {
    let team = |id: &str, code: &str| {
        format!(
            "{{\"teamId\":\"{}\",\"triCode\":\"{}\",\"win\":\"1\",\"loss\":\"2\",\"score\":\"3\",\
             \"linescore\":[]}}",
            id, code
        )
    };
    let boxscore = format!(
        "{{\"basicGameData\":{{\"clock\":\"\",\"period\":{{\"current\":1,\"type\":0,\
         \"maxRegular\":4}},\"vTeam\":{},\"hTeam\":{}}},\"stats\":{{\"timesTied\":\"0\",\
         \"leadChanges\":\"0\",\"vTeam\":{{\"longestRun\":\"0\"}},\
         \"hTeam\":{{\"longestRun\":\"0\"}},\"activePlayers\":[{}]}}}}",
        team("20", "VIS"),
        team("10", "HOM"),
        [
            "{\"personId\":\"1\",\"firstName\":\"Vic\",\"lastName\":\"One\",\"teamId\":\"20\",\
             \"isOnCourt\":true}",
            "{\"personId\":\"2\",\"firstName\":\"Ann\",\"lastName\":\"Home\",\"teamId\":\"10\",\
             \"points\":\"12\"}",
            "{\"personId\":\"3\",\"firstName\":\"Val\",\"lastName\":\"Two\",\"teamId\":\"20\"}",
        ]
        .join(",")
    );
    let play = |what: &str| {
        format!(
            "{{\"clock\":\"1:00\",\"description\":\"{}\",\"home_score\":\"1\",\
             \"visitor_score\":\"2\",\"period\":\"1\"}}",
            what
        )
    };
    let plays = format!(
        "{{\"sports_content\":{{\"game\":{{\"play\":[{},{},{}]}}}}}}",
        play("a"),
        play("b"),
        play("c")
    );
    App::new(
        "NBAScores",
        true,
        BoxScore::new(&boxscore, None).unwrap(),
        PlayByPlay::new(&plays).unwrap(),
    )
}

#[test]
fn a_new_app_opens_on_the_game_tab() {
    let app = sample_app();
    assert_eq!(app.title, "NBAScores");
    assert_eq!(app.tabs.titles, ["Game", "Boxscore"]);
    assert_eq!(app.tabs.index, 0);
    assert_eq!(app.tabs.team, TabTeam::Home);
    assert!(app.enhanced_graphics);
    assert!(app.show_chart);
    assert_eq!(app.plays.items.len(), 3);
    assert_eq!(app.plays.selected(), None);
    assert_eq!(app.get_current_team(), "10");
}

#[test]
fn the_team_switches_only_on_the_box_score_tab() {
    let mut app = sample_app();
    app.next_team();
    assert_eq!(app.tabs.team, TabTeam::Home);
    assert_eq!(app.tabs.index, 0);
    app.on_right();
    assert_eq!(app.tabs.index, 1);
    app.next_team();
    assert_eq!(app.tabs.team, TabTeam::Visitor);
    assert_eq!(app.get_current_team(), "20");
    app.next_team();
    assert_eq!(app.tabs.team, TabTeam::Home);
    app.next_team();
    app.on_left();
    assert_eq!(app.tabs.index, 0);
    app.next_team();
    assert_eq!(app.tabs.team, TabTeam::Visitor);
}

#[test]
fn the_table_follows_the_chosen_side() {
    let mut app = sample_app();
    assert_eq!(app.rows().len(), 1);
    assert_eq!(app.rows()[0].cells[0], "Ann Home");
    assert_eq!(app.rows()[0].cells[3], "   12");
    app.on_right();
    app.next_team();
    let rows = app.rows();
    assert_eq!(rows.len(), 2);
    assert_eq!(rows[0].cells[0], "Vic One");
    assert_eq!(rows[1].cells[0], "Val Two");
    assert!(rows[0].on_court);
    assert!(!rows[1].on_court);
}

#[test]
fn up_and_down_move_the_cursor() {
    let mut app = sample_app();
    app.on_up();
    assert_eq!(app.plays.selected(), Some(0));
    app.on_up();
    assert_eq!(app.plays.selected(), Some(2));
    app.on_down();
    assert_eq!(app.plays.selected(), Some(0));
    app.on_down();
    assert_eq!(app.plays.selected(), Some(1));
    assert_eq!(app.tabs.index, 0);
}

#[test]
fn the_chart_key_toggles_the_chart() {
    let mut app = sample_app();
    app.on_key('t');
    assert!(!app.show_chart);
    app.on_key('t');
    assert!(app.show_chart);
    app.on_key('x');
    app.on_key('T');
    assert!(app.show_chart);
    app.on_tick();
    assert!(app.show_chart);
    assert_eq!(app.tabs.index, 0);
    assert_eq!(app.plays.selected(), None);
}

#[test]
fn events_stand_for_commands() {
    assert_eq!(press(Key::Char('q')).command(), Command::Quit);
    assert_eq!(press(Key::Left).command(), Command::PreviousTab);
    assert_eq!(press(Key::Char('l')).command(), Command::PreviousTab);
    assert_eq!(press(Key::Right).command(), Command::NextTab);
    assert_eq!(press(Key::Char('h')).command(), Command::NextTab);
    assert_eq!(press(Key::Up).command(), Command::CursorUp);
    assert_eq!(press(Key::Char('k')).command(), Command::CursorUp);
    assert_eq!(press(Key::Down).command(), Command::CursorDown);
    assert_eq!(press(Key::Char('j')).command(), Command::CursorDown);
    assert_eq!(press(Key::Char('t')).command(), Command::Key('t'));
    assert_eq!(press(Key::Char('L')).command(), Command::Key('L'));
    assert_eq!(press(Key::Other).command(), Command::Nothing);
    assert_eq!(shifted(Key::Left).command(), Command::SwitchTeam);
    assert_eq!(shifted(Key::Right).command(), Command::SwitchTeam);
    assert_eq!(shifted(Key::Char('L')).command(), Command::SwitchTeam);
    assert_eq!(shifted(Key::Char('H')).command(), Command::SwitchTeam);
    assert_eq!(shifted(Key::Char('q')).command(), Command::Nothing);
    assert_eq!(shifted(Key::Char('l')).command(), Command::Nothing);
    assert_eq!(shifted(Key::Up).command(), Command::Nothing);
    assert_eq!(shifted(Key::Other).command(), Command::Nothing);
    assert_eq!(Event::Mouse.command(), Command::Nothing);
    assert_eq!(Event::Tick.command(), Command::Tick);
}

#[test]
fn only_q_ends_the_idle_screen() {
    assert_eq!(press(Key::Char('q')).idle_action(), Action::Quit);
    assert_eq!(shifted(Key::Char('q')).idle_action(), Action::Quit);
    assert_eq!(press(Key::Char('Q')).idle_action(), Action::Continue);
    assert_eq!(press(Key::Left).idle_action(), Action::Continue);
    assert_eq!(Event::Tick.idle_action(), Action::Continue);
    assert_eq!(Event::Mouse.idle_action(), Action::Continue);
}

#[test]
fn events_drive_the_app() {
    let mut app = sample_app();
    assert_eq!(app.on_event(press(Key::Right)), Action::Continue);
    assert_eq!(app.tabs.index, 1);
    assert_eq!(app.on_event(shifted(Key::Left)), Action::Continue);
    assert_eq!(app.tabs.team, TabTeam::Visitor);
    assert_eq!(app.on_event(press(Key::Down)), Action::Continue);
    assert_eq!(app.on_event(press(Key::Char('j'))), Action::Continue);
    assert_eq!(app.plays.selected(), Some(1));
    assert_eq!(app.on_event(press(Key::Char('k'))), Action::Continue);
    assert_eq!(app.plays.selected(), Some(0));
    assert_eq!(app.on_event(press(Key::Char('t'))), Action::Continue);
    assert!(!app.show_chart);
    assert_eq!(app.on_event(Event::Tick), Action::Continue);
    assert_eq!(app.on_event(Event::Mouse), Action::Continue);
    assert_eq!(app.on_event(press(Key::Char('l'))), Action::Continue);
    assert_eq!(app.tabs.index, 0);
    assert_eq!(app.on_event(press(Key::Char('q'))), Action::Quit);
    assert_eq!(app.tabs.index, 0);
    assert_eq!(app.tabs.team, TabTeam::Visitor);
    assert_eq!(app.plays.selected(), Some(0));
    assert_eq!(app.apply(Command::Nothing), Action::Continue);
    assert_eq!(app.apply(Command::Quit), Action::Quit);
}
