use nba_scores::date::{date_or, date_or_today, today};
use nba_scores::nav::{StatefulList, TabTeam, TabsState, TAB_NUM};
use nba_scores::signal::RandomSignal;

#[test]
fn a_new_list_has_no_cursor() {
    let list = StatefulList::with_items(vec![1, 2, 3]);
    assert_eq!(list.selected(), None);
    assert_eq!(list.state.selected(), None);
    assert_eq!(list.items, vec![1, 2, 3]);
}

#[test]
fn previous_from_unset_goes_to_the_first_item() {
    let mut list = StatefulList::with_items(vec!['a', 'b', 'c']);
    list.previous();
    assert_eq!(list.selected(), Some(0));
}

#[test]
fn previous_from_the_first_item_goes_to_the_last() {
    let mut list = StatefulList::with_items(vec!['a', 'b', 'c']);
    list.next();
    assert_eq!(list.selected(), Some(0));
    list.previous();
    assert_eq!(list.selected(), Some(2));
    list.previous();
    assert_eq!(list.selected(), Some(1));
}

#[test]
fn next_from_the_last_item_goes_to_the_first() {
    let mut list = StatefulList::with_items(vec!['a', 'b', 'c']);
    list.next();
    list.next();
    list.next();
    assert_eq!(list.selected(), Some(2));
    list.next();
    assert_eq!(list.selected(), Some(0));
}

#[test]
fn a_list_of_one_item_stays_on_it() {
    let mut list = StatefulList::with_items(vec![7]);
    list.next();
    assert_eq!(list.selected(), Some(0));
    list.next();
    assert_eq!(list.selected(), Some(0));
    list.previous();
    assert_eq!(list.selected(), Some(0));
}

#[test]
fn an_empty_list_has_nothing_to_select() {
    let mut list: StatefulList<u8> = StatefulList::with_items(vec![]);
    list.next();
    assert_eq!(list.selected(), None);
    list.previous();
    assert_eq!(list.selected(), None);
    list.state.select(Some(4));
    list.next();
    assert_eq!(list.selected(), None);
}

#[test]
fn a_cursor_beyond_the_end_comes_back() {
    let mut list = StatefulList::with_items(vec![1, 2, 3]);
    list.state.select(Some(10));
    list.next();
    assert_eq!(list.selected(), Some(0));
    list.state.select(Some(10));
    list.previous();
    assert_eq!(list.selected(), Some(9));
}

#[test]
fn tabs_go_round() {
    let mut tabs = TabsState::new(["Game", "Boxscore"]);
    assert_eq!(tabs.index, 0);
    assert_eq!(tabs.team, TabTeam::Home);
    assert_eq!(tabs.titles, ["Game", "Boxscore"]);
    tabs.next();
    assert_eq!(tabs.index, 1);
    tabs.next();
    assert_eq!(tabs.index, 0);
    tabs.previous();
    assert_eq!(tabs.index, 1);
    tabs.previous();
    assert_eq!(tabs.index, 0);
    assert_eq!(TAB_NUM, 2);
}

#[test]
fn tabs_never_overflow() {
    let mut tabs = TabsState::new(["a", "b"]);
    tabs.index = usize::MAX;
    tabs.next();
    assert_eq!(tabs.index, 0);
    tabs.index = 7;
    tabs.next();
    assert_eq!(tabs.index, 0);
    tabs.index = 7;
    tabs.previous();
    assert_eq!(tabs.index, 6);
}

#[test]
fn the_team_toggles() {
    let mut tabs = TabsState::new(["a", "b"]);
    tabs.next_team();
    assert_eq!(tabs.team, TabTeam::Visitor);
    assert_eq!(tabs.index, 0);
    tabs.next_team();
    assert_eq!(tabs.team, TabTeam::Home);
    assert_eq!(TabTeam::Home.position(), 0);
    assert_eq!(TabTeam::Visitor.position(), 1);
}

#[test]
fn the_signal_is_flat() {
    let mut signal = RandomSignal::new();
    assert_eq!(signal.value, 50);
    assert_eq!(signal.next(), Some(50));
    assert_eq!(signal.next(), Some(50));
    assert_eq!(signal, RandomSignal::new());
}

#[test]
fn the_date_asked_for_wins() {
    assert_eq!(date_or(Some("20210412"), String::from("20210101")), "20210412");
    assert_eq!(date_or(None, String::from("20210101")), "20210101");
    assert_eq!(date_or_today(Some("20210412")), "20210412");
    assert_eq!(date_or_today(None).len(), today().len());
}

#[test]
fn today_is_eight_digits() {
    let date = today();
    assert_eq!(date.len(), 8);
    assert!(date.chars().all(|c| c.is_ascii_digit()));
    assert!(date.as_str() > "20200101");
}
