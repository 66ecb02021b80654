//! The addresses of the feeds.

use vstd::prelude::*;
use vstd::string::*;

verus! {

/// Where the season schedule is read from.
pub const SCHEDULE_URL: &'static str = "http://data.nba.com/prod/v1/2020/schedule.json";

/// Where the league roster is read from.
pub const ROSTER_URL: &'static str = "http://data.nba.com/10s//prod/v1/2020/players.json";

/// The address of the box score of a game: the feed's root, the date as
/// `yyyymmdd`, and a file named after the game.
pub open spec fn box_score_address(date: Seq<char>, game_id: Seq<char>) -> Seq<char> {
    "http://data.nba.com/prod/v1/"@ + date + "/"@ + game_id + "_boxscore.json"@
}

/// The address of the play-by-play of a game: the feed's root, the date as
/// `yyyymmdd`, the game, and the name of the file.
pub open spec fn play_by_play_address(date: Seq<char>, game_id: Seq<char>) -> Seq<char> {
    "http://data.nba.com/data/10s/json/cms/noseason/game/"@ + date + "/"@ + game_id
        + "/pbp_all.json"@
}

/// Writes the address of the box score of a game.
pub fn box_score_url(date: &str, game_id: &str) -> (url: String)
    ensures
        url@ == box_score_address(date@, game_id@),
{
    let mut url = "http://data.nba.com/prod/v1/".to_owned();
    url.append(date);
    url.append("/");
    url.append(game_id);
    url.append("_boxscore.json");
    url
}

/// Writes the address of the play-by-play of a game.
pub fn play_by_play_url(date: &str, game_id: &str) -> (url: String)
    ensures
        url@ == play_by_play_address(date@, game_id@),
{
    let mut url = "http://data.nba.com/data/10s/json/cms/noseason/game/".to_owned();
    url.append(date);
    url.append("/");
    url.append(game_id);
    url.append("/pbp_all.json");
    url
}

} // verus!
