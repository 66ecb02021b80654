//! The play-by-play of one game: its plays in the order the feed lists them.

use crate::error::DecodeError;
use crate::json::{document_of, views, Json, JsonValue};
use crate::text::{parse_u8_or_zero, text_eq, u8_or_zero};
use vstd::prelude::*;

verus! {

/// The part of a game in which a play happened. Everything after the fourth
/// quarter is overtime.
#[derive(Debug, Clone, Copy, PartialEq, Eq, Structural)]
pub enum Period {
    Q1,
    Q2,
    Q3,
    Q4,
    OT,
}

/// The period that the feed's period text names: `1` to `4` name the four
/// quarters, and every other text, the empty one too, names overtime.
pub open spec fn period_named(text: Seq<char>) -> Period {
    if text.len() != 1 {
        Period::OT
    } else if text[0] == '1' {
        Period::Q1
    } else if text[0] == '2' {
        Period::Q2
    } else if text[0] == '3' {
        Period::Q3
    } else if text[0] == '4' {
        Period::Q4
    } else {
        Period::OT
    }
}

/// The two letters under which a period is shown.
pub open spec fn period_label(period: Period) -> Seq<char> {
    match period {
        Period::Q1 => seq!['Q', '1'],
        Period::Q2 => seq!['Q', '2'],
        Period::Q3 => seq!['Q', '3'],
        Period::Q4 => seq!['Q', '4'],
        Period::OT => seq!['O', 'T'],
    }
}

impl Period {
    /// The period that the feed's period text names.
    pub fn from_text(text: &str) -> (period: Period)
        ensures
            period == period_named(text@),
    {
        proof {
            reveal_strlit("1");
            reveal_strlit("2");
            reveal_strlit("3");
            reveal_strlit("4");
            if text@.len() == 1 {
                assert(text@ =~= seq![text@[0]]);
                assert("1"@ =~= seq!['1']);
                assert("2"@ =~= seq!['2']);
                assert("3"@ =~= seq!['3']);
                assert("4"@ =~= seq!['4']);
            }
        }
        if text_eq(text, "1") {
            Period::Q1
        } else if text_eq(text, "2") {
            Period::Q2
        } else if text_eq(text, "3") {
            Period::Q3
        } else if text_eq(text, "4") {
            Period::Q4
        } else {
            Period::OT
        }
    }

    /// The two letters under which the period is shown.
    pub fn label(&self) -> (label: &'static str)
        ensures
            label@ == period_label(*self),
    {
        proof {
            reveal_strlit("Q1");
            reveal_strlit("Q2");
            reveal_strlit("Q3");
            reveal_strlit("Q4");
            reveal_strlit("OT");
        }
        match self {
            Period::Q1 => "Q1",
            Period::Q2 => "Q2",
            Period::Q3 => "Q3",
            Period::Q4 => "Q4",
            Period::OT => "OT",
        }
    }
}

/// One play of a game.
#[derive(Debug, PartialEq, Eq)]
pub struct Play {
    pub clock: String,
    pub description: String,
    pub h_score: u8,
    pub v_score: u8,
    pub period: Period,
}

/// The mathematical value of a [`Play`].
pub struct PlayView {
    pub clock: Seq<char>,
    pub description: Seq<char>,
    pub h_score: u8,
    pub v_score: u8,
    pub period: Period,
}

impl View for Play {
    type V = PlayView;

    open spec fn view(&self) -> PlayView {
        PlayView {
            clock: self.clock@,
            description: self.description@,
            h_score: self.h_score,
            v_score: self.v_score,
            period: self.period,
        }
    }
}

/// The clock at the start of a period.
pub open spec fn full_clock() -> Seq<char> {
    seq!['1', '2', ':', '0', '0']
}

/// The clock of a play: what the feed wrote, or the start of the period
/// where it wrote nothing.
pub open spec fn clock_of(text: Seq<char>) -> Seq<char> {
    if text.len() == 0 {
        full_clock()
    } else {
        text
    }
}

/// Whether a value has the shape of a play: texts `clock`, `description`,
/// `home_score`, `visitor_score` and `period`.
pub open spec fn play_ok(j: JsonValue) -> bool {
    &&& j.text_at("clock"@) is Some
    &&& j.text_at("description"@) is Some
    &&& j.text_at("home_score"@) is Some
    &&& j.text_at("visitor_score"@) is Some
    &&& j.text_at("period"@) is Some
}

/// The play that a value of that shape describes; the scores are read
/// leniently.
pub open spec fn play_of(j: JsonValue) -> PlayView {
    PlayView {
        clock: clock_of(j.text_at("clock"@)->0),
        description: j.text_at("description"@)->0,
        h_score: u8_or_zero(j.text_at("home_score"@)->0),
        v_score: u8_or_zero(j.text_at("visitor_score"@)->0),
        period: period_named(j.text_at("period"@)->0),
    }
}

/// Normalises the clock of a play.
pub fn normal_clock(text: String) -> (clock: String)
    ensures
        clock@ == clock_of(text@),
{
    if text.as_str().is_empty() {
        proof {
            reveal_strlit("12:00");
        }
        "12:00".to_owned()
    } else {
        text
    }
}

impl Play {
    /// Decodes one play.
    pub fn from_json(json: &Json) -> (play: Result<Play, DecodeError>)
        ensures
            match play {
                Ok(p) => play_ok(json@) && p@ == play_of(json@),
                Err(e) => e == DecodeError::Shape && !play_ok(json@),
            },
    {
        let clock = json.text_at("clock")?;
        let description = json.text_at("description")?;
        let home = json.text_at("home_score")?;
        let visitor = json.text_at("visitor_score")?;
        let period = json.text_at("period")?;
        Ok(
            Play {
                clock: normal_clock(clock),
                description,
                h_score: parse_u8_or_zero(home.as_str()),
                v_score: parse_u8_or_zero(visitor.as_str()),
                period: Period::from_text(period.as_str()),
            },
        )
    }
}

/// The values of a sequence of plays, one by one.
pub open spec fn play_views(plays: Seq<Play>) -> Seq<PlayView> {
    Seq::new(plays.len(), |i: int| plays[i]@)
}

/// Whether every value of a sequence has the shape of a play.
pub open spec fn plays_ok(items: Seq<JsonValue>) -> bool {
    forall|i: int| 0 <= i < items.len() ==> play_ok(#[trigger] items[i])
}

/// The plays that a sequence of such values describes, in its order.
pub open spec fn plays_of(items: Seq<JsonValue>) -> Seq<PlayView> {
    Seq::new(items.len(), |i: int| play_of(items[i]))
}

/// The `game` object of a play-by-play document: `sports_content`, then
/// `game`, both objects.
pub open spec fn game_of(doc: JsonValue) -> Option<JsonValue> {
    match doc.member("sports_content"@) {
        Some(content) => match content.member("game"@) {
            Some(game) => if game is Object {
                Some(game)
            } else {
                None
            },
            None => None,
        },
        None => None,
    }
}

/// Whether a document has the shape of a play-by-play: a `game` object in
/// which `play`, where present and not `null`, is an array of plays.
pub open spec fn play_by_play_ok(doc: JsonValue) -> bool {
    &&& game_of(doc) is Some
    &&& game_of(doc)->0.present("play"@) matches Some(list) ==> list.items() is Some && plays_ok(
        list.items()->0,
    )
}

/// The plays of a document of that shape, in the order it lists them; none
/// where it has no list.
pub open spec fn play_by_play_of(doc: JsonValue) -> Seq<PlayView> {
    match game_of(doc)->0.present("play"@) {
        Some(list) => plays_of(list.items()->0),
        None => Seq::empty(),
    }
}

/// What decoding a play-by-play text gives.
pub open spec fn play_by_play_text_result(payload: Seq<char>) -> Result<
    Seq<PlayView>,
    DecodeError,
> {
    match document_of(payload) {
        None => Err(DecodeError::Syntax),
        Some(doc) => if play_by_play_ok(doc) {
            Ok(play_by_play_of(doc))
        } else {
            Err(DecodeError::Shape)
        },
    }
}

/// Decodes an array of plays; one that cannot be decoded fails them all.
pub fn decode_plays(items: &Vec<Json>) -> (plays: Result<Vec<Play>, DecodeError>)
    ensures
        match plays {
            Ok(list) => plays_ok(views(items@)) && play_views(list@) == plays_of(views(items@)),
            Err(e) => e == DecodeError::Shape && !plays_ok(views(items@)),
        },
{
    let mut list: Vec<Play> = Vec::new();
    let mut i: usize = 0;
    while i < items.len()
        invariant
            i <= items.len(),
            list.len() == i,
            forall|j: int| 0 <= j < i ==> play_ok(#[trigger] views(items@)[j]),
            forall|j: int| 0 <= j < i ==> (#[trigger] list[j])@ == play_of(views(items@)[j]),
        decreases items.len() - i,
    {
        assert(views(items@)[i as int] == items[i as int]@);
        match Play::from_json(&items[i]) {
            Ok(play) => list.push(play),
            Err(e) => return Err(e),
        }
        i += 1;
    }
    Ok(list)
}

/// The plays of one game, in the order the feed lists them.
#[derive(Debug, PartialEq, Eq)]
pub struct PlayByPlay {
    pub plays: Vec<Play>,
}

impl View for PlayByPlay {
    type V = Seq<PlayView>;

    open spec fn view(&self) -> Seq<PlayView> {
        play_views(self.plays@)
    }
}

impl PlayByPlay {
    /// Decodes a play-by-play document.
    pub fn from_json(doc: &Json) -> (outcome: Result<PlayByPlay, DecodeError>)
        ensures
            match outcome {
                Ok(p) => play_by_play_ok(doc@) && p@ == play_by_play_of(doc@),
                Err(e) => e == DecodeError::Shape && !play_by_play_ok(doc@),
            },
    {
        let content = match doc.get("sports_content") {
            Some(content) => content,
            None => return Err(DecodeError::Shape),
        };
        let game = match content.get("game") {
            Some(game) => game,
            None => return Err(DecodeError::Shape),
        };
        if !game.is_object() {
            return Err(DecodeError::Shape);
        }
        let plays = match game.get_present("play") {
            Some(list) => match list.as_items() {
                Some(items) => decode_plays(items)?,
                None => return Err(DecodeError::Shape),
            },
            None => Vec::new(),
        };
        Ok(PlayByPlay { plays })
    }

    /// Decodes a play-by-play text.
    pub fn new(payload: &str) -> (outcome: Result<PlayByPlay, DecodeError>)
        ensures
            match outcome {
                Ok(p) => play_by_play_text_result(payload@) == Ok::<Seq<PlayView>, DecodeError>(p@),
                Err(e) => play_by_play_text_result(payload@) == Err::<Seq<PlayView>, DecodeError>(
                    e,
                ),
            },
    {
        let doc = Json::parse(payload)?;
        PlayByPlay::from_json(&doc)
    }
}

} // verus!
