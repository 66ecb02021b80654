//! How a game can be watched: the broadcast record of the schedule.

use crate::error::DecodeError;
use crate::json::{Json, JsonValue};
use vstd::prelude::*;

verus! {

/// How a game can be watched.
#[derive(Debug, PartialEq, Eq)]
pub struct Watch {
    pub broadcast: Broadcast,
}

/// The broadcast of a game.
#[derive(Debug, PartialEq, Eq)]
pub struct Broadcast {
    pub video: Video,
}

/// Where the video of a game is offered and where it is blacked out.
#[derive(Debug, PartialEq, Eq)]
pub struct Video {
    pub regional_blackout_codes: String,
    pub is_league_pass: bool,
    pub is_national_blackout: bool,
    pub is_tntot: bool,
    pub can_purchase: bool,
    pub is_vr: bool,
    pub is_next_vr: bool,
    pub is_nba_on_tnt_vr: bool,
    pub is_magic_leap: bool,
    pub is_oculus_venues: bool,
}

/// The mathematical value of a [`Video`], and of the [`Broadcast`] and the
/// [`Watch`] that hold nothing but one.
pub struct VideoView {
    pub regional_blackout_codes: Seq<char>,
    pub is_league_pass: bool,
    pub is_national_blackout: bool,
    pub is_tntot: bool,
    pub can_purchase: bool,
    pub is_vr: bool,
    pub is_next_vr: bool,
    pub is_nba_on_tnt_vr: bool,
    pub is_magic_leap: bool,
    pub is_oculus_venues: bool,
}

impl View for Video {
    type V = VideoView;

    open spec fn view(&self) -> VideoView {
        VideoView {
            regional_blackout_codes: self.regional_blackout_codes@,
            is_league_pass: self.is_league_pass,
            is_national_blackout: self.is_national_blackout,
            is_tntot: self.is_tntot,
            can_purchase: self.can_purchase,
            is_vr: self.is_vr,
            is_next_vr: self.is_next_vr,
            is_nba_on_tnt_vr: self.is_nba_on_tnt_vr,
            is_magic_leap: self.is_magic_leap,
            is_oculus_venues: self.is_oculus_venues,
        }
    }
}

impl View for Broadcast {
    type V = VideoView;

    open spec fn view(&self) -> VideoView {
        self.video@
    }
}

impl View for Watch {
    type V = VideoView;

    open spec fn view(&self) -> VideoView {
        self.broadcast@
    }
}

/// Whether a value has the shape of a video record: a text
/// `regionalBlackoutCodes` and a boolean under each of the nine flags.
pub open spec fn video_ok(j: JsonValue) -> bool {
    &&& j.text_at("regionalBlackoutCodes"@) is Some
    &&& j.bool_at("isLeaguePass"@) is Some
    &&& j.bool_at("isNationalBlackout"@) is Some
    &&& j.bool_at("isTNTOT"@) is Some
    &&& j.bool_at("canPurchase"@) is Some
    &&& j.bool_at("isVR"@) is Some
    &&& j.bool_at("isNextVR"@) is Some
    &&& j.bool_at("isNBAOnTNTVR"@) is Some
    &&& j.bool_at("isMagicLeap"@) is Some
    &&& j.bool_at("isOculusVenues"@) is Some
}

/// The video record that a value of that shape holds.
pub open spec fn video_of(j: JsonValue) -> VideoView {
    VideoView {
        regional_blackout_codes: j.text_at("regionalBlackoutCodes"@)->0,
        is_league_pass: j.bool_at("isLeaguePass"@)->0,
        is_national_blackout: j.bool_at("isNationalBlackout"@)->0,
        is_tntot: j.bool_at("isTNTOT"@)->0,
        can_purchase: j.bool_at("canPurchase"@)->0,
        is_vr: j.bool_at("isVR"@)->0,
        is_next_vr: j.bool_at("isNextVR"@)->0,
        is_nba_on_tnt_vr: j.bool_at("isNBAOnTNTVR"@)->0,
        is_magic_leap: j.bool_at("isMagicLeap"@)->0,
        is_oculus_venues: j.bool_at("isOculusVenues"@)->0,
    }
}

/// The video record inside a watch record: `broadcast`, then `video`.
pub open spec fn watch_video(j: JsonValue) -> Option<JsonValue> {
    match j.member("broadcast"@) {
        Some(broadcast) => broadcast.member("video"@),
        None => None,
    }
}

/// Whether a value has the shape of a watch record.
pub open spec fn watch_ok(j: JsonValue) -> bool {
    watch_video(j) matches Some(video) && video_ok(video)
}

impl Video {
    /// Decodes a video record.
    pub fn from_json(json: &Json) -> (video: Result<Video, DecodeError>)
        ensures
            match video {
                Ok(v) => video_ok(json@) && v@ == video_of(json@),
                Err(e) => e == DecodeError::Shape && !video_ok(json@),
            },
    {
        Ok(
            Video {
                regional_blackout_codes: json.text_at("regionalBlackoutCodes")?,
                is_league_pass: json.bool_at("isLeaguePass")?,
                is_national_blackout: json.bool_at("isNationalBlackout")?,
                is_tntot: json.bool_at("isTNTOT")?,
                can_purchase: json.bool_at("canPurchase")?,
                is_vr: json.bool_at("isVR")?,
                is_next_vr: json.bool_at("isNextVR")?,
                is_nba_on_tnt_vr: json.bool_at("isNBAOnTNTVR")?,
                is_magic_leap: json.bool_at("isMagicLeap")?,
                is_oculus_venues: json.bool_at("isOculusVenues")?,
            },
        )
    }
}

impl Watch {
    /// Decodes a watch record.
    pub fn from_json(json: &Json) -> (watch: Result<Watch, DecodeError>)
        ensures
            match watch {
                Ok(w) => watch_ok(json@) && w@ == video_of(watch_video(json@)->0),
                Err(e) => e == DecodeError::Shape && !watch_ok(json@),
            },
    {
        let broadcast = match json.get("broadcast") {
            Some(b) => b,
            None => return Err(DecodeError::Shape),
        };
        let video = match broadcast.get("video") {
            Some(v) => Video::from_json(v)?,
            None => return Err(DecodeError::Shape),
        };
        Ok(Watch { broadcast: Broadcast { video } })
    }
}

} // verus!
