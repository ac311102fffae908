//! The provider: its request payloads, the envelope that carries them,
//! and the reading of its responses.
use vstd::prelude::*;

pub mod envelope;
pub mod ip;
pub mod normalize;
pub mod request;
pub mod response;

pub use envelope::{ParseErr, WeapiEncoder};
pub use ip::IpStr;
pub use request::{LrcReq, Playlist, SearchReq, SongFileReq, SongItem, SongReq};
pub use normalize::TrackRef;

use crate::text::{decimal, parse_u64, parsed_u64};
use crate::Error;
use request::{items_array_json, items_to_json, json_quoted, song_req_json};
use vstd::string::StringSliceAdditionalSpecFns;

verus! {

/// The endpoint of playlist track lists.
pub const PLAYLIST_URL: &'static str = "https://music.163.com/weapi/v6/playlist/detail";

/// The endpoint of song details.
pub const SONG_INFO_URL: &'static str = "https://music.163.com/weapi/v3/song/detail";

/// The endpoint of playback files.
pub const SONG_URL: &'static str = "https://music.163.com/weapi/song/enhance/player/url";

/// The endpoint of lyrics.
pub const LRC_URL: &'static str = "https://music.163.com/weapi/song/lyric";

/// The endpoint of searches.
pub const SEARCH_URL: &'static str = "https://music.163.com/weapi/cloudsearch/pc";

/// The bitrate asked for, in bits per second.
pub const MUSIC_QUALITY: u64 = 320000;

/// The name under which envelope failures are reported.
pub const ENCODER_NAME: &'static str = "netease";

/// The JSON text of the detail request of one song.
pub open spec fn single_detail_json(id: u64) -> Seq<char> {
    song_req_json(items_array_json(seq![SongItem { id, v: 0 }]))
}

/// The detail request of the song whose id is the numeral `id`.
pub fn song_detail_request(id: &str) -> (r: Result<String, Error>)
    ensures
        match r {
            Ok(text) => parsed_u64(id@) matches Some(n) && text@ == single_detail_json(n),
            Err(e) => parsed_u64(id@) is None && e == Error::TypeMismatch { field: "<id>", target: "u64" },
        },
{
    match parse_u64(id) {
        None => Err(Error::TypeMismatch { field: "<id>", target: "u64" }),
        Some(n) => {
            let mut items: Vec<SongItem> = Vec::new();
            items.push(SongItem::new(n));
            assert(items@ =~= seq![SongItem { id: n, v: 0 }]);
            Ok(SongReq::new(items_to_json(&items)).to_json())
        },
    }
}

/// The JSON text of the playback file request of one song.
pub open spec fn playback_json(id: Seq<char>) -> Seq<char> {
    "{\"ids\":["@ + json_quoted(id) + "],\"br\":"@ + decimal(MUSIC_QUALITY as nat) + "}"@
}

/// The playback file request of the song `id`.
pub fn playback_request(id: &str) -> (r: String)
    ensures
        r@ == playback_json(id@),
{
    let mut ids: Vec<String> = Vec::new();
    ids.push(id.to_owned());
    let req = SongFileReq { ids, br: MUSIC_QUALITY };
    let r = req.to_json();
    assert(req.ids@.len() == 1);
    r
}

/// Relies on the `Debug` formatting of openssl's `ErrorStack` and rand's
/// `OsError`: a description of an envelope failure.
#[verifier::external_body]
fn describe(e: &ParseErr) -> String {
    format!("{e:?}")
}

/// Seals a payload in a fresh envelope; a failure is reported as an
/// `Encode` error of this provider.
pub fn seal_payload(payload: &str) -> (r: Result<WeapiEncoder, Error>)
    requires
        payload.spec_bytes().len() <= envelope::MAX_PAYLOAD_LEN,
    ensures
        match r {
            Ok(w) => (exists|raw: Seq<u8>| raw.len() == 16 && #[trigger] w.seals(payload.spec_bytes(), raw))
                && w.params@.len() > 0 && w.enc_sec_key@.len() == 256,
            Err(e) => e matches Error::Encode { engine, msg } && engine == ENCODER_NAME,
        },
{
    match WeapiEncoder::try_from_str(payload) {
        Ok(w) => Ok(w),
        Err(e) => Err(Error::Encode { engine: ENCODER_NAME, msg: describe(&e) }),
    }
}

} // verus!
