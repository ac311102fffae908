//! Reading the provider's responses: what each operation takes from the
//! JSON the upstream answers with, and the batching of playlists.
use vstd::prelude::*;

use crate::json::Json;
use crate::netease::normalize::{
    is_track, links_total, record_id, song_of_record, song_of_ref, songs_match, songs_of,
    track_ref, tracks_of,
};
use crate::netease::request::{items_array_json, items_to_json, song_req_json, SongItem, SongReq};
use crate::text::{lemma_secure_scheme, replace_all, replace_all_text};
use crate::{Error, MetingSong};

verus! {

/// The playback address member of a file record: `url`, or else `uf.url`.
pub open spec fn url_member(item: Json) -> Option<Json> {
    match item.field("url"@) {
        Some(u) => Some(u),
        None => match item.field("uf"@) {
            Some(uf) => uf.field("url"@),
            None => None,
        },
    }
}

/// What a playback file response yields: the address of its first record,
/// with `http://` turned into `https://`, where that record has code 200.
pub open spec fn playback_url_outcome(body: Json) -> Result<Seq<char>, Error> {
    match body.field("data"@) {
        None => Err(Error::NoField("data")),
        Some(data) => match data.array_value() {
            None => Err(Error::TypeMismatch { field: "data", target: "array" }),
            Some(items) => if items.len() == 0 {
                Err(Error::NotFound)
            } else {
                match items[0].field("code"@) {
                    None => Err(Error::NoField("code")),
                    Some(code) => match code.u64_value() {
                        None => Err(Error::TypeMismatch { field: "code", target: "u64" }),
                        Some(c) => if c != 200 {
                            Err(Error::NotFound)
                        } else {
                            match url_member(items[0]) {
                                None => Err(Error::NoField("json.url / json.uf.url")),
                                Some(u) => match u.str_value() {
                                    None => Err(
                                        Error::TypeMismatch {
                                            field: "json.url / json.uf.url",
                                            target: "str",
                                        },
                                    ),
                                    Some(s) => Ok(replace_all(s, "http://"@, "https://"@)),
                                },
                            }
                        },
                    },
                }
            },
        },
    }
}

/// The first record of a playback file response.
pub open spec fn first_file(body: Json) -> Option<Json> {
    match body.field("data"@) {
        Some(data) => match data.array_value() {
            Some(items) => if items.len() > 0 {
                Some(items[0])
            } else {
                None
            },
            None => None,
        },
        None => None,
    }
}

/// The numeric code of a file record.
pub open spec fn file_code(rec: Json) -> Option<u64> {
    match rec.field("code"@) {
        Some(c) => c.u64_value(),
        None => None,
    }
}

/// The address text of a file record.
pub open spec fn file_address(rec: Json) -> Option<Seq<char>> {
    match url_member(rec) {
        Some(u) => u.str_value(),
        None => None,
    }
}

/// A playback file response whose first record has code 200 and an
/// address yields that address with `http://` replaced by `https://`, so
/// that an `http` address comes back as `https`; one whose first record
/// has any other code yields `NotFound`.
pub proof fn lemma_playback_url_secure(body: Json)
    requires
        first_file(body) is Some,
    ensures
        file_code(first_file(body)->0) == Some(200u64) && file_address(first_file(body)->0) is Some
            ==> playback_url_outcome(body) == Ok::<Seq<char>, Error>(
            replace_all(file_address(first_file(body)->0)->0, "http://"@, "https://"@),
        ),
        file_code(first_file(body)->0) == Some(200u64) && file_address(first_file(body)->0) is Some
            && file_address(first_file(body)->0)->0.len() >= 7
            && file_address(first_file(body)->0)->0.take(7) == "http://"@
            ==> playback_url_outcome(body)->Ok_0.take(8) == "https://"@,
        file_code(first_file(body)->0) is Some && file_code(first_file(body)->0) != Some(200u64)
            ==> playback_url_outcome(body) == Err::<Seq<char>, Error>(Error::NotFound),
{
    let rec = first_file(body)->0;
    if file_code(rec) == Some(200u64) && file_address(rec) is Some && file_address(rec)->0.len() >= 7
        && file_address(rec)->0.take(7) == "http://"@ {
        lemma_secure_scheme(file_address(rec)->0);
    }
}

/// A text result read as a value.
pub open spec fn text_result(r: Result<String, Error>) -> Result<Seq<char>, Error> {
    match r {
        Ok(s) => Ok(s@),
        Err(e) => Err(e),
    }
}

/// The playback address in a playback file response.
pub fn playback_url(body: &Json) -> (r: Result<String, Error>)
    ensures
        text_result(r) == playback_url_outcome(*body),
{
    let data = match body.get("data") {
        Some(d) => d,
        None => return Err(Error::NoField("data")),
    };
    let items = match data.as_array() {
        Some(items) => items,
        None => return Err(Error::TypeMismatch { field: "data", target: "array" }),
    };
    if items.len() == 0 {
        return Err(Error::NotFound);
    }
    let first = &items[0];
    let code = match first.get("code") {
        Some(c) => match c.as_u64() {
            Some(code) => code,
            None => return Err(Error::TypeMismatch { field: "code", target: "u64" }),
        },
        None => return Err(Error::NoField("code")),
    };
    if code != 200 {
        return Err(Error::NotFound);
    }
    let address = match first.get("url") {
        Some(u) => u,
        None => match first.get("uf") {
            Some(uf) => match uf.get("url") {
                Some(u) => u,
                None => return Err(Error::NoField("json.url / json.uf.url")),
            },
            None => return Err(Error::NoField("json.url / json.uf.url")),
        },
    };
    match address.as_str() {
        Some(s) => Ok(replace_all_text(s.as_str(), "http://", "https://")),
        None => Err(Error::TypeMismatch { field: "json.url / json.uf.url", target: "str" }),
    }
}

/// The lyric text used when the upstream has none.
pub const NO_LYRIC: &'static str = "[00:00.00]暂无歌词";

/// What a song detail response yields for the cover: the `al.picUrl` of
/// its first song.
pub open spec fn cover_outcome(body: Json) -> Result<Seq<char>, Error> {
    match body.field("songs"@) {
        None => Err(Error::NoField("songs")),
        Some(songs) => match songs.array_value() {
            None => Err(Error::TypeMismatch { field: ".songs", target: "array" }),
            Some(items) => {
                let pic = if items.len() == 0 {
                    None
                } else {
                    match items[0].field("al"@) {
                        Some(al) => al.field("picUrl"@),
                        None => None,
                    }
                };
                match pic {
                    None => Err(Error::NoField(".songs.0.al.picUrl")),
                    Some(p) => match p.str_value() {
                        None => Err(Error::TypeMismatch { field: "songs.0.al.picUrl", target: "str" }),
                        Some(s) => Ok(s),
                    },
                }
            },
        },
    }
}

/// The cover address in a song detail response.
pub fn cover_url(body: &Json) -> (r: Result<String, Error>)
    ensures
        text_result(r) == cover_outcome(*body),
{
    let songs = match body.get("songs") {
        Some(s) => s,
        None => return Err(Error::NoField("songs")),
    };
    let items = match songs.as_array() {
        Some(items) => items,
        None => return Err(Error::TypeMismatch { field: ".songs", target: "array" }),
    };
    let pic = if items.len() == 0 {
        None
    } else {
        match items[0].get("al") {
            Some(al) => al.get("picUrl"),
            None => None,
        }
    };
    match pic {
        None => Err(Error::NoField(".songs.0.al.picUrl")),
        Some(p) => match p.as_str() {
            None => Err(Error::TypeMismatch { field: "songs.0.al.picUrl", target: "str" }),
            Some(s) => Ok(s.clone()),
        },
    }
}

/// The lyric text of a lyric response: `lrc.lyric`, or the placeholder
/// where it is missing or not a string.
pub open spec fn lyric_of(body: Json) -> Seq<char> {
    let lyric = match body.field("lrc"@) {
        Some(lrc) => match lrc.field("lyric"@) {
            Some(l) => l.str_value(),
            None => None,
        },
        None => None,
    };
    match lyric {
        Some(s) => s,
        None => NO_LYRIC@,
    }
}

/// The lyric text of a lyric response.
pub fn lyric_text(body: &Json) -> (r: String)
    ensures
        r@ == lyric_of(*body),
{
    let lyric = match body.get("lrc") {
        Some(lrc) => match lrc.get("lyric") {
            Some(l) => l.as_str(),
            None => None,
        },
        None => None,
    };
    match lyric {
        Some(s) => s.clone(),
        None => NO_LYRIC.to_owned(),
    }
}

/// The diagnostic path of a record that is not a track.
pub const TRACK_FIELDS: &'static str = "\n.id as u64\n| .name as str\n";

/// The records under `key` of a response, or the error that their absence
/// or shape gives.
pub open spec fn records_under(
    list: Option<Json>,
    missing: Error,
    mistyped: Error,
) -> Result<Seq<Json>, Error> {
    match list {
        None => Err(missing),
        Some(v) => match v.array_value() {
            None => Err(mistyped),
            Some(items) => Ok(items),
        },
    }
}

/// The song list of a song detail response.
pub open spec fn detail_records(body: Json) -> Result<Seq<Json>, Error> {
    records_under(
        body.field("songs"@),
        Error::NoField("songs"),
        Error::TypeMismatch { field: "songs", target: "array" },
    )
}

/// What a song detail response yields for a single song: its first
/// record, which must be a track.
pub open spec fn single_track(body: Json) -> Result<Json, Error> {
    match detail_records(body) {
        Err(e) => Err(e),
        Ok(items) => if items.len() == 0 {
            Err(Error::NotFound)
        } else if !is_track(items[0]) {
            Err(Error::NoField(TRACK_FIELDS))
        } else {
            Ok(items[0])
        },
    }
}

/// The song of a song detail response, with its links built from its id.
pub fn single_song<P, L, U>(body: &Json, pic: &P, lrc: &L, url: &U) -> (r: Result<MetingSong, Error>) where
    P: Fn(&str) -> String,
    L: Fn(&str) -> String,
    U: Fn(&str) -> String,

    requires
        links_total(*pic, *lrc, *url),
    ensures
        match r {
            Ok(song) => single_track(*body) matches Ok(rec) && song_of_record(song, rec, *pic, *lrc, *url),
            Err(e) => single_track(*body) == Err::<Json, Error>(e),
        },
{
    let items = match body.get("songs") {
        Some(v) => match v.as_array() {
            Some(items) => items,
            None => return Err(Error::TypeMismatch { field: "songs", target: "array" }),
        },
        None => return Err(Error::NoField("songs")),
    };
    if items.len() == 0 {
        return Err(Error::NotFound);
    }
    match track_ref(&items[0]) {
        Some(t) => Ok(song_of_ref(t, pic, lrc, url)),
        None => Err(Error::NoField(TRACK_FIELDS)),
    }
}

/// The result list of a search response.
pub open spec fn search_records(body: Json) -> Result<Seq<Json>, Error> {
    records_under(
        match body.field("result"@) {
            Some(res) => res.field("songs"@),
            None => None,
        },
        Error::NoField(".result.songs"),
        Error::TypeMismatch { field: ".result.songs", target: "array" },
    )
}

/// The songs of a search response; the results that are not tracks are
/// skipped.
pub fn search_songs<P, L, U>(body: &Json, pic: &P, lrc: &L, url: &U) -> (r: Result<Vec<MetingSong>, Error>) where
    P: Fn(&str) -> String,
    L: Fn(&str) -> String,
    U: Fn(&str) -> String,

    requires
        links_total(*pic, *lrc, *url),
    ensures
        match r {
            Ok(songs) => search_records(*body) matches Ok(items) && songs_match(songs@, tracks_of(items), *pic, *lrc, *url),
            Err(e) => search_records(*body) == Err::<Seq<Json>, Error>(e),
        },
{
    let list = match body.get("result") {
        Some(res) => res.get("songs"),
        None => None,
    };
    match list {
        None => Err(Error::NoField(".result.songs")),
        Some(v) => match v.as_array() {
            None => Err(Error::TypeMismatch { field: ".result.songs", target: "array" }),
            Some(items) => Ok(songs_of(items, pic, lrc, url)),
        },
    }
}

/// The track id list of a playlist response.
pub open spec fn track_id_records(body: Json) -> Result<Seq<Json>, Error> {
    records_under(
        match body.field("playlist"@) {
            Some(p) => p.field("trackIds"@),
            None => None,
        },
        Error::NoField(".playlist.trackIds"),
        Error::TypeMismatch { field: ".playlist.trackIds", target: "array" },
    )
}

/// The numeric ids of a track id list, in order, skipping entries without
/// one.
pub open spec fn ids_of(items: Seq<Json>) -> Seq<u64>
    decreases items.len(),
{
    if items.len() == 0 {
        seq![]
    } else {
        match record_id(items.last()) {
            Some(id) => ids_of(items.drop_last()).push(id),
            None => ids_of(items.drop_last()),
        }
    }
}

/// The track ids of a playlist response.
pub fn playlist_track_ids(body: &Json) -> (r: Result<Vec<u64>, Error>)
    ensures
        match r {
            Ok(ids) => track_id_records(*body) matches Ok(items) && ids@ == ids_of(items),
            Err(e) => track_id_records(*body) == Err::<Seq<Json>, Error>(e),
        },
{
    let list = match body.get("playlist") {
        Some(p) => p.get("trackIds"),
        None => None,
    };
    let items = match list {
        None => return Err(Error::NoField(".playlist.trackIds")),
        Some(v) => match v.as_array() {
            None => return Err(Error::TypeMismatch { field: ".playlist.trackIds", target: "array" }),
            Some(items) => items,
        },
    };
    let mut ids: Vec<u64> = Vec::new();
    let mut i: usize = 0;
    while i < items.len()
        invariant
            i <= items@.len(),
            ids@ == ids_of(items@.take(i as int)),
        decreases items@.len() - i,
    {
        assert(items@.take(i + 1).drop_last() =~= items@.take(i as int));
        assert(items@.take(i + 1).last() == items@[i as int]);
        match items[i].get("id") {
            Some(v) => match v.as_u64() {
                Some(id) => ids.push(id),
                None => {},
            },
            None => {},
        }
        i = i + 1;
    }
    assert(items@.take(items@.len() as int) =~= items@);
    Ok(ids)
}

/// The song list of one batch's detail response.
pub open spec fn batch_records(body: Json) -> Result<Seq<Json>, Error> {
    records_under(
        body.field("songs"@),
        Error::NoField("<song-detail>.songs"),
        Error::TypeMismatch { field: "<song-detail>.songs", target: "array" },
    )
}

/// The track records of a playlist's batches, in batch order. A batch
/// that gave no response adds nothing; the first response without a
/// proper song list decides the error.
pub open spec fn playlist_tracks(responses: Seq<Option<Json>>) -> Result<Seq<Json>, Error>
    decreases responses.len(),
{
    if responses.len() == 0 {
        Ok(seq![])
    } else {
        match playlist_tracks(responses.drop_last()) {
            Err(e) => Err(e),
            Ok(prev) => match responses.last() {
                None => Ok(prev),
                Some(body) => match batch_records(body) {
                    Err(e) => Err(e),
                    Ok(items) => Ok(prev + tracks_of(items)),
                },
            },
        }
    }
}

/// The songs of a playlist from the responses of its batches, in order;
/// `None` stands for a batch whose attempts all failed.
pub fn playlist_songs<P, L, U>(responses: &Vec<Option<Json>>, pic: &P, lrc: &L, url: &U) -> (r: Result<Vec<MetingSong>, Error>) where
    P: Fn(&str) -> String,
    L: Fn(&str) -> String,
    U: Fn(&str) -> String,

    requires
        links_total(*pic, *lrc, *url),
    ensures
        match r {
            Ok(songs) => playlist_tracks(responses@) matches Ok(tracks) && songs_match(songs@, tracks, *pic, *lrc, *url),
            Err(e) => playlist_tracks(responses@) == Err::<Seq<Json>, Error>(e),
        },
{
    let mut songs: Vec<MetingSong> = Vec::new();
    let mut i: usize = 0;
    while i < responses.len()
        invariant
            i <= responses@.len(),
            links_total(*pic, *lrc, *url),
            playlist_tracks(responses@.take(i as int)) matches Ok(tracks) && songs_match(songs@, tracks, *pic, *lrc, *url),
        decreases responses@.len() - i,
    {
        assert(responses@.take(i + 1).drop_last() =~= responses@.take(i as int));
        assert(responses@.take(i + 1).last() == responses@[i as int]);
        let ghost prev_tracks = playlist_tracks(responses@.take(i as int))->Ok_0;
        match &responses[i] {
            None => {},
            Some(body) => {
                let items = match body.get("songs") {
                    None => {
                        proof { lemma_tracks_error_stays(responses@, i as int + 1); }
                        return Err(Error::NoField("<song-detail>.songs"));
                    },
                    Some(v) => match v.as_array() {
                        None => {
                            proof { lemma_tracks_error_stays(responses@, i as int + 1); }
                            return Err(Error::TypeMismatch { field: "<song-detail>.songs", target: "array" });
                        },
                        Some(items) => items,
                    },
                };
                let mut batch = songs_of(items, pic, lrc, url);
                let ghost prev_songs = songs@;
                let ghost batch_songs = batch@;
                songs.append(&mut batch);
                assert forall|k: int| 0 <= k < songs@.len() implies song_of_record(
                    #[trigger] songs@[k],
                    (prev_tracks + tracks_of(items@))[k],
                    *pic,
                    *lrc,
                    *url,
                ) by {
                    if k < prev_songs.len() {
                        assert(songs@[k] == prev_songs[k]);
                    } else {
                        assert(songs@[k] == batch_songs[k - prev_songs.len()]);
                    }
                }
            },
        }
        i = i + 1;
    }
    assert(responses@.take(responses@.len() as int) =~= responses@);
    Ok(songs)
}

/// Once a prefix of the batch responses gives an error, every longer
/// prefix gives the same error.
proof fn lemma_tracks_error_stays(responses: Seq<Option<Json>>, n: int)
    requires
        0 <= n <= responses.len(),
        playlist_tracks(responses.take(n)) is Err,
    ensures
        playlist_tracks(responses) == playlist_tracks(responses.take(n)),
    decreases responses.len() - n,
{
    if n < responses.len() {
        assert(responses.take(n + 1).drop_last() =~= responses.take(n));
        lemma_tracks_error_stays(responses, n + 1);
    } else {
        assert(responses.take(n) =~= responses);
    }
}

/// The number of songs asked for in one detail request.
pub const BATCH_SIZE: usize = 512;

/// `ids` cut, in order, into batches of `size`; only the last may be
/// shorter.
pub open spec fn batches_of(ids: Seq<u64>, size: nat) -> Seq<Seq<u64>>
    decreases ids.len(),
{
    if ids.len() == 0 || size == 0 {
        seq![]
    } else if ids.len() <= size {
        seq![ids]
    } else {
        seq![ids.take(size as int)] + batches_of(ids.skip(size as int), size)
    }
}

/// The batches of a list hold the list, in order; each holds between one
/// and `size` ids, and every batch but the last holds exactly `size`.
pub proof fn lemma_batches_shape(ids: Seq<u64>, size: nat)
    requires
        size > 0,
    ensures
        batches_of(ids, size).flatten() == ids,
        forall|i: int|
            0 <= i < batches_of(ids, size).len() ==> 0 < #[trigger] batches_of(ids, size)[i].len() <= size,
        forall|i: int|
            0 <= i < batches_of(ids, size).len() - 1 ==> #[trigger] batches_of(ids, size)[i].len() == size,
    decreases ids.len(),
{
    let b = batches_of(ids, size);
    if ids.len() == 0 {
    } else if ids.len() <= size {
        assert(b.drop_first() =~= Seq::<Seq<u64>>::empty());
        assert(b.flatten() =~= ids + Seq::<Seq<u64>>::empty().flatten());
        assert(b.flatten() =~= ids);
    } else {
        let rest = batches_of(ids.skip(size as int), size);
        lemma_batches_shape(ids.skip(size as int), size);
        assert(b.drop_first() =~= rest);
        assert(b.flatten() == ids.take(size as int) + rest.flatten());
        assert(ids =~= ids.take(size as int) + ids.skip(size as int));
        assert forall|i: int| 0 <= i < b.len() implies 0 < #[trigger] b[i].len() <= size by {
            if i > 0 {
                assert(b[i] == rest[i - 1]);
            }
        }
        assert forall|i: int| 0 <= i < b.len() - 1 implies #[trigger] b[i].len() == size by {
            if i > 0 {
                assert(b[i] == rest[i - 1]);
            }
        }
    }
}

/// When of three batches the middle one gave no response, the songs of
/// the first and the last remain, in that order, and none of its own.
pub proof fn lemma_failed_batch_absent(first: Json, last: Json)
    requires
        batch_records(first) is Ok,
        batch_records(last) is Ok,
    ensures
        playlist_tracks(seq![Some(first), None, Some(last)]) == Ok::<Seq<Json>, Error>(
            tracks_of(batch_records(first)->Ok_0) + tracks_of(batch_records(last)->Ok_0),
        ),
{
    let r = seq![Some(first), None, Some(last)];
    assert(r.drop_last() =~= seq![Some(first), None]);
    assert(r.drop_last().drop_last() =~= seq![Some(first)]);
    assert(r.drop_last().drop_last().drop_last() =~= Seq::<Option<Json>>::empty());
    let a = tracks_of(batch_records(first)->Ok_0);
    assert(playlist_tracks(Seq::<Option<Json>>::empty()) == Ok::<Seq<Json>, Error>(seq![]));
    assert(Seq::<Json>::empty() + a =~= a);
    assert(playlist_tracks(seq![Some(first)]) == Ok::<Seq<Json>, Error>(a));
    assert(playlist_tracks(seq![Some(first), None]) == Ok::<Seq<Json>, Error>(a));
}

/// The views of a list of batches.
pub open spec fn batch_views(batches: Seq<Vec<u64>>) -> Seq<Seq<u64>> {
    batches.map_values(|b: Vec<u64>| b@)
}

/// Cuts the track ids of a playlist into batches of `BATCH_SIZE`.
pub fn split_batches(ids: &Vec<u64>) -> (r: Vec<Vec<u64>>)
    ensures
        batch_views(r@) == batches_of(ids@, BATCH_SIZE as nat),
{
    let n = ids.len();
    let mut r: Vec<Vec<u64>> = Vec::new();
    let mut start: usize = 0;
    assert(ids@.skip(0) =~= ids@);
    while start < n
        invariant
            start <= n,
            n == ids@.len(),
            batch_views(r@) + batches_of(ids@.skip(start as int), BATCH_SIZE as nat) == batches_of(ids@, BATCH_SIZE as nat),
        decreases n - start,
    {
        let end = if n - start <= BATCH_SIZE {
            n
        } else {
            start + BATCH_SIZE
        };
        let ghost rest = ids@.skip(start as int);
        let mut batch: Vec<u64> = Vec::new();
        let mut k: usize = start;
        while k < end
            invariant
                start <= k <= end,
                end <= n,
                n == ids@.len(),
                batch@ == ids@.subrange(start as int, k as int),
            decreases end - k,
        {
            batch.push(ids[k]);
            assert(batch@ =~= ids@.subrange(start as int, k + 1));
            k = k + 1;
        }
        let ghost before = r@;
        r.push(batch);
        if end == n {
            assert(rest =~= ids@.subrange(start as int, n as int));
            assert(ids@.skip(n as int) =~= seq![]);
        } else {
            assert(rest.take(BATCH_SIZE as int) =~= ids@.subrange(start as int, end as int));
            assert(rest.skip(BATCH_SIZE as int) =~= ids@.skip(end as int));
        }
        assert(batch_views(r@) =~= batch_views(before).push(ids@.subrange(start as int, end as int)));
        start = end;
    }
    assert(ids@.skip(n as int) =~= seq![]);
    assert(batch_views(r@) + seq![] =~= batch_views(r@));
    r
}

/// The song items of a batch of ids.
pub open spec fn batch_items(batch: Seq<u64>) -> Seq<SongItem> {
    batch.map_values(|id: u64| SongItem { id, v: 0 })
}

/// The detail request of one batch: the JSON text of the request whose
/// `c` is the JSON array of the batch's song items.
pub fn batch_request(batch: &Vec<u64>) -> (r: String)
    ensures
        r@ == song_req_json(items_array_json(batch_items(batch@))),
{
    let mut items: Vec<SongItem> = Vec::new();
    let mut i: usize = 0;
    while i < batch.len()
        invariant
            i <= batch@.len(),
            items@ == batch_items(batch@.take(i as int)),
        decreases batch@.len() - i,
    {
        items.push(SongItem::new(batch[i]));
        assert(items@ =~= batch_items(batch@.take(i + 1)));
        i = i + 1;
    }
    assert(batch@.take(batch@.len() as int) =~= batch@);
    SongReq::new(items_to_json(&items)).to_json()
}

} // verus!
