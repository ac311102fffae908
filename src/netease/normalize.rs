//! The tolerant extraction of track records from upstream JSON and the
//! building of songs from them: records without a numeric id or a string
//! title are skipped, and a missing artist list reads as no artists.
use vstd::prelude::*;

use crate::json::Json;
use crate::text::{decimal, push_char, push_text, u64_to_decimal};
use crate::MetingSong;

verus! {


/// The id, title and joined artist names of one upstream track.
#[derive(Debug)]
pub struct TrackRef {
    pub id: String,
    pub title: String,
    pub artists: String,
}

/// The numeric id of a record, where it has one.
pub open spec fn record_id(rec: Json) -> Option<u64> {
    match rec.field("id"@) {
        Some(v) => v.u64_value(),
        None => None,
    }
}

/// The title of a record, where it has one.
pub open spec fn record_title(rec: Json) -> Option<Seq<char>> {
    match rec.field("name"@) {
        Some(v) => v.str_value(),
        None => None,
    }
}

/// The non-empty artist name of one element of an artist list, if any.
pub open spec fn artist_name(a: Json) -> Option<Seq<char>> {
    match a.field("name"@) {
        Some(v) => match v.str_value() {
            Some(s) => if s.len() > 0 { Some(s) } else { None },
            None => None,
        },
        None => None,
    }
}

/// The artist names of a list, in order, skipping elements without one.
pub open spec fn artist_names(ar: Seq<Json>) -> Seq<Seq<char>>
    decreases ar.len(),
{
    if ar.len() == 0 {
        seq![]
    } else {
        let init = artist_names(ar.drop_last());
        match artist_name(ar.last()) {
            Some(n) => init.push(n),
            None => init,
        }
    }
}

/// The names joined by `/`.
pub open spec fn join_slash(names: Seq<Seq<char>>) -> Seq<char>
    decreases names.len(),
{
    if names.len() == 0 {
        seq![]
    } else if names.len() == 1 {
        names[0]
    } else {
        join_slash(names.drop_last()).push('/') + names.last()
    }
}

/// The artists of a record: the names under `ar` joined by `/`, or empty
/// where `ar` is absent or not an array.
pub open spec fn record_artists(rec: Json) -> Seq<char> {
    match rec.field("ar"@) {
        Some(v) => match v.array_value() {
            Some(ar) => join_slash(artist_names(ar)),
            None => seq![],
        },
        None => seq![],
    }
}

/// A record is a track when it has a numeric id and a string title.
pub open spec fn is_track(rec: Json) -> bool {
    record_id(rec) is Some && record_title(rec) is Some
}

impl TrackRef {
    /// This reference is the one extracted from `rec`.
    pub open spec fn of_record(self, rec: Json) -> bool {
        &&& is_track(rec)
        &&& self.id@ == decimal(record_id(rec)->0 as nat)
        &&& self.title@ == record_title(rec)->0
        &&& self.artists@ == record_artists(rec)
    }
}

/// Joins the artist names of an artist list by `/`.
fn join_artists(ar: &Vec<Json>) -> (r: String)
    ensures
        r@ == join_slash(artist_names(ar@)),
{
    let mut r = String::new();
    let mut count: usize = 0;
    let mut i: usize = 0;
    while i < ar.len()
        invariant
            i <= ar@.len(),
            count <= i,
            count == artist_names(ar@.take(i as int)).len(),
            r@ == join_slash(artist_names(ar@.take(i as int))),
        decreases ar@.len() - i,
    {
        assert(ar@.take(i + 1).drop_last() =~= ar@.take(i as int));
        assert(ar@.take(i + 1).last() == ar@[i as int]);
        if let Some(v) = ar[i].get("name") {
            if let Some(s) = v.as_str() {
                if !s.as_str().is_empty() {
                    let ghost names = artist_names(ar@.take(i as int));
                    assert(names.push(s@).drop_last() =~= names);
                    if count > 0 {
                        push_char(&mut r, '/');
                    }
                    push_text(&mut r, s.as_str());
                    count = count + 1;
                    assert(r@ =~= join_slash(names.push(s@)));
                }
            }
        }
        i = i + 1;
    }
    assert(ar@.take(ar@.len() as int) =~= ar@);
    r
}

/// The id, title and artists of an upstream record. A record without a
/// numeric `id` or a string `name` gives nothing; a missing or malformed
/// artist list gives empty artists.
pub fn track_ref(record: &Json) -> (r: Option<TrackRef>)
    ensures
        r is Some <==> is_track(*record),
        r matches Some(t) ==> t.of_record(*record),
{
    let id = match record.get("id") {
        Some(v) => match v.as_u64() {
            Some(n) => n,
            None => return None,
        },
        None => return None,
    };
    let title = match record.get("name") {
        Some(v) => match v.as_str() {
            Some(s) => s.clone(),
            None => return None,
        },
        None => return None,
    };
    let artists = match record.get("ar") {
        Some(v) => match v.as_array() {
            Some(ar) => join_artists(ar),
            None => String::new(),
        },
        None => String::new(),
    };
    Some(TrackRef { id: u64_to_decimal(id), title, artists })
}

/// The records of a list that are tracks, in order.
pub open spec fn tracks_of(records: Seq<Json>) -> Seq<Json>
    decreases records.len(),
{
    if records.len() == 0 {
        seq![]
    } else if is_track(records.last()) {
        tracks_of(records.drop_last()).push(records.last())
    } else {
        tracks_of(records.drop_last())
    }
}

/// Of a well-formed record and one without a title, in either order,
/// exactly the well-formed one is kept.
pub proof fn lemma_skips_malformed(good: Json, bad: Json)
    requires
        is_track(good),
        record_title(bad) is None,
    ensures
        tracks_of(seq![good, bad]) == seq![good],
        tracks_of(seq![bad, good]) == seq![good],
{
    assert(seq![good, bad].drop_last() =~= seq![good]);
    assert(seq![good].drop_last() =~= Seq::<Json>::empty());
    assert(seq![bad, good].drop_last() =~= seq![bad]);
    assert(seq![bad].drop_last() =~= Seq::<Json>::empty());
    assert(seq![good].last() == good);
    assert(seq![bad].last() == bad);
    assert(tracks_of(Seq::<Json>::empty()) =~= Seq::<Json>::empty());
    assert(tracks_of(seq![good]) =~= seq![good]);
    assert(tracks_of(seq![bad]) =~= Seq::<Json>::empty());
    assert(Seq::<Json>::empty().push(good) =~= seq![good]);
}

/// The three link builders accept every id.
pub open spec fn links_total<P, L, U>(pic: P, lrc: L, url: U) -> bool where
    P: Fn(&str) -> String,
    L: Fn(&str) -> String,
    U: Fn(&str) -> String,
 {
    forall|id: &str| pic.requires((id,)) && lrc.requires((id,)) && url.requires((id,))
}

/// `song` is the song of the track `rec`: its title and artists, and the
/// links that the builders give for its decimal id.
pub open spec fn song_of_record<P, L, U>(song: MetingSong, rec: Json, pic: P, lrc: L, url: U) -> bool where
    P: Fn(&str) -> String,
    L: Fn(&str) -> String,
    U: Fn(&str) -> String,
 {
    &&& song.name@ == record_title(rec)->0
    &&& song.artist@ == record_artists(rec)
    &&& exists|id: &str|
        #![trigger pic.ensures((id,), song.pic)]
        id@ == decimal(record_id(rec)->0 as nat) && pic.ensures((id,), song.pic) && lrc.ensures(
            (id,),
            song.lrc,
        ) && url.ensures((id,), song.url)
}

/// The song of a track reference, with links built from its id.
pub(crate) fn song_of_ref<P, L, U>(t: TrackRef, pic: &P, lrc: &L, url: &U) -> (song: MetingSong) where
    P: Fn(&str) -> String,
    L: Fn(&str) -> String,
    U: Fn(&str) -> String,

    requires
        links_total(*pic, *lrc, *url),
    ensures
        song.name@ == t.title@,
        song.artist@ == t.artists@,
        exists|id: &str|
            #![trigger pic.ensures((id,), song.pic)]
            id@ == t.id@ && pic.ensures((id,), song.pic) && lrc.ensures((id,), song.lrc)
                && url.ensures((id,), song.url),
{
    let id = t.id.as_str();
    let p = pic(id);
    let l = lrc(id);
    let u = url(id);
    let song = MetingSong { name: t.title, artist: t.artists, url: u, pic: p, lrc: l };
    assert(id@ == t.id@ && pic.ensures((id,), song.pic) && lrc.ensures((id,), song.lrc)
        && url.ensures((id,), song.url));
    song
}

/// The songs of the track records of a list, in order; the records that
/// are not tracks are skipped.
pub fn songs_of<P, L, U>(records: &Vec<Json>, pic: &P, lrc: &L, url: &U) -> (songs: Vec<MetingSong>) where
    P: Fn(&str) -> String,
    L: Fn(&str) -> String,
    U: Fn(&str) -> String,

    requires
        links_total(*pic, *lrc, *url),
    ensures
        songs@.len() == tracks_of(records@).len(),
        forall|k: int|
            0 <= k < songs@.len() ==> song_of_record(
                #[trigger] songs@[k],
                tracks_of(records@)[k],
                *pic,
                *lrc,
                *url,
            ),
{
    let mut songs: Vec<MetingSong> = Vec::new();
    let mut i: usize = 0;
    while i < records.len()
        invariant
            i <= records@.len(),
            links_total(*pic, *lrc, *url),
            songs@.len() == tracks_of(records@.take(i as int)).len(),
            forall|k: int|
                0 <= k < songs@.len() ==> song_of_record(
                    #[trigger] songs@[k],
                    tracks_of(records@.take(i as int))[k],
                    *pic,
                    *lrc,
                    *url,
                ),
        decreases records@.len() - i,
    {
        assert(records@.take(i + 1).drop_last() =~= records@.take(i as int));
        assert(records@.take(i + 1).last() == records@[i as int]);
        let ghost before = tracks_of(records@.take(i as int));
        match track_ref(&records[i]) {
            Some(t) => {
                let song = song_of_ref(t, pic, lrc, url);
                let ghost prev = songs@;
                songs.push(song);
                assert(tracks_of(records@.take(i + 1)) == before.push(records@[i as int]));
                assert forall|k: int| 0 <= k < songs@.len() implies song_of_record(
                    #[trigger] songs@[k],
                    tracks_of(records@.take(i + 1))[k],
                    *pic,
                    *lrc,
                    *url,
                ) by {
                    if k < songs@.len() - 1 {
                        assert(songs@[k] == prev[k]);
                    }
                }
            },
            None => {
                assert(tracks_of(records@.take(i + 1)) == before);
            },
        }
        i = i + 1;
    }
    assert(records@.take(records@.len() as int) =~= records@);
    songs
}

/// The songs of the track records of a list, in order, with their links.
pub open spec fn songs_match<P, L, U>(songs: Seq<MetingSong>, tracks: Seq<Json>, pic: P, lrc: L, url: U) -> bool where
    P: Fn(&str) -> String,
    L: Fn(&str) -> String,
    U: Fn(&str) -> String,
 {
    &&& songs.len() == tracks.len()
    &&& forall|k: int| 0 <= k < songs.len() ==> song_of_record(#[trigger] songs[k], tracks[k], pic, lrc, url)
}

} // verus!
