use neo_meting::json::{Json, Number};
use neo_meting::netease::normalize::{songs_of, track_ref};
use neo_meting::netease::response::{
    batch_request, cover_url, lyric_text, playback_url, playlist_songs, playlist_track_ids,
    search_songs, single_song, split_batches, NO_LYRIC, TRACK_FIELDS,
};
use neo_meting::{Error, MetingSong};

fn convert(v: &serde_json::Value) -> Json {
    match v {
        serde_json::Value::Null => Json::Null,
        serde_json::Value::Bool(b) => Json::Bool(*b),
        serde_json::Value::Number(n) => Json::Number(match (n.as_u64(), n.as_i64()) {
            (Some(u), _) => Number::Unsigned(u),
            (None, Some(i)) => Number::Signed(i),
            _ => Number::Fractional,
        }),
        serde_json::Value::String(s) => Json::Str(s.clone()),
        serde_json::Value::Array(a) => Json::Array(a.iter().map(convert).collect()),
        serde_json::Value::Object(m) => {
            Json::Object(m.iter().map(|(k, v)| (k.clone(), convert(v))).collect())
        }
    }
}

fn parse(text: &str) -> Json {
    convert(&serde_json::from_str(text).unwrap())
}

fn pic(id: &str) -> String {
    format!("http://h/netease/pic/{id}")
}
fn lrc(id: &str) -> String {
    format!("http://h/netease/lrc/{id}")
}
fn url(id: &str) -> String {
    format!("http://h/netease/url/{id}")
}

fn names(songs: &[MetingSong]) -> Vec<&str> {
    songs.iter().map(|s| s.name.as_str()).collect()
}

#[test]
fn artist_join_skips_nameless_entries() {
    let rec = parse(r#"{"id":1,"name":"T","ar":[{"name":"A"},{},{"name":"C"}]}"#);
    let t = track_ref(&rec).unwrap();
    assert_eq!(t.artists, "A/C");
    assert_eq!(t.id, "1");
    assert_eq!(t.title, "T");
}

#[test]
fn artist_join_drops_empty_names_and_tolerates_missing_list() {
    let rec = parse(r#"{"id":5,"name":"T","ar":[{"name":""},{"name":3},{"name":"B"}]}"#);
    assert_eq!(track_ref(&rec).unwrap().artists, "B");
    let rec = parse(r#"{"id":5,"name":"T"}"#);
    assert_eq!(track_ref(&rec).unwrap().artists, "");
    let rec = parse(r#"{"id":5,"name":"T","ar":"x"}"#);
    assert_eq!(track_ref(&rec).unwrap().artists, "");
}

#[test]
fn records_without_id_or_title_are_not_tracks() {
    assert!(track_ref(&parse(r#"{"name":"T"}"#)).is_none());
    assert!(track_ref(&parse(r#"{"id":"1","name":"T"}"#)).is_none());
    assert!(track_ref(&parse(r#"{"id":-1,"name":"T"}"#)).is_none());
    assert!(track_ref(&parse(r#"{"id":1.5,"name":"T"}"#)).is_none());
    assert!(track_ref(&parse(r#"{"id":1,"name":null}"#)).is_none());
    assert!(track_ref(&parse("[1]")).is_none());
}

#[test]
fn normalizer_skips_the_malformed_record() {
    let list = parse(r#"[{"id":7,"name":"Good","ar":[{"name":"X"}]},{"id":8,"ar":[]}]"#);
    let items = match &list {
        Json::Array(items) => items,
        _ => unreachable!(),
    };
    let refs: Vec<_> = items.iter().filter_map(track_ref).collect();
    assert_eq!(refs.len(), 1);
    assert_eq!(refs[0].id, "7");
    let songs = songs_of(items, &pic, &lrc, &url);
    assert_eq!(songs.len(), 1);
    assert_eq!(songs[0].name, "Good");
    assert_eq!(songs[0].artist, "X");
    assert_eq!(songs[0].pic, "http://h/netease/pic/7");
    assert_eq!(songs[0].lrc, "http://h/netease/lrc/7");
    assert_eq!(songs[0].url, "http://h/netease/url/7");
}

#[test]
fn playback_url_is_made_secure() {
    let body = parse(r#"{"data":[{"code":200,"url":"http://m7.music.126.net/a.mp3"}]}"#);
    assert_eq!(playback_url(&body).unwrap(), "https://m7.music.126.net/a.mp3");
    let body = parse(r#"{"data":[{"code":200,"uf":{"url":"http://x/y"}}]}"#);
    assert_eq!(playback_url(&body).unwrap(), "https://x/y");
    let body = parse(r#"{"data":[{"code":200,"url":"https://x/http://y"}]}"#);
    assert_eq!(playback_url(&body).unwrap(), "https://x/https://y");
}

#[test]
fn playback_url_errors() {
    let err = |text: &str| playback_url(&parse(text)).unwrap_err();
    assert!(matches!(err(r#"{"data":[{"code":404,"url":"http://x"}]}"#), Error::NotFound));
    assert!(matches!(err(r#"{"data":[]}"#), Error::NotFound));
    assert!(matches!(err(r#"{}"#), Error::NoField("data")));
    assert!(matches!(
        err(r#"{"data":{}}"#),
        Error::TypeMismatch { field: "data", target: "array" }
    ));
    assert!(matches!(err(r#"{"data":[{}]}"#), Error::NoField("code")));
    assert!(matches!(
        err(r#"{"data":[{"code":"200"}]}"#),
        Error::TypeMismatch { field: "code", target: "u64" }
    ));
    assert!(matches!(
        err(r#"{"data":[{"code":200}]}"#),
        Error::NoField("json.url / json.uf.url")
    ));
    assert!(matches!(
        err(r#"{"data":[{"code":200,"url":null}]}"#),
        Error::TypeMismatch { field: "json.url / json.uf.url", target: "str" }
    ));
}

#[test]
fn cover_url_reads_the_first_album_picture() {
    let body = parse(r#"{"songs":[{"al":{"picUrl":"https://p/1.jpg"}},{"al":{"picUrl":"x"}}]}"#);
    assert_eq!(cover_url(&body).unwrap(), "https://p/1.jpg");
    assert!(matches!(cover_url(&parse("{}")).unwrap_err(), Error::NoField("songs")));
    assert!(matches!(
        cover_url(&parse(r#"{"songs":1}"#)).unwrap_err(),
        Error::TypeMismatch { field: ".songs", target: "array" }
    ));
    assert!(matches!(
        cover_url(&parse(r#"{"songs":[]}"#)).unwrap_err(),
        Error::NoField(".songs.0.al.picUrl")
    ));
    assert!(matches!(
        cover_url(&parse(r#"{"songs":[{"al":{"picUrl":2}}]}"#)).unwrap_err(),
        Error::TypeMismatch { field: "songs.0.al.picUrl", target: "str" }
    ));
}

#[test]
fn lyric_text_or_placeholder() {
    assert_eq!(lyric_text(&parse(r#"{"lrc":{"lyric":"[00:01.00]la"}}"#)), "[00:01.00]la");
    assert_eq!(lyric_text(&parse(r#"{"lrc":{}}"#)), "[00:00.00]暂无歌词");
    assert_eq!(lyric_text(&parse(r#"{"nolyric":true}"#)), NO_LYRIC);
}

#[test]
fn single_song_uses_the_first_record() {
    let body = parse(r#"{"songs":[{"id":33894312,"name":"N","ar":[{"name":"A"},{"name":"B"}]}]}"#);
    let song = single_song(&body, &pic, &lrc, &url).unwrap();
    assert_eq!(song.name, "N");
    assert_eq!(song.artist, "A/B");
    assert_eq!(song.url, "http://h/netease/url/33894312");
    assert!(matches!(
        single_song(&parse(r#"{"songs":[]}"#), &pic, &lrc, &url).unwrap_err(),
        Error::NotFound
    ));
    match single_song(&parse(r#"{"songs":[{"id":1}]}"#), &pic, &lrc, &url).unwrap_err() {
        Error::NoField(path) => assert_eq!(path, TRACK_FIELDS),
        other => panic!("unexpected {other:?}"),
    }
    assert!(matches!(
        single_song(&parse("{}"), &pic, &lrc, &url).unwrap_err(),
        Error::NoField("songs")
    ));
}

#[test]
fn search_songs_reads_result_songs() {
    let body = parse(
        r#"{"result":{"songs":[{"id":1,"name":"a"},{"name":"skip"},{"id":2,"name":"b"}]}}"#,
    );
    let songs = search_songs(&body, &pic, &lrc, &url).unwrap();
    assert_eq!(names(&songs), vec!["a", "b"]);
    assert!(matches!(
        search_songs(&parse(r#"{"result":{}}"#), &pic, &lrc, &url).unwrap_err(),
        Error::NoField(".result.songs")
    ));
    assert!(matches!(
        search_songs(&parse(r#"{"result":{"songs":{}}}"#), &pic, &lrc, &url).unwrap_err(),
        Error::TypeMismatch { field: ".result.songs", target: "array" }
    ));
}

#[test]
fn playlist_track_ids_skip_entries_without_numeric_id() {
    let body = parse(r#"{"playlist":{"trackIds":[{"id":3},{"id":"4"},{},{"id":5}]}}"#);
    assert_eq!(playlist_track_ids(&body).unwrap(), vec![3, 5]);
    assert!(matches!(
        playlist_track_ids(&parse(r#"{"playlist":{}}"#)).unwrap_err(),
        Error::NoField(".playlist.trackIds")
    ));
    assert!(matches!(
        playlist_track_ids(&parse(r#"{"playlist":{"trackIds":0}}"#)).unwrap_err(),
        Error::TypeMismatch { field: ".playlist.trackIds", target: "array" }
    ));
}

#[test]
fn batches_of_1025_ids() {
    let ids: Vec<u64> = (0..1025).collect();
    let batches = split_batches(&ids);
    let sizes: Vec<usize> = batches.iter().map(|b| b.len()).collect();
    assert_eq!(sizes, vec![512, 512, 1]);
    let joined: Vec<u64> = batches.concat();
    assert_eq!(joined, ids);
    assert_eq!(split_batches(&(0..1024).collect()).len(), 2);
    assert!(split_batches(&Vec::new()).is_empty());
}

#[test]
fn batch_request_lists_its_ids() {
    assert_eq!(
        batch_request(&vec![1, 2]),
        r#"{"c":"[{\"id\":1,\"v\":0},{\"id\":2,\"v\":0}]"}"#
    );
}

#[test]
fn failed_batch_is_absent_from_the_playlist() {
    let first = parse(r#"{"songs":[{"id":1,"name":"one"},{"id":2,"name":"two"}]}"#);
    let last = parse(r#"{"songs":[{"id":3,"name":"three"}]}"#);
    let responses = vec![Some(first), None, Some(last)];
    let songs = playlist_songs(&responses, &pic, &lrc, &url).unwrap();
    assert_eq!(names(&songs), vec!["one", "two", "three"]);
    assert_eq!(songs[2].pic, "http://h/netease/pic/3");
}

#[test]
fn malformed_batch_aborts_the_playlist() {
    let good = parse(r#"{"songs":[{"id":1,"name":"one"}]}"#);
    let responses = vec![Some(good), Some(parse("{}")), Some(parse(r#"{"songs":0}"#))];
    assert!(matches!(
        playlist_songs(&responses, &pic, &lrc, &url).unwrap_err(),
        Error::NoField("<song-detail>.songs")
    ));
    let responses = vec![None, Some(parse(r#"{"songs":0}"#))];
    assert!(matches!(
        playlist_songs(&responses, &pic, &lrc, &url).unwrap_err(),
        Error::TypeMismatch { field: "<song-detail>.songs", target: "array" }
    ));
}
