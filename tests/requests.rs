use neo_meting::netease::request::items_to_json;
use neo_meting::netease::{
    playback_request, song_detail_request, LrcReq, Playlist, SearchReq, SongItem, SongReq,
};
use neo_meting::{Error, MetingSearchOptions};

#[test]
fn playlist_request_text() {
    let p = Playlist::new("24381616");
    assert_eq!(
        p.to_json(),
        r#"{"id":"24381616","offset":"0","total":"True","limit":"9999","n":"9999"}"#
    );
}

#[test]
fn song_item_and_list_text() {
    let item = SongItem::new(42);
    assert_eq!(item.v, 0);
    assert_eq!(item.to_json(), r#"{"id":42,"v":0}"#);
    let items = vec![SongItem::new(1), SongItem::new(18446744073709551615)];
    assert_eq!(items_to_json(&items), r#"[{"id":1,"v":0},{"id":18446744073709551615,"v":0}]"#);
    assert_eq!(items_to_json(&Vec::new()), "[]");
}

#[test]
fn song_request_quotes_its_list() {
    let req = SongReq::new(r#"[{"id":42,"v":0}]"#.to_string());
    assert_eq!(req.to_json(), r#"{"c":"[{\"id\":42,\"v\":0}]"}"#);
}

#[test]
fn song_detail_request_parses_the_id() {
    assert_eq!(song_detail_request("42").unwrap(), r#"{"c":"[{\"id\":42,\"v\":0}]"}"#);
    assert_eq!(song_detail_request("+7").unwrap(), r#"{"c":"[{\"id\":7,\"v\":0}]"}"#);
    for bad in ["", "+", "-1", "12a", " 1", "18446744073709551616"] {
        match song_detail_request(bad) {
            Err(Error::TypeMismatch { field, target }) => {
                assert_eq!(field, "<id>");
                assert_eq!(target, "u64");
            }
            other => panic!("unexpected {other:?} for {bad:?}"),
        }
    }
    assert_eq!(
        song_detail_request("18446744073709551615").unwrap(),
        r#"{"c":"[{\"id\":18446744073709551615,\"v\":0}]"}"#
    );
}

#[test]
fn playback_request_text() {
    assert_eq!(playback_request("33894312"), r#"{"ids":["33894312"],"br":320000}"#);
}

#[test]
fn lyric_request_text() {
    let req = LrcReq::new("186016");
    assert_eq!(
        req.to_json(),
        r#"{"id":"186016","os":"pc","lv":-1,"kv":-1,"tv":-1,"rv":-1,"yv":1,"camleCase":"False","cp":"False","e_r":"False"}"#
    );
}

#[test]
fn search_request_text_escapes_the_keyword() {
    let options = MetingSearchOptions { limit: 30, page: 2, kind: 1 };
    let req = SearchReq::new("say \"hi\"", options);
    assert_eq!(
        req.to_json(),
        r#"{"s":"say \"hi\"","type":1,"limit":30,"total":true,"offset":30}"#
    );
}

#[test]
fn pagination_offsets() {
    let at = |page| SearchReq::new("k", MetingSearchOptions { limit: 30, page, kind: 0 }).offset;
    assert_eq!(at(1), 0);
    assert_eq!(at(0), 0);
    assert_eq!(at(3), 60);
    let other = SearchReq::new("k", MetingSearchOptions { limit: 7, page: 3, kind: 0 });
    assert_eq!(other.offset, 14);
    assert_eq!(other.limit, 7);
}
