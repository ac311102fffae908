//! The plaintext payloads of the provider's requests and their JSON text,
//! field by field in declaration order and without spaces.
use vstd::prelude::*;

use crate::text::{decimal, isize_to_decimal, push_char, push_text, signed_decimal, u64_to_decimal};
use crate::MetingSearchOptions;

verus! {

/// The JSON string literal of a text, quotes and escapes included.
pub uninterp spec fn json_quoted(s: Seq<char>) -> Seq<char>;

/// Text that JSON quotes as it stands: no `"`, no `\` and no control
/// character below U+0020.
pub open spec fn plain_json_text(s: Seq<char>) -> bool {
    forall|i: int| 0 <= i < s.len() ==> #[trigger] s[i] != '"' && s[i] != '\\' && s[i] >= ' '
}

/// Relies on `serde_json::to_string` on a `str`: the JSON string literal
/// of the text, which escapes only `"`, `\` and the control characters
/// below U+0020. Serialising a `str` into memory does not fail.
#[verifier::external_body]
fn json_quote(s: &str) -> (r: String)
    ensures
        r@ == json_quoted(s@),
        plain_json_text(s@) ==> r@ == seq!['"'] + s@ + seq!['"'],
{
    serde_json::to_string(s).expect("a str always serialises")
}

/// Appends the JSON string literal of `t`.
fn push_quoted(s: &mut String, t: &str)
    ensures
        final(s)@ == old(s)@ + json_quoted(t@),
{
    let q = json_quote(t);
    push_text(s, q.as_str());
}

/// The request for the track list of a playlist.
#[derive(Debug)]
pub struct Playlist<'a> {
    pub id: &'a str,
    pub offset: &'a str,
    pub total: &'a str,
    pub limit: &'a str,
    pub n: &'a str,
}

impl<'a> Playlist<'a> {
    /// The request for all tracks of the playlist `id`.
    pub fn new(id: &'a str) -> (r: Self)
        ensures
            r.id@ == id@,
            r.offset@ == "0"@,
            r.total@ == "True"@,
            r.limit@ == "9999"@,
            r.n@ == "9999"@,
    {
        Playlist { id, offset: "0", total: "True", limit: "9999", n: "9999" }
    }

    /// The JSON text of the request.
    pub open spec fn json(self) -> Seq<char> {
        "{\"id\":"@ + json_quoted(self.id@) + ",\"offset\":"@ + json_quoted(self.offset@)
            + ",\"total\":"@ + json_quoted(self.total@) + ",\"limit\":"@ + json_quoted(
            self.limit@,
        ) + ",\"n\":"@ + json_quoted(self.n@) + "}"@
    }

    /// The JSON text of the request.
    pub fn to_json(&self) -> (r: String)
        ensures
            r@ == self.json(),
    {
        let mut r = String::new();
        push_text(&mut r, "{\"id\":");
        push_quoted(&mut r, self.id);
        push_text(&mut r, ",\"offset\":");
        push_quoted(&mut r, self.offset);
        push_text(&mut r, ",\"total\":");
        push_quoted(&mut r, self.total);
        push_text(&mut r, ",\"limit\":");
        push_quoted(&mut r, self.limit);
        push_text(&mut r, ",\"n\":");
        push_quoted(&mut r, self.n);
        push_text(&mut r, "}");
        r
    }
}

/// One song of a detail request.
#[derive(Debug, Clone, Copy)]
pub struct SongItem {
    pub id: u64,
    pub v: u8,
}

impl SongItem {
    /// The item of the song `id`.
    pub fn new(id: u64) -> (r: Self)
        ensures
            r.id == id,
            r.v == 0,
    {
        SongItem { id, v: 0 }
    }

    /// The JSON text of the item.
    pub open spec fn json(self) -> Seq<char> {
        "{\"id\":"@ + decimal(self.id as nat) + ",\"v\":"@ + decimal(self.v as nat) + "}"@
    }

    /// The JSON text of the item.
    pub fn to_json(&self) -> (r: String)
        ensures
            r@ == self.json(),
    {
        let mut r = String::new();
        push_text(&mut r, "{\"id\":");
        let id = u64_to_decimal(self.id);
        push_text(&mut r, id.as_str());
        push_text(&mut r, ",\"v\":");
        let v = u64_to_decimal(self.v as u64);
        push_text(&mut r, v.as_str());
        push_text(&mut r, "}");
        r
    }
}

/// The JSON texts of `items` joined by commas.
pub open spec fn items_json(items: Seq<SongItem>) -> Seq<char>
    decreases items.len(),
{
    if items.len() == 0 {
        seq![]
    } else if items.len() == 1 {
        items[0].json()
    } else {
        items_json(items.drop_last()).push(',') + items.last().json()
    }
}

/// The JSON array of `items`.
pub open spec fn items_array_json(items: Seq<SongItem>) -> Seq<char> {
    seq!['['] + items_json(items) + seq![']']
}

/// The JSON array text of a list of song items.
pub fn items_to_json(items: &Vec<SongItem>) -> (r: String)
    ensures
        r@ == items_array_json(items@),
{
    let mut r = String::new();
    push_char(&mut r, '[');
    let mut i: usize = 0;
    while i < items.len()
        invariant
            i <= items@.len(),
            r@ == seq!['['] + items_json(items@.take(i as int)),
        decreases items@.len() - i,
    {
        assert(items@.take(i + 1).drop_last() =~= items@.take(i as int));
        assert(items@.take(i + 1).last() == items@[i as int]);
        if i > 0 {
            push_char(&mut r, ',');
        }
        let item = items[i].to_json();
        push_text(&mut r, item.as_str());
        assert(r@ =~= seq!['['] + items_json(items@.take(i + 1)));
        i = i + 1;
    }
    assert(items@.take(items@.len() as int) =~= items@);
    push_char(&mut r, ']');
    r
}

/// The JSON text of a song detail request carrying `c`.
pub open spec fn song_req_json(c: Seq<char>) -> Seq<char> {
    "{\"c\":"@ + json_quoted(c) + "}"@
}

/// The song detail request: `c` is the JSON array of the song items.
#[derive(Debug)]
pub struct SongReq {
    pub c: String,
}

impl SongReq {
    /// The request carrying the item list text `c`.
    pub fn new(c: String) -> (r: Self)
        ensures
            r.c == c,
    {
        SongReq { c }
    }

    /// The JSON text of the request.
    pub open spec fn json(self) -> Seq<char> {
        song_req_json(self.c@)
    }

    /// The JSON text of the request.
    pub fn to_json(&self) -> (r: String)
        ensures
            r@ == self.json(),
    {
        let mut r = String::new();
        push_text(&mut r, "{\"c\":");
        push_quoted(&mut r, self.c.as_str());
        push_text(&mut r, "}");
        r
    }
}

/// The playback file request of some songs at a bitrate in bits per
/// second.
#[derive(Debug)]
pub struct SongFileReq {
    pub ids: Vec<String>,
    pub br: u64,
}

/// The JSON string literals of `ids` joined by commas.
pub open spec fn quoted_list(ids: Seq<String>) -> Seq<char>
    decreases ids.len(),
{
    if ids.len() == 0 {
        seq![]
    } else if ids.len() == 1 {
        json_quoted(ids[0]@)
    } else {
        quoted_list(ids.drop_last()).push(',') + json_quoted(ids.last()@)
    }
}

impl SongFileReq {
    /// The JSON text of the request.
    pub open spec fn json(self) -> Seq<char> {
        "{\"ids\":["@ + quoted_list(self.ids@) + "],\"br\":"@ + decimal(self.br as nat) + "}"@
    }

    /// The JSON text of the request.
    pub fn to_json(&self) -> (r: String)
        ensures
            r@ == self.json(),
    {
        let mut r = String::new();
        push_text(&mut r, "{\"ids\":[");
        let ghost start = r@;
        let mut i: usize = 0;
        while i < self.ids.len()
            invariant
                i <= self.ids@.len(),
                start == "{\"ids\":["@,
                r@ == start + quoted_list(self.ids@.take(i as int)),
            decreases self.ids@.len() - i,
        {
            assert(self.ids@.take(i + 1).drop_last() =~= self.ids@.take(i as int));
            assert(self.ids@.take(i + 1).last() == self.ids@[i as int]);
            if i > 0 {
                push_char(&mut r, ',');
            }
            push_quoted(&mut r, self.ids[i].as_str());
            assert(r@ =~= start + quoted_list(self.ids@.take(i + 1)));
            i = i + 1;
        }
        assert(self.ids@.take(self.ids@.len() as int) =~= self.ids@);
        push_text(&mut r, "],\"br\":");
        let br = u64_to_decimal(self.br);
        push_text(&mut r, br.as_str());
        push_text(&mut r, "}");
        r
    }
}

/// The lyric request of a song.
#[derive(Debug)]
pub struct LrcReq<'a> {
    pub id: &'a str,
    pub os: &'a str,
    pub lv: isize,
    pub kv: isize,
    pub tv: isize,
    pub rv: isize,
    pub yv: usize,
    pub show_role: &'a str,
    pub cp: &'a str,
    pub e_r: &'a str,
}

impl<'a> LrcReq<'a> {
    /// The request for every lyric version of the song `id`.
    pub fn new(id: &'a str) -> (r: Self)
        ensures
            r.id@ == id@,
            r.os@ == "pc"@,
            r.lv == -1 && r.kv == -1 && r.tv == -1 && r.rv == -1,
            r.yv == 1,
            r.show_role@ == "False"@,
            r.cp@ == "False"@,
            r.e_r@ == "False"@,
    {
        LrcReq {
            id,
            os: "pc",
            lv: -1,
            kv: -1,
            tv: -1,
            rv: -1,
            yv: 1,
            show_role: "False",
            cp: "False",
            e_r: "False",
        }
    }

    /// The JSON text of the request; `show_role` goes by the key
    /// `camleCase`, the name the upstream reads.
    pub open spec fn json(self) -> Seq<char> {
        "{\"id\":"@ + json_quoted(self.id@) + ",\"os\":"@ + json_quoted(self.os@) + ",\"lv\":"@
            + signed_decimal(self.lv as int) + ",\"kv\":"@ + signed_decimal(self.kv as int)
            + ",\"tv\":"@ + signed_decimal(self.tv as int) + ",\"rv\":"@ + signed_decimal(
            self.rv as int,
        ) + ",\"yv\":"@ + decimal(self.yv as nat) + ",\"camleCase\":"@ + json_quoted(
            self.show_role@,
        ) + ",\"cp\":"@ + json_quoted(self.cp@) + ",\"e_r\":"@ + json_quoted(self.e_r@) + "}"@
    }

    /// The JSON text of the request.
    pub fn to_json(&self) -> (r: String)
        ensures
            r@ == self.json(),
    {
        let mut r = String::new();
        push_text(&mut r, "{\"id\":");
        push_quoted(&mut r, self.id);
        push_text(&mut r, ",\"os\":");
        push_quoted(&mut r, self.os);
        push_text(&mut r, ",\"lv\":");
        let lv = isize_to_decimal(self.lv);
        push_text(&mut r, lv.as_str());
        push_text(&mut r, ",\"kv\":");
        let kv = isize_to_decimal(self.kv);
        push_text(&mut r, kv.as_str());
        push_text(&mut r, ",\"tv\":");
        let tv = isize_to_decimal(self.tv);
        push_text(&mut r, tv.as_str());
        push_text(&mut r, ",\"rv\":");
        let rv = isize_to_decimal(self.rv);
        push_text(&mut r, rv.as_str());
        push_text(&mut r, ",\"yv\":");
        let yv = u64_to_decimal(self.yv as u64);
        push_text(&mut r, yv.as_str());
        push_text(&mut r, ",\"camleCase\":");
        push_quoted(&mut r, self.show_role);
        push_text(&mut r, ",\"cp\":");
        push_quoted(&mut r, self.cp);
        push_text(&mut r, ",\"e_r\":");
        push_quoted(&mut r, self.e_r);
        push_text(&mut r, "}");
        r
    }
}

/// The page that a search asks for: zero is read as the first page.
pub open spec fn effective_page(page: usize) -> int {
    if page == 0 {
        1
    } else {
        page as int
    }
}

/// The number of results that a search skips.
pub open spec fn search_offset(options: MetingSearchOptions) -> int {
    (effective_page(options.page) - 1) * options.limit
}

/// A search skips `(page - 1) * limit` results, and the page zero is read
/// as the first page, which skips none.
pub proof fn lemma_pagination(options: MetingSearchOptions)
    ensures
        options.page == 0 ==> search_offset(options) == 0,
        options.page == 1 ==> search_offset(options) == 0,
        options.page >= 1 ==> search_offset(options) == (options.page - 1) * options.limit,
        options.page == 3 ==> search_offset(options) == 2 * options.limit,
{
    assert(0 * options.limit == 0) by (nonlinear_arith);
}

/// The search request.
#[derive(Debug, Clone)]
pub struct SearchReq<'a> {
    pub s: &'a str,
    pub kind: usize,
    pub limit: usize,
    pub total: bool,
    pub offset: usize,
}

impl<'a> SearchReq<'a> {
    /// The search for `s` with the paging of `options`.
    pub fn new(s: &'a str, options: MetingSearchOptions) -> (r: Self)
        requires
            search_offset(options) <= usize::MAX,
        ensures
            r.s@ == s@,
            r.kind == options.kind,
            r.limit == options.limit,
            r.total,
            r.offset == search_offset(options),
    {
        let page = if options.page == 0 {
            1
        } else {
            options.page
        };
        SearchReq {
            s,
            kind: options.kind,
            limit: options.limit,
            total: true,
            offset: (page - 1) * options.limit,
        }
    }

    /// The JSON text of the request; `kind` goes by the key `type`.
    pub open spec fn json(self) -> Seq<char> {
        "{\"s\":"@ + json_quoted(self.s@) + ",\"type\":"@ + decimal(self.kind as nat)
            + ",\"limit\":"@ + decimal(self.limit as nat) + ",\"total\":"@ + (if self.total {
            "true"@
        } else {
            "false"@
        }) + ",\"offset\":"@ + decimal(self.offset as nat) + "}"@
    }

    /// The JSON text of the request.
    pub fn to_json(&self) -> (r: String)
        ensures
            r@ == self.json(),
    {
        let mut r = String::new();
        push_text(&mut r, "{\"s\":");
        push_quoted(&mut r, self.s);
        push_text(&mut r, ",\"type\":");
        let kind = u64_to_decimal(self.kind as u64);
        push_text(&mut r, kind.as_str());
        push_text(&mut r, ",\"limit\":");
        let limit = u64_to_decimal(self.limit as u64);
        push_text(&mut r, limit.as_str());
        push_text(&mut r, ",\"total\":");
        if self.total {
            push_text(&mut r, "true");
        } else {
            push_text(&mut r, "false");
        }
        push_text(&mut r, ",\"offset\":");
        let offset = u64_to_decimal(self.offset as u64);
        push_text(&mut r, offset.as_str());
        push_text(&mut r, "}");
        r
    }
}

} // verus!
