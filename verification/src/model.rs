//! The records that calls return, and the decoders that read them from the
//! server's replies.
//!
//! A reply is loosely typed. A decoder asks for the few top-level fields that
//! it cannot do without; anything missing below them becomes an absent field
//! of a record, or a record left out, and never a failure of the call.

use crate::error::ApiError;
use crate::json::{parse_document, parsed_document, Json};
use crate::text::{decimal, decimal_text};
use vstd::prelude::*;

verus! {

/// What a reply is read for.
#[derive(Clone, Copy, Debug, PartialEq, Eq, Structural)]
pub enum Parse {
    /// The reply to a search.
    Search,
}

/// One track of a search result. Each field is absent where the reply does
/// not give it.
#[derive(Clone, Debug, PartialEq, Eq)]
pub struct SongTag {
    pub song_id: Option<String>,
    pub title: Option<String>,
    /// The name of the first artist.
    pub artist: Option<String>,
    pub album: Option<String>,
    pub album_id: Option<String>,
    /// The identifier of the album's artwork.
    pub pic_id: Option<String>,
    /// The identifier under which the lyric is fetched.
    pub lyric_id: Option<String>,
}

/// A [`SongTag`] as plain text.
pub struct SongTagView {
    pub song_id: Option<Seq<char>>,
    pub title: Option<Seq<char>>,
    pub artist: Option<Seq<char>>,
    pub album: Option<Seq<char>>,
    pub album_id: Option<Seq<char>>,
    pub pic_id: Option<Seq<char>>,
    pub lyric_id: Option<Seq<char>>,
}

/// The characters of an optional string.
pub open spec fn text_view(text: Option<String>) -> Option<Seq<char>> {
    match text {
        Some(s) => Some(s@),
        None => None,
    }
}

impl View for SongTag {
    type V = SongTagView;

    open spec fn view(&self) -> SongTagView {
        SongTagView {
            song_id: text_view(self.song_id),
            title: text_view(self.title),
            artist: text_view(self.artist),
            album: text_view(self.album),
            album_id: text_view(self.album_id),
            pic_id: text_view(self.pic_id),
            lyric_id: text_view(self.lyric_id),
        }
    }
}

/// Where a track can be played from.
#[derive(Clone, Debug, PartialEq, Eq)]
pub struct SongUrl {
    /// The track's identifier.
    pub id: u64,
    pub url: String,
    /// The bit rate, where the reply gives it.
    pub rate: Option<u64>,
}

/// A [`SongUrl`] as plain text.
pub struct SongUrlView {
    pub id: u64,
    pub url: Seq<char>,
    pub rate: Option<u64>,
}

impl View for SongUrl {
    type V = SongUrlView;

    open spec fn view(&self) -> SongUrlView {
        SongUrlView { id: self.id, url: self.url@, rate: self.rate }
    }
}

/// The views of a list of tracks.
pub open spec fn tag_views(tags: Seq<SongTag>) -> Seq<SongTagView> {
    tags.map_values(|tag: SongTag| tag@)
}

/// The views of a list of URL records.
pub open spec fn url_views(urls: Seq<SongUrl>) -> Seq<SongUrlView> {
    urls.map_values(|url: SongUrl| url@)
}

/// The member `key` of `value`, if it is a string.
pub open spec fn text_member(value: Json, key: Seq<char>) -> Option<Seq<char>> {
    match value.member(key) {
        Some(member) => member.text(),
        None => None,
    }
}

/// The member `key` of `value`, if it is a number whose value is kept.
pub open spec fn natural_member(value: Json, key: Seq<char>) -> Option<u64> {
    match value.member(key) {
        Some(member) => member.natural(),
        None => None,
    }
}

/// The member `key` of `value` as a decimal numeral, if it is such a number.
pub open spec fn numeral_member(value: Json, key: Seq<char>) -> Option<Seq<char>> {
    match natural_member(value, key) {
        Some(n) => Some(decimal_text(n as nat)),
        None => None,
    }
}

/// The string member `key` of the member `outer` of `value`.
pub open spec fn nested_text(value: Json, outer: Seq<char>, key: Seq<char>) -> Option<Seq<char>> {
    match value.member(outer) {
        Some(inner) => text_member(inner, key),
        None => None,
    }
}

/// The number member `key` of the member `outer` of `value`, as a numeral.
pub open spec fn nested_numeral(value: Json, outer: Seq<char>, key: Seq<char>) -> Option<
    Seq<char>,
> {
    match value.member(outer) {
        Some(inner) => numeral_member(inner, key),
        None => None,
    }
}

/// The name of the first of a track's artists.
pub open spec fn first_artist(song: Json) -> Option<Seq<char>> {
    match song.member("artists"@) {
        Some(artists) => match artists.items() {
            Some(items) => if items.len() > 0 {
                text_member(items[0], "name"@)
            } else {
                None
            },
            None => None,
        },
        None => None,
    }
}

/// The record that one element of a search result stands for.
pub open spec fn song_record(song: Json) -> SongTagView {
    SongTagView {
        song_id: numeral_member(song, "id"@),
        title: text_member(song, "name"@),
        artist: first_artist(song),
        album: nested_text(song, "album"@, "name"@),
        album_id: nested_numeral(song, "album"@, "id"@),
        pic_id: nested_numeral(song, "album"@, "picId"@),
        lyric_id: numeral_member(song, "id"@),
    }
}

/// The reply reports success: its member `code` is the number 200.
pub open spec fn status_ok(doc: Json) -> bool {
    natural_member(doc, "code"@) == Some(200u64)
}

/// What a search reply decodes to.
///
/// The reply must report success and hold an array `songs` in its member
/// `result`; then each element of the array gives one record, in order.
pub open spec fn songs_of(doc: Json, parse: Parse) -> Result<Seq<SongTagView>, ApiError> {
    if !status_ok(doc) {
        Err(ApiError::Protocol)
    } else {
        match doc.member("result"@) {
            Some(result) => match result.member("songs"@) {
                Some(songs) => match songs.items() {
                    Some(items) => Ok(items.map_values(|song: Json| song_record(song))),
                    None => Err(ApiError::Protocol),
                },
                None => Err(ApiError::Protocol),
            },
            None => Err(ApiError::Protocol),
        }
    }
}

/// What a lyric reply decodes to.
///
/// The reply must report success. The lyric is the string `lyric` in its
/// member `lrc`; where that is missing, null or not a string, the track has
/// no lyric.
pub open spec fn lyric_of(doc: Json) -> Result<Seq<char>, ApiError> {
    if !status_ok(doc) {
        Err(ApiError::Protocol)
    } else {
        match nested_text(doc, "lrc"@, "lyric"@) {
            Some(lyric) => Ok(lyric),
            None => Err(ApiError::NoData),
        }
    }
}

/// The URL record that one element of a URL reply stands for: none where
/// its `url` is missing, null or empty, which says that the track cannot be
/// played, and none where it has no identifier.
pub open spec fn url_record(item: Json) -> Option<SongUrlView> {
    match (text_member(item, "url"@), natural_member(item, "id"@)) {
        (Some(url), Some(id)) => if url.len() > 0 {
            Some(SongUrlView { id, url, rate: natural_member(item, "br"@) })
        } else {
            None
        },
        _ => None,
    }
}

/// The records of the elements that stand for one, in the elements' order.
pub open spec fn url_records(items: Seq<Json>) -> Seq<SongUrlView>
    decreases items.len(),
{
    if items.len() == 0 {
        Seq::empty()
    } else {
        match url_record(items.last()) {
            Some(record) => url_records(items.drop_last()).push(record),
            None => url_records(items.drop_last()),
        }
    }
}

/// What a URL reply decodes to. The reply must report success and hold an
/// array `data`.
pub open spec fn urls_of(doc: Json) -> Result<Seq<SongUrlView>, ApiError> {
    if !status_ok(doc) {
        Err(ApiError::Protocol)
    } else {
        match doc.member("data"@) {
            Some(data) => match data.items() {
                Some(items) => Ok(url_records(items)),
                None => Err(ApiError::Protocol),
            },
            None => Err(ApiError::Protocol),
        }
    }
}

/// What the text of a search reply decodes to: text that is no JSON
/// document is a reply that cannot be used.
pub open spec fn songs_in(text: Seq<char>, parse: Parse) -> Result<Seq<SongTagView>, ApiError> {
    match parsed_document(text) {
        Some(doc) => songs_of(doc, parse),
        None => Err(ApiError::Protocol),
    }
}

/// What the text of a lyric reply decodes to.
pub open spec fn lyric_in(text: Seq<char>) -> Result<Seq<char>, ApiError> {
    match parsed_document(text) {
        Some(doc) => lyric_of(doc),
        None => Err(ApiError::Protocol),
    }
}

/// What the text of a URL reply decodes to.
pub open spec fn urls_in(text: Seq<char>) -> Result<Seq<SongUrlView>, ApiError> {
    match parsed_document(text) {
        Some(doc) => urls_of(doc),
        None => Err(ApiError::Protocol),
    }
}

/// A decoded list of tracks, as plain text.
pub open spec fn songs_view(r: Result<Vec<SongTag>, ApiError>) -> Result<
    Seq<SongTagView>,
    ApiError,
> {
    match r {
        Ok(tags) => Ok(tag_views(tags@)),
        Err(e) => Err(e),
    }
}

/// A decoded lyric, as plain text.
pub open spec fn lyric_view(r: Result<String, ApiError>) -> Result<Seq<char>, ApiError> {
    match r {
        Ok(lyric) => Ok(lyric@),
        Err(e) => Err(e),
    }
}

/// A decoded list of URL records, as plain text.
pub open spec fn urls_view(r: Result<Vec<SongUrl>, ApiError>) -> Result<
    Seq<SongUrlView>,
    ApiError,
> {
    match r {
        Ok(urls) => Ok(url_views(urls@)),
        Err(e) => Err(e),
    }
}

fn member_text(value: &Json, key: &str) -> (r: Option<String>)
    ensures
        text_view(r) == text_member(*value, key@),
{
    match value.get(key) {
        Some(member) => match member.as_str() {
            Some(s) => Some(s.to_owned()),
            None => None,
        },
        None => None,
    }
}

fn member_natural(value: &Json, key: &str) -> (r: Option<u64>)
    ensures
        r == natural_member(*value, key@),
{
    match value.get(key) {
        Some(member) => member.as_u64(),
        None => None,
    }
}

fn member_numeral(value: &Json, key: &str) -> (r: Option<String>)
    ensures
        text_view(r) == numeral_member(*value, key@),
{
    match member_natural(value, key) {
        Some(n) => Some(decimal(n)),
        None => None,
    }
}

fn artist_of(song: &Json) -> (r: Option<String>)
    ensures
        text_view(r) == first_artist(*song),
{
    match song.get("artists") {
        Some(artists) => match artists.as_array() {
            Some(items) => if items.len() > 0 {
                member_text(&items[0], "name")
            } else {
                None
            },
            None => None,
        },
        None => None,
    }
}

fn record_of(song: &Json) -> (tag: SongTag)
    ensures
        tag@ == song_record(*song),
{
    let album = song.get("album");
    let (album_name, album_id, pic_id) = match album {
        Some(album) => (
            member_text(album, "name"),
            member_numeral(album, "id"),
            member_numeral(album, "picId"),
        ),
        None => (None, None, None),
    };
    SongTag {
        song_id: member_numeral(song, "id"),
        title: member_text(song, "name"),
        artist: artist_of(song),
        album: album_name,
        album_id,
        pic_id,
        lyric_id: member_numeral(song, "id"),
    }
}

fn status_is_ok(doc: &Json) -> (r: bool)
    ensures
        r == status_ok(*doc),
{
    match member_natural(doc, "code") {
        Some(code) => code == 200,
        None => false,
    }
}

/// Decodes a search reply.
pub fn songs_from(doc: &Json, parse: Parse) -> (r: Result<Vec<SongTag>, ApiError>)
    ensures
        songs_view(r) == songs_of(*doc, parse),
{
    if !status_is_ok(doc) {
        return Err(ApiError::Protocol);
    }
    let items = match doc.get("result") {
        Some(result) => match result.get("songs") {
            Some(songs) => match songs.as_array() {
                Some(items) => items,
                None => {
                    return Err(ApiError::Protocol);
                },
            },
            None => {
                return Err(ApiError::Protocol);
            },
        },
        None => {
            return Err(ApiError::Protocol);
        },
    };
    let mut tags: Vec<SongTag> = Vec::new();
    let mut i: usize = 0;
    while i < items.len()
        invariant
            i <= items.len(),
            tags.len() == i,
            forall|j: int| 0 <= j < i ==> (#[trigger] tags@[j])@ == song_record(items@[j]),
        decreases items.len() - i,
    {
        tags.push(record_of(&items[i]));
        i += 1;
    }
    assert(tag_views(tags@) =~= items@.map_values(|song: Json| song_record(song)));
    Ok(tags)
}

/// Decodes a lyric reply.
pub fn lyric_from(doc: &Json) -> (r: Result<String, ApiError>)
    ensures
        lyric_view(r) == lyric_of(*doc),
{
    if !status_is_ok(doc) {
        return Err(ApiError::Protocol);
    }
    let lyric = match doc.get("lrc") {
        Some(lrc) => member_text(lrc, "lyric"),
        None => None,
    };
    match lyric {
        Some(lyric) => Ok(lyric),
        None => Err(ApiError::NoData),
    }
}

fn url_of(item: &Json) -> (r: Option<SongUrl>)
    ensures
        match r {
            Some(record) => url_record(*item) == Some(record@),
            None => url_record(*item) is None,
        },
{
    match (member_text(item, "url"), member_natural(item, "id")) {
        (Some(url), Some(id)) => if url.as_str().is_empty() {
            None
        } else {
            Some(SongUrl { id, url, rate: member_natural(item, "br") })
        },
        _ => None,
    }
}

/// Decodes a URL reply.
pub fn urls_from(doc: &Json) -> (r: Result<Vec<SongUrl>, ApiError>)
    ensures
        urls_view(r) == urls_of(*doc),
{
    if !status_is_ok(doc) {
        return Err(ApiError::Protocol);
    }
    let items = match doc.get("data") {
        Some(data) => match data.as_array() {
            Some(items) => items,
            None => {
                return Err(ApiError::Protocol);
            },
        },
        None => {
            return Err(ApiError::Protocol);
        },
    };
    let mut urls: Vec<SongUrl> = Vec::new();
    let mut i: usize = 0;
    assert(items@.take(0) =~= Seq::<Json>::empty());
    assert(url_views(urls@) =~= Seq::<SongUrlView>::empty());
    while i < items.len()
        invariant
            i <= items.len(),
            url_views(urls@) == url_records(items@.take(i as int)),
        decreases items.len() - i,
    {
        let ghost before = urls@;
        assert(items@.take(i + 1).drop_last() =~= items@.take(i as int));
        assert(items@.take(i + 1).last() == items@[i as int]);
        match url_of(&items[i]) {
            Some(record) => {
                urls.push(record);
                assert(url_views(urls@) =~= url_views(before).push(record@));
            },
            None => {},
        }
        i += 1;
    }
    assert(items@.take(i as int) =~= items@);
    Ok(urls)
}

/// Decodes the text of a search reply.
pub fn to_song_info(text: &str, parse: Parse) -> (r: Result<Vec<SongTag>, ApiError>)
    ensures
        songs_view(r) == songs_in(text@, parse),
{
    match parse_document(text) {
        Some(doc) => songs_from(&doc, parse),
        None => Err(ApiError::Protocol),
    }
}

/// Decodes the text of a lyric reply.
pub fn to_lyric(text: &str) -> (r: Result<String, ApiError>)
    ensures
        lyric_view(r) == lyric_in(text@),
{
    match parse_document(text) {
        Some(doc) => lyric_from(&doc),
        None => Err(ApiError::Protocol),
    }
}

/// Decodes the text of a URL reply.
pub fn to_song_url(text: &str) -> (r: Result<Vec<SongUrl>, ApiError>)
    ensures
        urls_view(r) == urls_in(text@),
{
    match parse_document(text) {
        Some(doc) => urls_from(&doc),
        None => Err(ApiError::Protocol),
    }
}

} // verus!
