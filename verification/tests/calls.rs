use lofty::picture::MimeType;
use netease::api::{Api, SearchRequestType};
use netease::artwork::{artwork_location, picture_from, picture_of};
use netease::error::ApiError;
use netease::request::{Cipher, Exchange, Fetched, HttpRequest, Method, Reply, SetCookie};

struct Plain;

impl Cipher for Plain {
    fn weapi(&self, text: &str) -> Option<String> {
        Some(text.to_string())
    }

    fn encrypt_id(&self, id: &str) -> String {
        format!("x{}x", id)
    }
}

fn answered(body: &str) -> Exchange {
    Exchange::Answered(Reply { set_cookie: SetCookie::Absent, body: body.to_string() })
}

fn with_cookie(cookie: &str, body: &str) -> Exchange {
    Exchange::Answered(Reply { set_cookie: SetCookie::Text(cookie.to_string()), body: body.to_string() })
}

const ONE_TRACK: &str = r#"{"result":{"songs":[{"id":36990266,"name":"Faded","artists":[{"name":"Alan Walker"}],"album":{"id":3406843,"name":"Faded","picId":18}}],"songCount":1},"code":200}"#;

#[test]
fn search_for_faded_gives_one_track() {
    let mut api = Api::new();
    let request = api.search(&Plain, "faded", SearchRequestType::Single, 0, 10).unwrap();
    assert_eq!(request.method, Method::Post);
    let tags = api.search_reply(SearchRequestType::Single, answered(ONE_TRACK)).unwrap();
    assert_eq!(tags.len(), 1);
    assert_eq!(tags[0].title.as_deref(), Some("Faded"));
    assert_eq!(tags[0].artist.as_deref(), Some("Alan Walker"));
    assert_eq!(tags[0].album.as_deref(), Some("Faded"));
    assert_eq!(tags[0].song_id.as_deref(), Some("36990266"));
    assert_eq!(tags[0].lyric_id.as_deref(), Some("36990266"));
    assert_eq!(tags[0].album_id.as_deref(), Some("3406843"));
    assert_eq!(tags[0].pic_id.as_deref(), Some("18"));
}

#[test]
fn search_of_another_kind_is_refused_after_the_exchange() {
    for kind in [
        SearchRequestType::Singer,
        SearchRequestType::Album,
        SearchRequestType::Playlist,
        SearchRequestType::User,
    ] {
        let mut api = Api::new();
        assert!(api.search(&Plain, "faded", kind, 0, 10).is_ok());
        let r = api.search_reply(kind, with_cookie("__csrf=tok", ONE_TRACK));
        assert_eq!(r, Err(ApiError::Input));
        assert_eq!(api.csrf(), "tok");
    }
}

#[test]
fn search_of_another_kind_still_reports_a_failed_transport() {
    let mut api = Api::new();
    assert_eq!(api.search_reply(SearchRequestType::Album, Exchange::Failed), Err(ApiError::Transport));
    assert_eq!(api.search_reply(SearchRequestType::Single, Exchange::Failed), Err(ApiError::Transport));
}

#[test]
fn search_reply_that_cannot_be_used_is_a_protocol_error() {
    let mut api = Api::new();
    assert_eq!(api.search_reply(SearchRequestType::Single, answered("<html>")), Err(ApiError::Protocol));
    assert_eq!(
        api.search_reply(SearchRequestType::Single, answered(r#"{"code":200,"result":{}}"#)),
        Err(ApiError::Protocol)
    );
}

#[test]
fn replies_set_the_token_once() {
    let mut api = Api::new();
    api.search_reply(SearchRequestType::Single, with_cookie("__csrf=one; Path=/", ONE_TRACK)).unwrap();
    assert_eq!(api.csrf(), "one");
    api.song_lyric_reply(with_cookie("__csrf=two; Path=/", r#"{"code":200,"lrc":{"lyric":"la"}}"#)).unwrap();
    assert_eq!(api.csrf(), "one");
    api.songs_url_reply(with_cookie("__csrf=three", r#"{"code":200,"data":[]}"#)).unwrap();
    api.song_url_reply(with_cookie("__csrf=four", "garbage")).unwrap_err();
    assert_eq!(api.csrf(), "one");
}

#[test]
fn reply_sets_the_token_even_if_it_cannot_be_decoded() {
    let mut api = Api::new();
    assert_eq!(api.song_lyric_reply(with_cookie("__csrf=kept", "garbage")), Err(ApiError::Protocol));
    assert_eq!(api.csrf(), "kept");
}

#[test]
fn lyric_call_gives_the_lyric() {
    let mut api = Api::new();
    api.song_lyric(&Plain, "36990266").unwrap();
    let lyric = api.song_lyric_reply(answered(r#"{"code":200,"lrc":{"version":3,"lyric":"[00:00.00] la la\n"}}"#));
    assert_eq!(lyric, Ok("[00:00.00] la la\n".to_string()));
}

#[test]
fn lyric_call_with_a_null_lyric_is_no_data() {
    let mut api = Api::new();
    let r = api.song_lyric_reply(answered(r#"{"code":200,"lrc":{"version":0,"lyric":null}}"#));
    assert_eq!(r, Err(ApiError::NoData));
    assert_eq!(api.song_lyric_reply(Exchange::Failed), Err(ApiError::Transport));
}

#[test]
fn urls_call_gives_the_records_in_the_servers_order() {
    let mut api = Api::new();
    api.songs_url(&Plain, &[1, 2]).unwrap();
    let urls = api
        .songs_url_reply(answered(r#"{"code":200,"data":[{"id":2,"url":"http://b","br":320000},{"id":1,"url":"http://a","br":128000}]}"#))
        .unwrap();
    let got: Vec<(u64, &str, Option<u64>)> = urls.iter().map(|u| (u.id, u.url.as_str(), u.rate)).collect();
    assert_eq!(got, vec![(2, "http://b", Some(320000)), (1, "http://a", Some(128000))]);
}

#[test]
fn song_url_call_gives_the_first_url() {
    let mut api = Api::new();
    api.song_url(&Plain, "36990266").unwrap();
    let url = api.song_url_reply(answered(r#"{"code":200,"data":[{"id":36990266,"url":"http://m7/a.m4a","br":96000}]}"#));
    assert_eq!(url, Ok("http://m7/a.m4a".to_string()));
}

#[test]
fn song_url_call_with_an_empty_list_is_no_data() {
    let mut api = Api::new();
    assert_eq!(api.song_url_reply(answered(r#"{"code":200,"data":[]}"#)), Err(ApiError::NoData));
    assert_eq!(api.song_url_reply(answered(r#"{"code":200,"data":[{"id":1,"url":null}]}"#)), Err(ApiError::NoData));
    assert_eq!(api.song_url_reply(answered(r#"{"code":200}"#)), Err(ApiError::Protocol));
    assert_eq!(api.song_url_reply(Exchange::Failed), Err(ApiError::Transport));
}

#[test]
fn picture_request_goes_to_the_asset_host() {
    let request = Api::new().pic(&Plain, "109951165963781127");
    assert_eq!(
        request,
        HttpRequest {
            method: Method::Get,
            url: "https://p3.music.126.net/x109951165963781127x/109951165963781127.jpg?param=300y300".to_string(),
            headers: vec![],
            body: String::new(),
        }
    );
    assert_eq!(artwork_location("seg", "7"), "https://p3.music.126.net/seg/7.jpg?param=300y300");
}

fn jpeg() -> Vec<u8> {
    vec![0xFF, 0xD8, 0xFF, 0xE0, 0x00, 0x10, 0x4A, 0x46, 0x49, 0x46, 0x00]
}

#[test]
fn picture_is_made_of_image_bytes() {
    let picture = Api::new().pic_reply(&Fetched::Bytes(jpeg())).unwrap();
    assert_eq!(picture.data(), &jpeg()[..]);
    assert_eq!(picture.mime_type(), Some(&MimeType::Jpeg));
    let png = vec![0x89, b'P', b'N', b'G', 0x0D, 0x0A, 0x1A, 0x0A];
    assert_eq!(picture_from(&png).unwrap().mime_type(), Some(&MimeType::Png));
    for sig in [&b"GIF87a.."[..], &b"GIF89a.."[..], &b"BM......"[..], &b"II*\0...."[..], &b"MM\0*...."[..]] {
        assert_eq!(picture_from(sig).unwrap().data(), sig);
    }
}

#[test]
fn bytes_that_are_no_image_are_refused() {
    let api = Api::new();
    assert!(matches!(api.pic_reply(&Fetched::Bytes(vec![])), Err(ApiError::Protocol)));
    assert!(matches!(api.pic_reply(&Fetched::Bytes(vec![0xFF, 0xD8, 0xFF])), Err(ApiError::Protocol)));
    assert!(matches!(api.pic_reply(&Fetched::Bytes(b"<html>404</html>".to_vec())), Err(ApiError::Protocol)));
    assert!(matches!(picture_from(b"GIF88a.."), Err(ApiError::Protocol)));
    assert!(matches!(picture_from(&[0x89, b'P', b'N', b'G', 0x0D, 0x0A, 0x1A, 0x0B]), Err(ApiError::Protocol)));
    assert!(matches!(picture_of(&Fetched::Failed), Err(ApiError::Transport)));
    assert!(matches!(api.pic_reply(&Fetched::Failed), Err(ApiError::Transport)));
}
