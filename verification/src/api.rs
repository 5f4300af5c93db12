//! The client and its calls.
//!
//! A call is one exchange with the server, and the client does not send
//! anything itself. Each call is therefore in two parts. The first builds
//! the request: `search`, `song_lyric`, `songs_url`, `song_url`, `pic`. The
//! caller sends it and hands what came of that to the second part, named
//! after the first with `_reply`, which updates the session and decodes the
//! reply. Nothing is retried.

use crate::artwork::{artwork_location, artwork_url, is_image, picture_data, picture_of};
use crate::error::ApiError;
use crate::model::{
    lyric_in, lyric_view, songs_in, songs_view, to_lyric, to_song_info, to_song_url, url_views,
    urls_in, urls_view, Parse, SongTag, SongUrl, SongUrlView,
};
use crate::params::{encode_ids, ids_text, object_text, Params};
use crate::request::{
    endpoint, endpoint_url, get_request, plain_get, post_headers, signed_post, Cipher, CryptoApi,
    Exchange, Fetched, HttpRequest, HttpRequestView, Method, SetCookie,
};
use crate::session::{received, token_after, token_from_header};
use crate::text::{decimal, decimal_text, parse_u64, parsed_u64};
use crate::user_agent::{choose_user_agent, selected_agent};
use vstd::prelude::*;

verus! {

/// The path of the search call.
pub const SEARCH_PATH: &'static str = "/weapi/search/get";

/// The path of the lyric call.
pub const LYRIC_PATH: &'static str = "/weapi/song/lyric";

/// The path of the call for playable URLs.
pub const SONG_URL_PATH: &'static str = "/weapi/song/enhance/player/url/v1";

/// The key under which the session token travels among the parameters.
pub const TOKEN_KEY: &'static str = "csrf_token";

/// What a search looks for.
#[derive(Clone, Copy, Debug, PartialEq, Eq, Structural)]
pub enum SearchRequestType {
    Single,
    Singer,
    Album,
    Playlist,
    User,
}

impl SearchRequestType {
    /// The number by which the server knows this kind of search.
    pub open spec fn code_of(self) -> u64 {
        match self {
            SearchRequestType::Single => 1,
            SearchRequestType::Singer => 100,
            SearchRequestType::Album => 10,
            SearchRequestType::Playlist => 1000,
            SearchRequestType::User => 1002,
        }
    }

    /// The number by which the server knows this kind of search.
    pub fn code(&self) -> (r: u64)
        ensures
            r == self.code_of(),
    {
        match self {
            SearchRequestType::Single => 1,
            SearchRequestType::Singer => 100,
            SearchRequestType::Album => 10,
            SearchRequestType::Playlist => 1000,
            SearchRequestType::User => 1002,
        }
    }
}

/// The parameters of a search.
pub open spec fn search_params(
    keywords: Seq<char>,
    types: SearchRequestType,
    offset: u16,
    limit: u16,
) -> Map<Seq<char>, Seq<char>> {
    Map::<Seq<char>, Seq<char>>::empty().insert("s"@, keywords).insert(
        "type"@,
        decimal_text(types.code_of() as nat),
    ).insert("offset"@, decimal_text(offset as nat)).insert("limit"@, decimal_text(limit as nat))
}

/// The parameters of a lyric call: the track, and for the lyric in either
/// language the version `-1`, which asks for whatever there is.
pub open spec fn lyric_params(music_id: Seq<char>, token: Seq<char>) -> Map<Seq<char>, Seq<char>> {
    Map::<Seq<char>, Seq<char>>::empty().insert("id"@, music_id).insert("lv"@, "-1"@).insert(
        "tv"@,
        "-1"@,
    ).insert(TOKEN_KEY@, token)
}

/// The parameters of a call for playable URLs: the tracks, the quality and
/// the codec.
pub open spec fn url_params(ids: Seq<u64>, token: Seq<char>) -> Map<Seq<char>, Seq<char>> {
    Map::<Seq<char>, Seq<char>>::empty().insert("ids"@, ids_text(ids)).insert(
        "level"@,
        "standard"@,
    ).insert("encodeType"@, "aac"@).insert(TOKEN_KEY@, token)
}

/// Builds the parameters of a search.
pub fn search_query(keywords: &str, types: SearchRequestType, offset: u16, limit: u16) -> (params:
    Params)
    ensures
        params@ == search_params(keywords@, types, offset, limit),
{
    let mut params = Params::new();
    params.insert("s", keywords);
    params.insert("type", decimal(types.code()).as_str());
    params.insert("offset", decimal(offset as u64).as_str());
    params.insert("limit", decimal(limit as u64).as_str());
    params
}

/// Builds the parameters of a lyric call.
pub fn lyric_query(music_id: &str, token: &str) -> (params: Params)
    ensures
        params@ == lyric_params(music_id@, token@),
{
    let mut params = Params::new();
    params.insert("id", music_id);
    params.insert("lv", "-1");
    params.insert("tv", "-1");
    params.insert(TOKEN_KEY, token);
    params
}

/// Builds the parameters of a call for playable URLs.
pub fn url_query(ids: &[u64], token: &str) -> (r: Result<Params, ApiError>)
    ensures
        r matches Ok(params) && params@ == url_params(ids@, token@),
{
    match encode_ids(ids) {
        Err(e) => Err(e),
        Ok(list) => {
            let mut params = Params::new();
            params.insert("ids", list.as_str());
            params.insert("level", "standard");
            params.insert("encodeType", "aac");
            params.insert(TOKEN_KEY, token);
            Ok(params)
        },
    }
}

/// `request` is a write-style request to `path` with the fixed headers,
/// under a browser signature that `hint` allows.
pub open spec fn is_post_to(request: HttpRequestView, path: Seq<char>, hint: Seq<char>) -> bool {
    &&& request.method == Method::Post
    &&& request.url == endpoint(path)
    &&& exists|draw: nat| request.headers == post_headers(#[trigger] selected_agent(hint, draw))
}

/// What building a write-style request comes to: the request, or a failure
/// of the signing transform.
pub open spec fn is_signed_post(r: Result<HttpRequest, ApiError>, path: Seq<char>, hint: Seq<char>) -> bool {
    match r {
        Ok(request) => is_post_to(request@, path, hint),
        Err(e) => e == ApiError::Signing,
    }
}

/// What the reply to a search decodes to, for the kind of search that was
/// asked for: only a search for single tracks has a decoder.
pub open spec fn search_outcome(types: SearchRequestType, body: Seq<char>) -> Result<
    Seq<crate::model::SongTagView>,
    ApiError,
> {
    if types == SearchRequestType::Single {
        songs_in(body, Parse::Search)
    } else {
        Err(ApiError::Input)
    }
}

/// The URL of the first record, or the outcome that there is none.
pub open spec fn first_url(urls: Seq<SongUrlView>) -> Result<Seq<char>, ApiError> {
    if urls.len() == 0 {
        Err(ApiError::NoData)
    } else {
        Ok(urls[0].url)
    }
}

/// What the reply to a call for one track's URL decodes to.
pub open spec fn song_url_outcome(body: Seq<char>) -> Result<Seq<char>, ApiError> {
    match urls_in(body) {
        Ok(urls) => first_url(urls),
        Err(e) => Err(e),
    }
}

/// Picks the URL of the first of the decoded records. An empty list means
/// that the track cannot be played.
pub fn first_song_url(urls: &Vec<SongUrl>) -> (r: Result<String, ApiError>)
    ensures
        lyric_view(r) == first_url(url_views(urls@)),
{
    if urls.len() == 0 {
        Err(ApiError::NoData)
    } else {
        Ok(urls[0].url.clone())
    }
}

/// A search of any kind but the one for single tracks is refused, whatever
/// the server answered.
pub proof fn lemma_other_kinds_are_refused(types: SearchRequestType, body: Seq<char>)
    requires
        types != SearchRequestType::Single,
    ensures
        search_outcome(types, body) == Err::<Seq<crate::model::SongTagView>, ApiError>(
            ApiError::Input,
        ),
{
}

/// A reply that decodes to an empty list of URL records says that there is
/// no data; it is not a reply that cannot be used.
pub proof fn lemma_empty_list_is_no_data(body: Seq<char>)
    requires
        urls_in(body) == Ok::<Seq<SongUrlView>, ApiError>(Seq::empty()),
    ensures
        song_url_outcome(body) == Err::<Seq<char>, ApiError>(ApiError::NoData),
{
}

/// The empty literal is the empty hint.
proof fn lemma_no_hint()
    ensures
        ""@ == Seq::<char>::empty(),
{
    reveal_strlit("");
    assert(""@ =~= Seq::<char>::empty());
}

/// The client: it holds the session token, which is empty until a reply
/// sets it.
pub struct Api {
    csrf: String,
}

impl View for Api {
    type V = Seq<char>;

    /// The session token.
    closed spec fn view(&self) -> Seq<char> {
        self.csrf@
    }
}

impl Api {
    /// A client without a session token.
    pub fn new() -> (api: Api)
        ensures
            api@ == Seq::<char>::empty(),
    {
        Api { csrf: String::new() }
    }

    /// The session token.
    pub fn csrf(&self) -> (token: &str)
        ensures
            token@ == self@,
    {
        self.csrf.as_str()
    }

    /// The text that is signed for a write-style request: the parameters,
    /// with the session token among them, as a JSON object.
    pub fn plaintext(&self, params: Params, cryptoapi: CryptoApi) -> (r: Result<String, ApiError>)
        ensures
            r is Ok,
            r matches Ok(text) ==> text@ == object_text(params@.insert(TOKEN_KEY@, self@)),
    {
        match cryptoapi {
            CryptoApi::Weapi => {
                let mut params = params;
                params.insert(TOKEN_KEY, self.csrf.as_str());
                params.encode()
            },
        }
    }

    /// Builds the request for `path`.
    ///
    /// A read-style request is the plain URL. A write-style request is
    /// signed: the text of [`Api::plaintext`] goes through the cipher, and
    /// what comes back is the body, under the fixed headers and a browser
    /// signature chosen for `ua`. If the cipher fails, so does the call.
    pub fn request<C: Cipher>(
        &self,
        cipher: &C,
        method: Method,
        path: &str,
        params: Params,
        cryptoapi: CryptoApi,
        ua: &str,
    ) -> (r: Result<HttpRequest, ApiError>)
        ensures
            method == Method::Get ==> (r matches Ok(request) && request@ == get_request(
                endpoint(path@),
            )),
            method == Method::Post ==> is_signed_post(r, path@, ua@),
    {
        let url = endpoint_url(path);
        match method {
            Method::Get => Ok(plain_get(url)),
            Method::Post => {
                let agent = match cryptoapi {
                    CryptoApi::Weapi => choose_user_agent(ua),
                };
                match self.plaintext(params, cryptoapi) {
                    Err(e) => Err(e),
                    Ok(text) => {
                        let signed = match cryptoapi {
                            CryptoApi::Weapi => cipher.weapi(text.as_str()),
                        };
                        signed_post(url, agent, signed)
                    },
                }
            },
        }
    }

    /// Takes in what came of sending a request, and gives the reply's body.
    ///
    /// The reply to a write-style request sets the session token if none is
    /// held and its `set-cookie` header names one. The body is returned
    /// whatever the status code was. A failed transport fails the call.
    pub fn receive(&mut self, method: Method, exchange: Exchange) -> (r: Result<String, ApiError>)
        ensures
            final(self)@ == token_after(old(self)@, method, exchange),
            lyric_view(r) == received(old(self)@, method, exchange),
    {
        match exchange {
            Exchange::Failed => Err(ApiError::Transport),
            Exchange::Answered(reply) => {
                match method {
                    Method::Get => {},
                    Method::Post => {
                        if self.csrf.as_str().is_empty() {
                            match reply.set_cookie {
                                SetCookie::Absent => {},
                                SetCookie::Unreadable => {
                                    return Err(ApiError::Protocol);
                                },
                                SetCookie::Text(header) => {
                                    self.csrf = token_from_header(header.as_str());
                                },
                            }
                        }
                    },
                }
                Ok(reply.body)
            },
        }
    }

    /// Builds the request of a search for `keywords`, for `limit` results
    /// from `offset` on.
    ///
    /// Every kind of search can be asked for, though only the results of a
    /// search for single tracks are decoded.
    pub fn search<C: Cipher>(
        &self,
        cipher: &C,
        keywords: &str,
        types: SearchRequestType,
        offset: u16,
        limit: u16,
    ) -> (r: Result<HttpRequest, ApiError>)
        ensures
            is_signed_post(r, SEARCH_PATH@, Seq::empty()),
    {
        let params = search_query(keywords, types, offset, limit);
        proof {
            lemma_no_hint();
        }
        self.request(cipher, Method::Post, SEARCH_PATH, params, CryptoApi::Weapi, "")
    }

    /// Takes in the reply to a search.
    ///
    /// The tracks are decoded for a search for single tracks. Any other
    /// kind is refused here, after the exchange, whatever the reply was.
    pub fn search_reply(&mut self, types: SearchRequestType, exchange: Exchange) -> (r: Result<
        Vec<SongTag>,
        ApiError,
    >)
        ensures
            final(self)@ == token_after(old(self)@, Method::Post, exchange),
            songs_view(r) == match received(old(self)@, Method::Post, exchange) {
                Ok(body) => search_outcome(types, body),
                Err(e) => Err(e),
            },
    {
        match self.receive(Method::Post, exchange) {
            Err(e) => Err(e),
            Ok(body) => match types {
                SearchRequestType::Single => to_song_info(body.as_str(), Parse::Search),
                _ => Err(ApiError::Input),
            },
        }
    }

    /// Builds the request for the lyric of the track `music_id`.
    pub fn song_lyric<C: Cipher>(&self, cipher: &C, music_id: &str) -> (r: Result<
        HttpRequest,
        ApiError,
    >)
        ensures
            is_signed_post(r, LYRIC_PATH@, Seq::empty()),
    {
        let params = lyric_query(music_id, self.csrf.as_str());
        proof {
            lemma_no_hint();
        }
        self.request(cipher, Method::Post, LYRIC_PATH, params, CryptoApi::Weapi, "")
    }

    /// Takes in the reply to a lyric call. A track without a lyric gives
    /// [`ApiError::NoData`].
    pub fn song_lyric_reply(&mut self, exchange: Exchange) -> (r: Result<String, ApiError>)
        ensures
            final(self)@ == token_after(old(self)@, Method::Post, exchange),
            lyric_view(r) == match received(old(self)@, Method::Post, exchange) {
                Ok(body) => lyric_in(body),
                Err(e) => Err(e),
            },
    {
        match self.receive(Method::Post, exchange) {
            Err(e) => Err(e),
            Ok(body) => to_lyric(body.as_str()),
        }
    }

    /// Builds the request for the playable URLs of the tracks `ids`.
    pub fn songs_url<C: Cipher>(&self, cipher: &C, ids: &[u64]) -> (r: Result<
        HttpRequest,
        ApiError,
    >)
        ensures
            is_signed_post(r, SONG_URL_PATH@, Seq::empty()),
    {
        proof {
            lemma_no_hint();
        }
        match url_query(ids, self.csrf.as_str()) {
            Err(_) => Err(ApiError::Signing),
            Ok(params) => self.request(
                cipher,
                Method::Post,
                SONG_URL_PATH,
                params,
                CryptoApi::Weapi,
                "",
            ),
        }
    }

    /// Takes in the reply to a call for playable URLs. The records come in
    /// the server's order, and a track that cannot be played has none.
    pub fn songs_url_reply(&mut self, exchange: Exchange) -> (r: Result<Vec<SongUrl>, ApiError>)
        ensures
            final(self)@ == token_after(old(self)@, Method::Post, exchange),
            urls_view(r) == match received(old(self)@, Method::Post, exchange) {
                Ok(body) => urls_in(body),
                Err(e) => Err(e),
            },
    {
        match self.receive(Method::Post, exchange) {
            Err(e) => Err(e),
            Ok(body) => to_song_url(body.as_str()),
        }
    }

    /// Builds the request for the playable URL of one track, named by the
    /// decimal numeral of its identifier.
    ///
    /// An identifier that is no such numeral is refused, and no request is
    /// built.
    pub fn song_url<C: Cipher>(&self, cipher: &C, id: &str) -> (r: Result<HttpRequest, ApiError>)
        ensures
            parsed_u64(id@) is None ==> r == Err::<HttpRequest, ApiError>(ApiError::Input),
            parsed_u64(id@) is Some ==> is_signed_post(r, SONG_URL_PATH@, Seq::empty()),
    {
        match parse_u64(id) {
            None => Err(ApiError::Input),
            Some(song_id) => {
                let mut ids: Vec<u64> = Vec::new();
                ids.push(song_id);
                self.songs_url(cipher, ids.as_slice())
            },
        }
    }

    /// Takes in the reply to a call for one track's URL. A reply without a
    /// record gives [`ApiError::NoData`].
    pub fn song_url_reply(&mut self, exchange: Exchange) -> (r: Result<String, ApiError>)
        ensures
            final(self)@ == token_after(old(self)@, Method::Post, exchange),
            lyric_view(r) == match received(old(self)@, Method::Post, exchange) {
                Ok(body) => song_url_outcome(body),
                Err(e) => Err(e),
            },
    {
        match self.songs_url_reply(exchange) {
            Err(e) => Err(e),
            Ok(urls) => first_song_url(&urls),
        }
    }

    /// Builds the request for the picture `pic_id`: a read-style request to
    /// the asset host, under the identifier that the cipher makes of
    /// `pic_id`.
    pub fn pic<C: Cipher>(&self, cipher: &C, pic_id: &str) -> (request: HttpRequest)
        ensures
            exists|segment: Seq<char>| request@ == get_request(#[trigger] artwork_url(segment, pic_id@)),
    {
        let segment = cipher.encrypt_id(pic_id);
        let request = plain_get(artwork_location(segment.as_str(), pic_id));
        assert(request@ == get_request(artwork_url(segment@, pic_id@)));
        request
    }

    /// Takes in what came of fetching a picture. The session is not
    /// touched.
    pub fn pic_reply(&self, fetched: &Fetched) -> (r: Result<lofty::picture::Picture, ApiError>)
        ensures
            match *fetched {
                Fetched::Failed => r matches Err(e) && e == ApiError::Transport,
                Fetched::Bytes(bytes) => {
                    &&& r is Ok <==> is_image(bytes@)
                    &&& r matches Ok(picture) ==> picture_data(picture) == bytes@
                    &&& r matches Err(e) ==> e == ApiError::Protocol
                },
            },
    {
        picture_of(fetched)
    }
}

} // verus!
