//! Artwork: where a picture is fetched from, and what is made of the bytes
//! that come back.

use crate::error::ApiError;
use crate::request::Fetched;
use vstd::prelude::*;
use vstd::string::StringExecFns;

verus! {

/// The host that serves artwork, with the scheme before it and the slash
/// after it.
pub const ASSET_ROOT: &'static str = "https://p3.music.126.net/";

/// What follows the picture's identifier in its URL: the file type, and the
/// size that is asked for.
pub const ASSET_SUFFIX: &'static str = ".jpg?param=300y300";

/// The URL of the picture `pic_id`, whose obfuscated identifier is `segment`.
pub open spec fn artwork_url(segment: Seq<char>, pic_id: Seq<char>) -> Seq<char> {
    ASSET_ROOT@ + segment + "/"@ + pic_id + ASSET_SUFFIX@
}

/// Builds the URL of a picture from its obfuscated and its plain identifier.
pub fn artwork_location(segment: &str, pic_id: &str) -> (url: String)
    ensures
        url@ == artwork_url(segment@, pic_id@),
{
    let mut url = String::from_str(ASSET_ROOT);
    url.append(segment);
    url.append("/");
    url.append(pic_id);
    url.append(ASSET_SUFFIX);
    url
}

#[verifier::external_type_specification]
#[verifier::external_body]
pub struct ExPicture(lofty::picture::Picture);

#[verifier::external_type_specification]
#[verifier::external_body]
pub struct ExPictureParseError(lofty::picture::error::PictureParseError);

/// `bytes` begins with `magic`.
pub open spec fn begins_with(bytes: Seq<u8>, magic: Seq<u8>) -> bool {
    magic.len() <= bytes.len() && bytes.subrange(0, magic.len() as int) == magic
}

/// `bytes` is at least eight bytes long and begins with the signature of a
/// PNG, JPEG, GIF, BMP or TIFF file.
pub open spec fn is_image(bytes: Seq<u8>) -> bool {
    &&& bytes.len() >= 8
    &&& {
        ||| begins_with(bytes, seq![0x89u8, 0x50u8, 0x4Eu8, 0x47u8, 0x0Du8, 0x0Au8, 0x1Au8, 0x0Au8])
        ||| begins_with(bytes, seq![0xFFu8, 0xD8u8])
        ||| begins_with(bytes, seq![0x47u8, 0x49u8, 0x46u8, 0x38u8, 0x37u8, 0x61u8])
        ||| begins_with(bytes, seq![0x47u8, 0x49u8, 0x46u8, 0x38u8, 0x39u8, 0x61u8])
        ||| begins_with(bytes, seq![0x42u8, 0x4Du8])
        ||| begins_with(bytes, seq![0x49u8, 0x49u8, 0x2Au8, 0x00u8])
        ||| begins_with(bytes, seq![0x4Du8, 0x4Du8, 0x00u8, 0x2Au8])
    }
}

/// The bytes that a `lofty::picture::Picture` holds.
pub uninterp spec fn picture_data(picture: lofty::picture::Picture) -> Seq<u8>;

/// `lofty::picture::Picture::from_reader`, reading from a slice.
///
/// It reads the slice to its end, refuses fewer than eight bytes and any
/// beginning that is not one of the signatures of [`is_image`], and else
/// keeps all the bytes as the picture's data.
#[verifier::external_body]
fn read_picture(bytes: &[u8]) -> (r: Result<
    lofty::picture::Picture,
    lofty::picture::error::PictureParseError,
>)
    ensures
        r is Ok <==> is_image(bytes@),
        r matches Ok(picture) ==> picture_data(picture) == bytes@,
{
    let mut reader = bytes;
    lofty::picture::Picture::from_reader(&mut reader)
}

/// Makes a picture of the bytes of an image file. Bytes that are no image
/// are a reply that cannot be used.
pub fn picture_from(bytes: &[u8]) -> (r: Result<lofty::picture::Picture, ApiError>)
    ensures
        r is Ok <==> is_image(bytes@),
        r matches Ok(picture) ==> picture_data(picture) == bytes@,
        r matches Err(e) ==> e == ApiError::Protocol,
{
    match read_picture(bytes) {
        Ok(picture) => Ok(picture),
        Err(_) => Err(ApiError::Protocol),
    }
}

/// What a fetch of artwork comes to: the picture, or the reason why there
/// is none.
pub fn picture_of(fetched: &Fetched) -> (r: Result<lofty::picture::Picture, ApiError>)
    ensures
        match *fetched {
            Fetched::Failed => r matches Err(e) && e == ApiError::Transport,
            Fetched::Bytes(bytes) => {
                &&& r is Ok <==> is_image(bytes@)
                &&& r matches Ok(picture) ==> picture_data(picture) == bytes@
                &&& r matches Err(e) ==> e == ApiError::Protocol
            },
        },
{
    match fetched {
        Fetched::Failed => Err(ApiError::Transport),
        Fetched::Bytes(bytes) => picture_from(bytes.as_slice()),
    }
}

} // verus!
