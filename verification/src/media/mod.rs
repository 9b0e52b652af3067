//! Media items (images, videos, sounds, links) and how an upload is prepared.

pub mod routes;

use crate::{DbError, BASE_URL};
use base64::{engine::general_purpose, Engine};
use std::collections::VecDeque;
use vstd::prelude::*;

verus! {

/// The kind of a media item.
#[derive(Clone, Copy, Debug, PartialEq, Eq, Structural)]
pub enum MediaType {
    Image,
    Video,
    Audio,
    Youtube,
}

/// The file extension under which a media kind is stored.
pub open spec fn extension(t: MediaType) -> Seq<char> {
    match t {
        MediaType::Image => "png"@,
        MediaType::Video => "mp4"@,
        MediaType::Audio => "mp3"@,
        MediaType::Youtube => ""@,
    }
}

impl MediaType {
    /// The file extension of this kind: `png`, `mp4`, `mp3`, or none for a link.
    pub fn to_file_extension(&self) -> (r: &'static str)
        ensures
            r@ == extension(*self),
    {
        match self {
            MediaType::Image => "png",
            MediaType::Video => "mp4",
            MediaType::Audio => "mp3",
            MediaType::Youtube => "",
        }
    }
}

/// A media item as a client submits it: base64 file content, or a link.
#[derive(Debug)]
pub struct NewMediaData {
    pub data: String,
    pub media_type: MediaType,
}

#[verifier::external_type_specification]
#[verifier::external_body]
pub struct ExDecodeError(base64::DecodeError);

/// What a media item failed on: the database, its base64 content, or
/// writing its file (with the error's text).
#[derive(Debug)]
pub enum MediaError {
    Sqlx(DbError),
    Base64(base64::DecodeError),
    IO(String),
}

impl From<DbError> for MediaError {
    fn from(value: DbError) -> (r: Self) {
        MediaError::Sqlx(value)
    }
}

impl vstd::std_specs::convert::FromSpecImpl<DbError> for MediaError {
    open spec fn obeys_from_spec() -> bool {
        true
    }

    open spec fn from_spec(v: DbError) -> Self {
        MediaError::Sqlx(v)
    }
}

impl From<base64::DecodeError> for MediaError {
    fn from(value: base64::DecodeError) -> (r: Self) {
        MediaError::Base64(value)
    }
}

impl vstd::std_specs::convert::FromSpecImpl<base64::DecodeError> for MediaError {
    open spec fn obeys_from_spec() -> bool {
        true
    }

    open spec fn from_spec(v: base64::DecodeError) -> Self {
        MediaError::Base64(v)
    }
}

/// A stored media item.
#[derive(Debug)]
pub struct Media {
    pub uuid: u128,
    pub uri: String,
    pub media_type: MediaType,
}

/// The bytes that standard base64 (with padding) decodes `text` to, or
/// `None` where `text` is not valid standard base64.
pub uninterp spec fn base64_standard_decode(text: Seq<char>) -> Option<Seq<u8>>;

/// `general_purpose::STANDARD.decode` of the `base64` crate. Claimed: it
/// succeeds exactly where `base64_standard_decode` gives bytes, and then
/// returns those bytes; which `DecodeError` comes on failure is left open.
#[verifier::external_body]
fn decode_base64(data: &str) -> (r: Result<Vec<u8>, base64::DecodeError>)
    ensures
        r is Ok <==> base64_standard_decode(data@) is Some,
        r matches Ok(b) ==> Some(b@) == base64_standard_decode(data@),
{
    general_purpose::STANDARD.decode(data)
}

/// A lowercase hex digit.
pub open spec fn is_lower_hex_digit(c: char) -> bool {
    ('0' <= c && c <= '9') || ('a' <= c && c <= 'f')
}

/// The hyphenated lowercase text of a version 4 uuid: 36 characters in
/// groups of 8, 4, 4, 4 and 12 lowercase hex digits joined by `-`, with the
/// version digit `4` and a variant digit among `8`, `9`, `a`, `b`.
pub open spec fn is_v4_uuid_text(s: Seq<char>) -> bool {
    &&& s.len() == 36
    &&& forall|i: int| 0 <= i < 36 ==> if i == 8 || i == 13 || i == 18 || i == 23 {
        #[trigger] s[i] == '-'
    } else {
        is_lower_hex_digit(s[i])
    }
    &&& s[14] == '4'
    &&& (s[19] == '8' || s[19] == '9' || s[19] == 'a' || s[19] == 'b')
}

/// `Uuid::new_v4().to_string()` of the `uuid` crate. Claimed: the text is
/// the hyphenated lowercase form of a version 4 uuid (the crate sets the
/// version and variant bits in `new_v4` and writes `Display` as lowercase
/// hyphenated hex); which random id comes is left open.
#[verifier::external_body]
fn new_uuid_text() -> (r: String)
    ensures
        is_v4_uuid_text(r@),
{
    uuid::Uuid::new_v4().to_string()
}

/// The file name under which an upload with id `id` is stored.
pub open spec fn upload_name(id: Seq<char>, t: MediaType) -> Seq<char> {
    id + "."@ + extension(t)
}

/// The address at which an upload with id `id` is served.
pub open spec fn upload_uri(id: Seq<char>, t: MediaType) -> Seq<char> {
    BASE_URL@ + "/media/upload/"@ + upload_name(id, t)
}

/// Whether a media kind is uploaded as a file (rather than kept as a link).
pub open spec fn is_file_kind(t: MediaType) -> bool {
    t is Image || t is Video || t is Audio
}

/// How to store a new media item: keep its text as a link, or write its
/// decoded bytes to a file and serve them from an address.
#[derive(Debug)]
pub enum UploadPlan {
    Link(String),
    File { file_name: String, bytes: Vec<u8>, uri: String },
}

/// The plan for `data` when its file gets the id `id`.
pub open spec fn planned_with_id(data: NewMediaData, id: Seq<char>, r: Result<UploadPlan, MediaError>) -> bool {
    if !is_file_kind(data.media_type) {
        r matches Ok(UploadPlan::Link(l)) && l@ == data.data@
    } else {
        match base64_standard_decode(data.data@) {
            None => r matches Err(MediaError::Base64(_)),
            Some(bytes) => r matches Ok(UploadPlan::File { file_name, bytes: b, uri })
                && file_name@ == upload_name(id, data.media_type)
                && b@ == bytes
                && uri@ == upload_uri(id, data.media_type),
        }
    }
}

impl NewMediaData {
    /// The plan for this item when its file gets the id `id`: a link is
    /// kept as it is; file content is decoded from base64 and gets the
    /// name `id.ext` and the address `BASE_URL/media/upload/id.ext`.
    pub fn plan_upload_named(&self, id: &str) -> (r: Result<UploadPlan, MediaError>)
        ensures
            planned_with_id(*self, id@, r),
    {
        match self.media_type {
            MediaType::Image | MediaType::Video | MediaType::Audio => {},
            _ => {
                return Ok(UploadPlan::Link(self.data.clone()));
            },
        }
        let ext = self.media_type.to_file_extension();
        let mut file_name = String::new();
        file_name.append(id);
        file_name.append(".");
        file_name.append(ext);
        let mut uri = String::new();
        uri.append(BASE_URL);
        uri.append("/media/upload/");
        uri.append(file_name.as_str());
        assert(file_name@ =~= upload_name(id@, self.media_type));
        assert(uri@ =~= upload_uri(id@, self.media_type));
        match decode_base64(self.data.as_str()) {
            Ok(bytes) => Ok(UploadPlan::File { file_name, bytes, uri }),
            Err(e) => Err(MediaError::Base64(e)),
        }
    }

    /// The plan for this item, its file named by a fresh random id.
    pub fn plan_upload(&self) -> (r: Result<UploadPlan, MediaError>)
        ensures
            exists|id: Seq<char>| is_v4_uuid_text(id) && planned_with_id(*self, id, r),
    {
        let id = new_uuid_text();
        let r = self.plan_upload_named(id.as_str());
        assert(is_v4_uuid_text(id@) && planned_with_id(*self, id@, r));
        r
    }
}

/// How many of the first `n` requests carry an item.
pub open spec fn present_before(present: Seq<bool>, n: int) -> nat {
    crate::live::count_true(present.take(n))
}

/// The stored items matched back to the requests: the `k`-th request that
/// carries an item gets the `k`-th stored item (or nothing once they run
/// out); a request without an item gets nothing.
pub open spec fn matched(present: Seq<bool>, medias: Seq<Media>, i: int) -> Option<Media> {
    if present[i] && present_before(present, i) < medias.len() {
        Some(medias[present_before(present, i) as int])
    } else {
        None
    }
}

impl Media {
    /// Gives each request (marked by whether it carried an item) the stored
    /// item made from it, in order.
    pub fn match_to_requests(present: &Vec<bool>, medias: Vec<Media>) -> (r: Vec<Option<Media>>)
        ensures
            r@.len() == present@.len(),
            forall|i: int| 0 <= i < present@.len() ==> #[trigger] r@[i] == matched(present@, medias@, i),
    {
        let ghost all = medias@;
        let mut queue: VecDeque<Media> = crate::to_queue(medias);
        let mut r: Vec<Option<Media>> = Vec::new();
        let mut i: usize = 0;
        while i < present.len()
            invariant
                i <= present@.len(),
                r@.len() == i,
                present_before(present@, i as int) <= all.len() ==> queue@ == all.subrange(present_before(present@, i as int) as int, all.len() as int),
                present_before(present@, i as int) >= all.len() ==> queue@.len() == 0,
                forall|j: int| 0 <= j < i ==> #[trigger] r@[j] == matched(present@, all, j),
            decreases present@.len() - i,
        {
            assert(present@.take(i + 1).drop_last() =~= present@.take(i as int));
            assert(present@.take(i + 1).last() == present@[i as int]);
            if present[i] {
                let next = queue.pop_front();
                r.push(next);
            } else {
                r.push(None);
            }
            i = i + 1;
        }
        r
    }
}

} // verus!
