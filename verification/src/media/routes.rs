use crate::media::{Media, MediaType};
use crate::route::{Method, RouteInfo};
use vstd::prelude::*;

verus! {

/// The text that `media_info` answers with.
pub const MEDIA_INFO: &'static str = r#"
enum MediaType ( "Image", "Video", "Audio", "Youtube", "Gif" )

GET /media/<uuid> - get media data by uuid
"#;

/// Describes the media routes and their request bodies.
pub fn media_info() -> (r: &'static str)
    ensures
        r@ == MEDIA_INFO@,
{
    MEDIA_INFO
}

/// The media routes, in the order they are mounted.
pub open spec fn media_routes() -> Seq<RouteInfo> {
    seq![
        RouteInfo { method: Method::Get, path: "/media", name: "media_info" },
        RouteInfo { method: Method::Get, path: "/media/<uuid>", name: "get_media_by_uuid" },
    ]
}

/// The media routes.
pub fn all() -> (r: Vec<RouteInfo>)
    ensures
        r@ == media_routes(),
{
    let mut r: Vec<RouteInfo> = Vec::new();
    r.push(RouteInfo { method: Method::Get, path: "/media", name: "media_info" });
    r.push(RouteInfo { method: Method::Get, path: "/media/<uuid>", name: "get_media_by_uuid" });
    assert(r@ =~= media_routes());
    r
}

/// What the service answers about a media item.
#[derive(Debug)]
pub struct GetMediaData {
    pub uri: String,
    pub media_type: MediaType,
}

impl From<Media> for GetMediaData {
    fn from(value: Media) -> (r: Self) {
        GetMediaData { uri: value.uri, media_type: value.media_type }
    }
}

impl vstd::std_specs::convert::FromSpecImpl<Media> for GetMediaData {
    open spec fn obeys_from_spec() -> bool {
        true
    }

    open spec fn from_spec(v: Media) -> Self {
        GetMediaData { uri: v.uri, media_type: v.media_type }
    }
}

} // verus!
