use vstd::prelude::*;

use crate::errors::ParseError;
use crate::json::{get_str, pointer, spec_pointer, spec_str_at, JsonValue};
use crate::models::{opt_str_view, Author, VideoParseInfo};
use crate::weburl::{spec_query_param, url_query_of, url_query_param};

verus! {

/// Extraction strategy for huoshan share links: the canonical id travels in
/// the redirect target's `item_id` query parameter.
pub struct HuoshanParser;

impl HuoshanParser {
    /// The video id carried by the redirect target of a share link.
    pub fn item_id_from_location(&self, location: &str) -> (r: Result<String, ParseError>)
        ensures
            ({
                let vid = (match url_query_of(location@) {
                    Some(q) => spec_query_param(q, "item_id"@),
                    None => None::<Seq<char>>,
                });
                match r {
                    Ok(id) => vid == Some(id@),
                    Err(e) => e == ParseError::InvalidShareUrl && vid is None,
                }
            }),
    {
        match url_query_param(location, "item_id") {
            Some(v) => Ok(v),
            None => Err(ParseError::InvalidShareUrl),
        }
    }

    /// The item-info endpoint for one video id.
    pub fn video_api_url(&self, video_id: &str) -> (r: String)
        ensures
            r@ == "https://share.huoshan.com/api/item/info?item_id="@ + video_id@,
    {
        let mut u = String::from_str("https://share.huoshan.com/api/item/info?item_id=");
        u.append(video_id);
        u
    }

    /// Normalizes the item-info answer: the record carries a playable URL
    /// and a cover and nothing else.
    pub fn extract_info(&self, root: &JsonValue) -> (r: Result<VideoParseInfo, ParseError>)
        ensures
            ({
                let d = spec_pointer(*root, "/data/item_info"@);
                let video = (match d {
                    Some(data) => spec_str_at(data, "/url"@),
                    None => None::<Seq<char>>,
                });
                &&& (r is Ok <==> (d is Some && video is Some))
                &&& match r {
                    Ok(info) => d matches Some(data) && {
                        &&& opt_str_view(info.video_url) == spec_str_at(data, "/url"@)
                        &&& opt_str_view(info.cover_url) == spec_str_at(data, "/cover"@)
                        &&& info.title@.len() == 0
                        &&& info.author.is_blank()
                        &&& info.images@.len() == 0
                        &&& info.media_exclusive()
                        &&& info.has_media()
                    },
                    Err(e) => {
                        ||| (d is None && e == ParseError::MalformedUpstreamPayload)
                        ||| e == ParseError::NoMediaFound
                    },
                }
            }),
    {
        let data = match pointer(root, "/data/item_info") {
            Some(d) => d,
            None => {
                return Err(ParseError::MalformedUpstreamPayload);
            },
        };
        let video = get_str(data, "/url");
        let cover = get_str(data, "/cover");
        VideoParseInfo::assemble(Author::default(), String::new(), video, None, cover, Vec::new())
    }
}

} // verus!
