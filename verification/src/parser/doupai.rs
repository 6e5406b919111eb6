use vstd::prelude::*;

use crate::errors::ParseError;
use crate::json::{get_str, get_str_or_empty, pointer, spec_pointer, spec_str_at, spec_str_or_empty, JsonValue};
use crate::models::{opt_str_view, Author, VideoParseInfo};
use crate::weburl::{spec_query_param, url_query_of, url_query_param};

verus! {

/// Extraction strategy for doupai share links.
pub struct DoupaiParser;

impl DoupaiParser {
    /// The video id a share URL carries in its `id` query parameter.
    pub fn share_url_video_id(&self, share_url: &str) -> (r: Result<String, ParseError>)
        ensures
            ({
                let vid = (match url_query_of(share_url@) {
                    Some(q) => spec_query_param(q, "id"@),
                    None => None::<Seq<char>>,
                });
                match r {
                    Ok(id) => vid == Some(id@),
                    Err(e) => e == ParseError::InvalidShareUrl && vid is None,
                }
            }),
    {
        match url_query_param(share_url, "id") {
            Some(v) => Ok(v),
            None => Err(ParseError::InvalidShareUrl),
        }
    }

    /// The topic endpoint for one video id.
    pub fn video_api_url(&self, video_id: &str) -> (r: String)
        ensures
            r@ == "https://v2.doupai.cc/topic/"@ + video_id@ + ".json"@,
    {
        let mut u = String::from_str("https://v2.doupai.cc/topic/");
        u.append(video_id);
        u.append(".json");
        u
    }

    /// Normalizes the topic answer into the canonical record.
    pub fn extract_info(&self, root: &JsonValue) -> (r: Result<VideoParseInfo, ParseError>)
        ensures
            ({
                let d = spec_pointer(*root, "/data"@);
                let video = (match d {
                    Some(data) => spec_str_at(data, "/videoUrl"@),
                    None => None::<Seq<char>>,
                });
                &&& (r is Ok <==> (d is Some && video is Some))
                &&& match r {
                    Ok(info) => d matches Some(data) && {
                        &&& info.title@ == spec_str_or_empty(data, "/name"@)
                        &&& opt_str_view(info.video_url) == spec_str_at(data, "/videoUrl"@)
                        &&& opt_str_view(info.cover_url) == spec_str_at(data, "/imageUrl"@)
                        &&& info.author.uid@ == spec_str_or_empty(data, "/userId/id"@)
                        &&& info.author.name@ == spec_str_or_empty(data, "/userId/name"@)
                        &&& info.author.avatar@ == spec_str_or_empty(data, "/userId/avatar"@)
                        &&& info.images@.len() == 0
                        &&& info.media_exclusive()
                        &&& info.has_media()
                    },
                    Err(e) => {
                        ||| (d is None && e == ParseError::MalformedUpstreamPayload)
                        ||| e == ParseError::NoMediaFound
                    },
                }
            }),
    {
        let data = match pointer(root, "/data") {
            Some(d) => d,
            None => {
                return Err(ParseError::MalformedUpstreamPayload);
            },
        };
        let author = Author {
            uid: get_str_or_empty(data, "/userId/id"),
            name: get_str_or_empty(data, "/userId/name"),
            avatar: get_str_or_empty(data, "/userId/avatar"),
        };
        let title = get_str_or_empty(data, "/name");
        let video = get_str(data, "/videoUrl");
        let cover = get_str(data, "/imageUrl");
        VideoParseInfo::assemble(author, title, video, None, cover, Vec::new())
    }
}

} // verus!
