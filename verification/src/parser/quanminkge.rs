use vstd::prelude::*;

use crate::errors::ParseError;
use crate::json::{
    get_str, get_str_or_empty, pointer, spec_pointer, spec_str_at, spec_str_or_empty, JsonValue,
};
use crate::models::{opt_str_view, Author, VideoParseInfo};
use crate::weburl::{spec_query_param, url_query_of, url_query_param};

verus! {

/// Extraction strategy for quanminkge share links, whose play page embeds
/// its state in a `window.__DATA__` assignment.
pub struct QuanminkgeParser;

impl QuanminkgeParser {
    /// The song id a share URL carries in its `s` query parameter.
    pub fn share_url_video_id(&self, share_url: &str) -> (r: Result<String, ParseError>)
        ensures
            ({
                let vid = (match url_query_of(share_url@) {
                    Some(q) => spec_query_param(q, "s"@),
                    None => None::<Seq<char>>,
                });
                match r {
                    Ok(id) => vid == Some(id@),
                    Err(e) => e == ParseError::InvalidShareUrl && vid is None,
                }
            }),
    {
        match url_query_param(share_url, "s") {
            Some(v) => Ok(v),
            None => Err(ParseError::InvalidShareUrl),
        }
    }

    /// The play page for one song id.
    pub fn video_page_url(&self, video_id: &str) -> (r: String)
        ensures
            r@ == "https://kg.qq.com/node/play?s="@ + video_id@,
    {
        let mut u = String::from_str("https://kg.qq.com/node/play?s=");
        u.append(video_id);
        u
    }

    /// Normalizes the embedded play-page state into the canonical record.
    pub fn extract_info(&self, root: &JsonValue) -> (r: Result<VideoParseInfo, ParseError>)
        ensures
            ({
                let d = spec_pointer(*root, "/detail"@);
                let video = (match d {
                    Some(data) => spec_str_at(data, "/playurl_video"@),
                    None => None::<Seq<char>>,
                });
                &&& (r is Ok <==> (d is Some && video is Some))
                &&& match r {
                    Ok(info) => d matches Some(data) && {
                        &&& info.title@ == spec_str_or_empty(data, "/content"@)
                        &&& opt_str_view(info.video_url) == spec_str_at(data, "/playurl_video"@)
                        &&& opt_str_view(info.cover_url) == spec_str_at(data, "/cover"@)
                        &&& info.author.uid@ == spec_str_or_empty(data, "/uid"@)
                        &&& info.author.name@ == spec_str_or_empty(data, "/nick"@)
                        &&& info.author.avatar@ == spec_str_or_empty(data, "/avatar"@)
                        &&& info.images@.len() == 0
                        &&& info.media_exclusive()
                        &&& info.has_media()
                    },
                    Err(e) => {
                        ||| (d is None && e == ParseError::MalformedUpstreamPayload)
                        ||| e == ParseError::NoMediaFound
                    },
                }
            }),
    {
        let data = match pointer(root, "/detail") {
            Some(d) => d,
            None => {
                return Err(ParseError::MalformedUpstreamPayload);
            },
        };
        let author = Author {
            uid: get_str_or_empty(data, "/uid"),
            name: get_str_or_empty(data, "/nick"),
            avatar: get_str_or_empty(data, "/avatar"),
        };
        let title = get_str_or_empty(data, "/content");
        let video = get_str(data, "/playurl_video");
        let cover = get_str(data, "/cover");
        VideoParseInfo::assemble(author, title, video, None, cover, Vec::new())
    }
}

} // verus!
