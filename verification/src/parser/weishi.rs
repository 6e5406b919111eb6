use vstd::prelude::*;

use crate::errors::ParseError;
use crate::json::{
    get_i64, get_str, get_str_or_empty, pointer, spec_int_at, spec_pointer, spec_str_at,
    spec_str_or_empty, JsonValue,
};
use crate::models::{opt_str_view, Author, VideoParseInfo};
use crate::weburl::{spec_query_param, url_query_of, url_query_param};

verus! {

/// Extraction strategy for weishi share links.
pub struct WeishiParser;

impl WeishiParser {
    /// The feed id a share URL carries in its `id` query parameter.
    pub fn share_url_video_id(&self, share_url: &str) -> (r: Result<String, ParseError>)
        ensures
            ({
                let vid = (match url_query_of(share_url@) {
                    Some(q) => spec_query_param(q, "id"@),
                    None => None::<Seq<char>>,
                });
                match r {
                    Ok(id) => vid == Some(id@),
                    Err(e) => e == ParseError::InvalidShareUrl && vid is None,
                }
            }),
    {
        match url_query_param(share_url, "id") {
            Some(v) => Ok(v),
            None => Err(ParseError::InvalidShareUrl),
        }
    }

    /// The play-page endpoint for one feed id.
    pub fn video_api_url(&self, video_id: &str) -> (r: String)
        ensures
            r@ == "https://h5.weishi.qq.com/webapp/json/weishi/WSH5GetPlayPage?feedid="@
                + video_id@,
    {
        let mut u = String::from_str(
            "https://h5.weishi.qq.com/webapp/json/weishi/WSH5GetPlayPage?feedid=",
        );
        u.append(video_id);
        u
    }

    /// Normalizes the play-page answer: a non-zero `ret` and a non-empty
    /// per-video `errmsg` are both the platform's own rejections.
    pub fn extract_info(&self, root: &JsonValue) -> (r: Result<VideoParseInfo, ParseError>)
        ensures
            ({
                let ret = (match spec_int_at(*root, "/ret"@) {
                    Some(n) => n,
                    None => -1int,
                });
                let errmsg = spec_str_at(*root, "/data/errmsg"@);
                let d = spec_pointer(*root, "/data/feeds/0"@);
                let rejected = (errmsg matches Some(em) && em.len() > 0);
                let video = (match d {
                    Some(data) => spec_str_at(data, "/video_url"@),
                    None => None::<Seq<char>>,
                });
                &&& (r is Ok <==> (ret == 0 && !rejected && d is Some && video is Some))
                &&& match r {
                    Ok(info) => ret == 0 && (d matches Some(data) && {
                        &&& info.author.name@ == spec_str_or_empty(data, "/poster/nick"@)
                        &&& info.author.avatar@ == spec_str_or_empty(data, "/poster/avatar"@)
                        &&& info.author.uid@.len() == 0
                        &&& info.title@ == spec_str_or_empty(data, "/feed_desc_withat"@)
                        &&& opt_str_view(info.video_url) == spec_str_at(data, "/video_url"@)
                        &&& opt_str_view(info.cover_url) == spec_str_at(data, "/images/0/url"@)
                        &&& info.images@.len() == 0
                        &&& info.media_exclusive()
                        &&& info.has_media()
                    }),
                    Err(e) => {
                        ||| (ret != 0 && (e matches ParseError::UpstreamBusinessError(m) && m@
                            == "微视API错误: "@ + (match spec_str_at(*root, "/msg"@) {
                            Some(s) => s,
                            None => "API返回错误"@,
                        })))
                        ||| (ret == 0 && (errmsg matches Some(em) && em.len() > 0 && (e matches
                            ParseError::UpstreamBusinessError(m) && m@ == "视频错误: "@ + em)))
                        ||| (ret == 0 && d is None && e == ParseError::MalformedUpstreamPayload)
                        ||| (ret == 0 && e == ParseError::NoMediaFound)
                    },
                }
            }),
    {
        let ret = match get_i64(root, "/ret") {
            Some(n) => n,
            None => -1,
        };
        if ret != 0 {
            let mut msg = String::from_str("微视API错误: ");
            match get_str(root, "/msg") {
                Some(s) => msg.append(s.as_str()),
                None => msg.append("API返回错误"),
            }
            return Err(ParseError::UpstreamBusinessError(msg));
        }
        match get_str(root, "/data/errmsg") {
            Some(em) => {
                if em.unicode_len() > 0 {
                    let mut msg = String::from_str("视频错误: ");
                    msg.append(em.as_str());
                    return Err(ParseError::UpstreamBusinessError(msg));
                }
            },
            None => {},
        }
        let data = match pointer(root, "/data/feeds/0") {
            Some(d) => d,
            None => {
                return Err(ParseError::MalformedUpstreamPayload);
            },
        };
        let author = Author {
            uid: String::new(),
            name: get_str_or_empty(data, "/poster/nick"),
            avatar: get_str_or_empty(data, "/poster/avatar"),
        };
        let title = get_str_or_empty(data, "/feed_desc_withat");
        let video = get_str(data, "/video_url");
        let cover = get_str(data, "/images/0/url");
        VideoParseInfo::assemble(author, title, video, None, cover, Vec::new())
    }
}

} // verus!
