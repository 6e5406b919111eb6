use vstd::prelude::*;

use crate::errors::ParseError;
use crate::json::{
    get_i64, get_str, get_str_or_empty, pointer, spec_int_at, spec_pointer, spec_str_at,
    spec_str_or_empty, JsonValue,
};
use crate::models::{opt_str_view, Author, VideoParseInfo};
use crate::weburl::{spec_query_param, url_query_of, url_query_param};

verus! {

/// Extraction strategy for quanmin share links.
pub struct QuanminParser;

impl QuanminParser {
    /// The video id a share URL carries in its `vid` query parameter.
    pub fn share_url_video_id(&self, share_url: &str) -> (r: Result<String, ParseError>)
        ensures
            ({
                let vid = (match url_query_of(share_url@) {
                    Some(q) => spec_query_param(q, "vid"@),
                    None => None::<Seq<char>>,
                });
                match r {
                    Ok(id) => vid == Some(id@),
                    Err(e) => e == ParseError::InvalidShareUrl && vid is None,
                }
            }),
    {
        match url_query_param(share_url, "vid") {
            Some(v) => Ok(v),
            None => Err(ParseError::InvalidShareUrl),
        }
    }

    /// The immerse endpoint for one video id.
    pub fn video_api_url(&self, video_id: &str) -> (r: String)
        ensures
            r@
                == "https://quanmin.hao222.com/wise/growth/api/sv/immerse?source=share-h5&pd=qm_share_mvideo&_format=json&vid="@
                + video_id@,
    {
        let mut u = String::from_str(
            "https://quanmin.hao222.com/wise/growth/api/sv/immerse?source=share-h5&pd=qm_share_mvideo&_format=json&vid=",
        );
        u.append(video_id);
        u
    }

    /// Normalizes the immerse answer: a non-zero `errno` and a non-empty
    /// `statusText` are both the platform's own rejections.
    pub fn extract_info(&self, root: &JsonValue) -> (r: Result<VideoParseInfo, ParseError>)
        ensures
            ({
                let errno = (match spec_int_at(*root, "/errno"@) {
                    Some(n) => n,
                    None => -1int,
                });
                let status = spec_str_at(*root, "/data/meta/statusText"@);
                let d = spec_pointer(*root, "/data"@);
                let rejected = (status matches Some(st) && st.len() > 0);
                let video = (match d {
                    Some(data) => spec_str_at(data, "/meta/video_info/clarityUrl/1/url"@),
                    None => None::<Seq<char>>,
                });
                &&& (r is Ok <==> (errno == 0 && !rejected && d is Some && video is Some))
                &&& match r {
                    Ok(info) => errno == 0 && (d matches Some(data) && {
                        &&& info.author.uid@ == spec_str_or_empty(data, "/author/id"@)
                        &&& info.author.name@ == spec_str_or_empty(data, "/author/name"@)
                        &&& info.author.avatar@ == spec_str_or_empty(data, "/author/icon"@)
                        &&& info.title@ == (match spec_str_at(data, "/meta/title"@) {
                            Some(t) => t,
                            None => spec_str_or_empty(data, "/shareInfo/title"@),
                        })
                        &&& opt_str_view(info.video_url) == spec_str_at(
                            data,
                            "/meta/video_info/clarityUrl/1/url"@,
                        )
                        &&& opt_str_view(info.cover_url) == spec_str_at(data, "/meta/image"@)
                        &&& info.images@.len() == 0
                        &&& info.media_exclusive()
                        &&& info.has_media()
                    }),
                    Err(e) => {
                        ||| (errno != 0 && (e matches ParseError::UpstreamBusinessError(m) && m@
                            == "全民视频API错误: "@ + (match spec_str_at(*root, "/error"@) {
                            Some(s) => s,
                            None => "API返回错误"@,
                        })))
                        ||| (errno == 0 && (status matches Some(st) && st.len() > 0 && (e matches
                            ParseError::UpstreamBusinessError(m) && m@ == "视频状态错误: "@
                            + st)))
                        ||| (errno == 0 && d is None && e == ParseError::MalformedUpstreamPayload)
                        ||| (errno == 0 && e == ParseError::NoMediaFound)
                    },
                }
            }),
    {
        let errno = match get_i64(root, "/errno") {
            Some(n) => n,
            None => -1,
        };
        if errno != 0 {
            let mut msg = String::from_str("全民视频API错误: ");
            match get_str(root, "/error") {
                Some(s) => msg.append(s.as_str()),
                None => msg.append("API返回错误"),
            }
            return Err(ParseError::UpstreamBusinessError(msg));
        }
        match get_str(root, "/data/meta/statusText") {
            Some(st) => {
                if st.unicode_len() > 0 {
                    let mut msg = String::from_str("视频状态错误: ");
                    msg.append(st.as_str());
                    return Err(ParseError::UpstreamBusinessError(msg));
                }
            },
            None => {},
        }
        let data = match pointer(root, "/data") {
            Some(d) => d,
            None => {
                return Err(ParseError::MalformedUpstreamPayload);
            },
        };
        let author = Author {
            uid: get_str_or_empty(data, "/author/id"),
            name: get_str_or_empty(data, "/author/name"),
            avatar: get_str_or_empty(data, "/author/icon"),
        };
        let title = match get_str(data, "/meta/title") {
            Some(t) => t,
            None => get_str_or_empty(data, "/shareInfo/title"),
        };
        let video = get_str(data, "/meta/video_info/clarityUrl/1/url");
        let cover = get_str(data, "/meta/image");
        VideoParseInfo::assemble(author, title, video, None, cover, Vec::new())
    }
}

} // verus!
