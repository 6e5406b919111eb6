use vstd::prelude::*;

use crate::errors::ParseError;
use crate::json::{
    get_str, get_str_or_empty, pointer, spec_pointer, spec_str_at, spec_str_or_empty, JsonValue,
};
use crate::models::{opt_str_view, Author, VideoParseInfo};
use crate::text::{contains_substr, has_sub, replace_all, spec_replace_all};
use crate::weburl::{spec_query_param, url_path, url_path_of, url_query_of, url_query_param};

verus! {

/// Extraction strategy for sixroom (6.cn) share links.
pub struct SixroomParser;

impl SixroomParser {
    /// The video id of a share URL: the `vid` query parameter of a
    /// watch-mini link, else the `/v/` path remainder; empty means the link
    /// carries no id.
    pub fn share_url_video_id(&self, share_url: &str) -> (r: Result<String, ParseError>)
        ensures
            ({
                let u = share_url@;
                if has_sub(u, "watchMini.php?vid="@) {
                    let vid = (match url_query_of(u) {
                        Some(q) => spec_query_param(q, "vid"@),
                        None => None::<Seq<char>>,
                    });
                    match r {
                        Ok(id) => vid == Some(id@) && id@.len() > 0,
                        Err(e) => e == ParseError::InvalidShareUrl && (match vid {
                            Some(v) => v.len() == 0,
                            None => true,
                        }),
                    }
                } else {
                    match url_path_of(u) {
                        Some(p) => {
                            let id = spec_replace_all(p, "/v/"@, Seq::<char>::empty());
                            match r {
                                Ok(got) => got@ == id && id.len() > 0,
                                Err(e) => e == ParseError::InvalidShareUrl && id.len() == 0,
                            }
                        },
                        None => r matches Err(e) && e == ParseError::InvalidShareUrl,
                    }
                }
            }),
    {
        if contains_substr(share_url, "watchMini.php?vid=") {
            match url_query_param(share_url, "vid") {
                Some(v) => {
                    if v.unicode_len() > 0 {
                        Ok(v)
                    } else {
                        Err(ParseError::InvalidShareUrl)
                    }
                },
                None => Err(ParseError::InvalidShareUrl),
            }
        } else {
            match url_path(share_url) {
                Some(p) => {
                    proof {
                        reveal_strlit("/v/");
                        reveal_strlit("");
                        assert(""@ =~= Seq::<char>::empty());
                    }
                    let id = replace_all(p.as_str(), "/v/", "");
                    if id.unicode_len() > 0 {
                        Ok(id)
                    } else {
                        Err(ParseError::InvalidShareUrl)
                    }
                },
                None => Err(ParseError::InvalidShareUrl),
            }
        }
    }

    /// The watch-video endpoint for one video id.
    pub fn video_api_url(&self, video_id: &str) -> (r: String)
        ensures
            r@
                == "https://v.6.cn/coop/mobile/index.php?padapi=minivideo-watchVideo.php&av=3.0&encpass=&logiuid=&isnew=1&from=0&vid="@
                + video_id@,
    {
        let mut u = String::from_str(
            "https://v.6.cn/coop/mobile/index.php?padapi=minivideo-watchVideo.php&av=3.0&encpass=&logiuid=&isnew=1&from=0&vid=",
        );
        u.append(video_id);
        u
    }

    /// The referer the endpoint expects.
    pub fn video_referer(&self, video_id: &str) -> (r: String)
        ensures
            r@ == "https://m.6.cn/v/"@ + video_id@,
    {
        let mut u = String::from_str("https://m.6.cn/v/");
        u.append(video_id);
        u
    }

    /// Normalizes the watch-video answer into the canonical record.
    pub fn extract_info(&self, root: &JsonValue) -> (r: Result<VideoParseInfo, ParseError>)
        ensures
            ({
                let d = spec_pointer(*root, "/content"@);
                let video = (match d {
                    Some(data) => spec_str_at(data, "/playurl"@),
                    None => None::<Seq<char>>,
                });
                &&& (r is Ok <==> (d is Some && video is Some))
                &&& match r {
                    Ok(info) => d matches Some(data) && {
                        &&& info.title@ == spec_str_or_empty(data, "/title"@)
                        &&& opt_str_view(info.video_url) == spec_str_at(data, "/playurl"@)
                        &&& opt_str_view(info.cover_url) == spec_str_at(data, "/picurl"@)
                        &&& info.author.name@ == spec_str_or_empty(data, "/alias"@)
                        &&& info.author.avatar@ == spec_str_or_empty(data, "/picuser"@)
                        &&& info.author.uid@.len() == 0
                        &&& info.images@.len() == 0
                        &&& info.media_exclusive()
                        &&& info.has_media()
                    },
                    Err(e) => {
                        ||| (d is None && e == ParseError::MalformedUpstreamPayload)
                        ||| e == ParseError::NoMediaFound
                    },
                }
            }),
    {
        let data = match pointer(root, "/content") {
            Some(d) => d,
            None => {
                return Err(ParseError::MalformedUpstreamPayload);
            },
        };
        let author = Author {
            uid: String::new(),
            name: get_str_or_empty(data, "/alias"),
            avatar: get_str_or_empty(data, "/picuser"),
        };
        let title = get_str_or_empty(data, "/title");
        let video = get_str(data, "/playurl");
        let cover = get_str(data, "/picurl");
        VideoParseInfo::assemble(author, title, video, None, cover, Vec::new())
    }
}

} // verus!
