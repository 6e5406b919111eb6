use vstd::prelude::*;

use crate::errors::ParseError;
use crate::json::{
    get_str, get_str_or_empty, pointer, spec_pointer, spec_str_at, spec_str_or_empty, JsonValue,
};
use crate::models::{opt_str_view, Author, VideoParseInfo};
use crate::text::{
    all_digits, digits_val, i64_to_string, parse_i64_str, replace_all, spec_parse_i64,
    spec_replace_all, spec_trim_char, trim_char_str,
};
use crate::weburl::{url_path, url_path_of};

verus! {

/// Extraction strategy for pipigaoxiao share links.
pub struct PipigaoxiaoParser;

impl PipigaoxiaoParser {
    /// The post id a share URL carries in its path; empty means the link
    /// carries no id.
    pub fn share_url_video_id(&self, share_url: &str) -> (r: Result<String, ParseError>)
        ensures
            ({
                match url_path_of(share_url@) {
                    Some(p) => {
                        let id = spec_replace_all(
                            spec_trim_char(p, '/'),
                            "pp/post/"@,
                            Seq::<char>::empty(),
                        );
                        match r {
                            Ok(got) => got@ == id && id.len() > 0,
                            Err(e) => e == ParseError::InvalidShareUrl && id.len() == 0,
                        }
                    },
                    None => r matches Err(e) && e == ParseError::InvalidShareUrl,
                }
            }),
    {
        match url_path(share_url) {
            Some(p) => {
                proof {
                    reveal_strlit("pp/post/");
                    reveal_strlit("");
                    assert(""@ =~= Seq::<char>::empty());
                }
                let trimmed = trim_char_str(p.as_str(), '/');
                let id = replace_all(trimmed.as_str(), "pp/post/", "");
                if id.unicode_len() > 0 {
                    Ok(id)
                } else {
                    Err(ParseError::InvalidShareUrl)
                }
            },
            None => Err(ParseError::InvalidShareUrl),
        }
    }

    /// The numeric form the fetch body carries: the id re-rendered, or `0`
    /// where it is not a number at all.
    pub fn canonical_pid(&self, video_id: &str) -> (r: String)
        ensures
            ({
                let v = (match spec_parse_i64(video_id@) {
                    Some(n) => n as int,
                    None => 0int,
                });
                &&& (v >= 0 ==> r@.len() >= 1 && all_digits(r@) && digits_val(r@) == v)
                &&& (v < 0 ==> r@.len() >= 2 && r@[0] == '-' && all_digits(r@.skip(1))
                    && digits_val(r@.skip(1)) == -v)
            }),
    {
        let pid = match parse_i64_str(video_id) {
            Some(n) => n,
            None => 0,
        };
        i64_to_string(pid)
    }

    /// The fetch-content endpoint.
    pub fn api_url(&self) -> (r: &'static str)
        ensures
            r@ == "https://share.ippzone.com/ppapi/share/fetch_content"@,
    {
        "https://share.ippzone.com/ppapi/share/fetch_content"
    }

    /// The JSON body of the fetch-content request, over the (stringified)
    /// numeric post id.
    pub fn post_body(&self, pid: &str) -> (r: String)
        ensures
            r@ == "{\"pid\":"@ + pid@ + ",\"type\":\"post\",\"mid\":null}"@,
    {
        let mut b = String::from_str("{\"pid\":");
        b.append(pid);
        b.append(",\"type\":\"post\",\"mid\":null}");
        b
    }

    /// Normalizes the fetch-content answer: a string `msg` is the
    /// platform's own rejection; otherwise the post's first image id names
    /// both the rendition and the cover.
    pub fn extract_info(&self, root: &JsonValue) -> (r: Result<VideoParseInfo, ParseError>)
        ensures
            ({
                let msg = spec_str_at(*root, "/msg"@);
                let d = spec_pointer(*root, "/data/post"@);
                let playable = (match d {
                    Some(data) => spec_str_at(
                        data,
                        "/videos/"@ + spec_str_or_empty(data, "/imgs/0/id"@) + "/url"@,
                    ) is Some,
                    None => false,
                });
                &&& (r is Ok <==> (msg is None && d is Some && playable))
                &&& match r {
                    Ok(info) => msg is None && (d matches Some(data) && {
                        let img_id = spec_str_or_empty(data, "/imgs/0/id"@);
                        &&& info.title@ == spec_str_or_empty(data, "/content"@)
                        &&& opt_str_view(info.video_url) == spec_str_at(
                            data,
                            "/videos/"@ + img_id + "/url"@,
                        )
                        &&& opt_str_view(info.cover_url) == Some(
                            "https://file.ippzone.com/img/view/id/"@ + img_id,
                        )
                        &&& info.author.is_blank()
                        &&& info.images@.len() == 0
                        &&& info.media_exclusive()
                        &&& info.has_media()
                    }),
                    Err(e) => {
                        ||| (msg matches Some(m0) && (e matches ParseError::UpstreamBusinessError(
                            m,
                        ) && m@ == "皮皮搞笑API错误: "@ + m0))
                        ||| (msg is None && d is None && e
                            == ParseError::MalformedUpstreamPayload)
                        ||| (msg is None && e == ParseError::NoMediaFound)
                    },
                }
            }),
    {
        match get_str(root, "/msg") {
            Some(m0) => {
                let mut m = String::from_str("皮皮搞笑API错误: ");
                m.append(m0.as_str());
                return Err(ParseError::UpstreamBusinessError(m));
            },
            None => {},
        }
        let data = match pointer(root, "/data/post") {
            Some(d) => d,
            None => {
                return Err(ParseError::MalformedUpstreamPayload);
            },
        };
        let img_id = get_str_or_empty(data, "/imgs/0/id");
        let mut video_path = String::from_str("/videos/");
        video_path.append(img_id.as_str());
        video_path.append("/url");
        let video = get_str(data, video_path.as_str());
        let mut cover = String::from_str("https://file.ippzone.com/img/view/id/");
        cover.append(img_id.as_str());
        let title = get_str_or_empty(data, "/content");
        VideoParseInfo::assemble(Author::default(), title, video, None, Some(cover), Vec::new())
    }
}

} // verus!
