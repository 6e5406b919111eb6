use vstd::prelude::*;

use crate::errors::ParseError;
use crate::json::{
    get_str, get_str_or_empty, pointer, spec_pointer, spec_str_at, spec_str_or_empty, JsonValue,
};
use crate::models::{img_views, opt_str_view, Author, ImgInfo, VideoParseInfo};
use crate::text::{
    all_digits, contains_substr, digits_val, has_sub, i64_to_string, parse_i64_str, replace_all,
    spec_parse_i64, spec_replace_all,
};
use crate::weburl::{spec_query_param, url_query_of, url_query_param};

verus! {

/// Extraction strategy for zuiyou share links.
pub struct ZuiyouParser;

impl ZuiyouParser {
    /// The numeric post id a share URL carries in its `pid` query
    /// parameter.
    pub fn share_url_pid(&self, share_url: &str) -> (r: Result<i64, ParseError>)
        ensures
            ({
                let vid = (match url_query_of(share_url@) {
                    Some(q) => spec_query_param(q, "pid"@),
                    None => None::<Seq<char>>,
                });
                match r {
                    Ok(p) => vid matches Some(v) && spec_parse_i64(v) == Some(p),
                    Err(e) => e == ParseError::InvalidShareUrl && (match vid {
                        Some(v) => spec_parse_i64(v) is None,
                        None => true,
                    }),
                }
            }),
    {
        match url_query_param(share_url, "pid") {
            Some(v) => match parse_i64_str(v.as_str()) {
                Some(p) => Ok(p),
                None => Err(ParseError::InvalidShareUrl),
            },
            None => Err(ParseError::InvalidShareUrl),
        }
    }

    /// The share-detail endpoint.
    pub fn detail_api_url(&self) -> (r: &'static str)
        ensures
            r@ == "https://share.xiaochuankeji.cn/planck/share/post/detail_h5"@,
    {
        "https://share.xiaochuankeji.cn/planck/share/post/detail_h5"
    }

    /// The JSON body of the detail request for one post id.
    pub fn detail_body(&self, pid: i64) -> (r: String)
        ensures
            ({
                let prefix = "{\"h_av\":\"5.2.13.011\",\"pid\":"@;
                &&& r@.len() > prefix.len() + 1
                &&& r@.subrange(0, prefix.len() as int) == prefix
                &&& r@.last() == '}'
                &&& (pid >= 0 ==> all_digits(r@.subrange(prefix.len() as int, r@.len() - 1))
                    && digits_val(r@.subrange(prefix.len() as int, r@.len() - 1)) == pid)
            }),
    {
        let mut b = String::from_str("{\"h_av\":\"5.2.13.011\",\"pid\":");
        let ghost prefix = b@;
        let digits = i64_to_string(pid);
        b.append(digits.as_str());
        b.append("}");
        proof {
            reveal_strlit("}");
            assert(b@.subrange(0, prefix.len() as int) =~= prefix);
            assert(b@.subrange(prefix.len() as int, b@.len() - 1) =~= digits@);
        }
        b
    }

    /// A URL forced into a jpg rendition, the form covers and gallery
    /// stills are served in: known other raster suffixes are rewritten,
    /// and a URL without any jpg marker gets one appended, before its
    /// query where it has one.
    pub open spec fn spec_ensure_jpg(u: Seq<char>) -> Seq<char> {
        if has_sub(u, ".jpg"@) || has_sub(u, ".jpeg"@) {
            u
        } else {
            let v = spec_replace_all(
                spec_replace_all(spec_replace_all(u, ".png"@, ".jpg"@), ".webp"@, ".jpg"@),
                ".gif"@,
                ".jpg"@,
            );
            if has_sub(v, "?"@) && !has_sub(v, ".jpg"@) {
                spec_replace_all(v, "?"@, ".jpg?"@)
            } else if !has_sub(v, ".jpg"@) {
                v + ".jpg"@
            } else {
                v
            }
        }
    }

    pub fn ensure_jpg_format(url: &str) -> (r: String)
        ensures
            r@ == Self::spec_ensure_jpg(url@),
    {
        proof {
            reveal_strlit(".png");
            reveal_strlit(".webp");
            reveal_strlit(".gif");
            reveal_strlit("?");
        }
        if contains_substr(url, ".jpg") || contains_substr(url, ".jpeg") {
            return String::from_str(url);
        }
        let v1 = replace_all(url, ".png", ".jpg");
        let v2 = replace_all(v1.as_str(), ".webp", ".jpg");
        let v = replace_all(v2.as_str(), ".gif", ".jpg");
        if contains_substr(v.as_str(), "?") && !contains_substr(v.as_str(), ".jpg") {
            replace_all(v.as_str(), "?", ".jpg?")
        } else if !contains_substr(v.as_str(), ".jpg") {
            let mut w = v;
            w.append(".jpg");
            w
        } else {
            v
        }
    }

    /// The gallery entries of a post: every image record's URL, forced to
    /// jpg.
    pub open spec fn imgs_from(items: Seq<JsonValue>, i: int) -> Seq<
        (Seq<char>, Option<Seq<char>>),
    >
        decreases items.len() - i,
    {
        if !(0 <= i < items.len()) {
            Seq::empty()
        } else {
            let rest = Self::imgs_from(items, i + 1);
            match spec_str_at(items[i], "/url"@) {
                Some(u) => seq![(Self::spec_ensure_jpg(u), None::<Seq<char>>)] + rest,
                None => rest,
            }
        }
    }

    /// Normalizes the detail answer: a post carries a video rendition under
    /// its first `videos` member, gallery stills under `imgs`, or both —
    /// a non-empty gallery wins.
    #[verifier::loop_isolation(false)]
    pub fn extract_info(&self, root: &JsonValue) -> (r: Result<VideoParseInfo, ParseError>)
        ensures
            ({
                let d = spec_pointer(*root, "/data/post"@);
                let playable = (match d {
                    Some(data) => {
                        let first_video = (match spec_pointer(data, "/videos"@) {
                            Some(JsonValue::Obj(es)) => if es@.len() > 0 {
                                Some(es@[0].1)
                            } else {
                                None::<JsonValue>
                            },
                            _ => None::<JsonValue>,
                        });
                        let imgs = (match spec_pointer(data, "/imgs"@) {
                            Some(JsonValue::Arr(items)) => Self::imgs_from(items@, 0),
                            _ => Seq::<(Seq<char>, Option<Seq<char>>)>::empty(),
                        });
                        imgs.len() > 0 || (first_video matches Some(fv) && spec_str_at(
                            fv,
                            "/url"@,
                        ) is Some)
                    },
                    None => false,
                });
                &&& (r is Ok <==> (d is Some && playable))
                &&& match r {
                    Ok(info) => d matches Some(data) && {
                        let first_video = (match spec_pointer(data, "/videos"@) {
                            Some(JsonValue::Obj(es)) => if es@.len() > 0 {
                                Some(es@[0].1)
                            } else {
                                None::<JsonValue>
                            },
                            _ => None::<JsonValue>,
                        });
                        let imgs = (match spec_pointer(data, "/imgs"@) {
                            Some(JsonValue::Arr(items)) => Self::imgs_from(items@, 0),
                            _ => Seq::<(Seq<char>, Option<Seq<char>>)>::empty(),
                        });
                        &&& info.title@ == spec_str_or_empty(data, "/content"@)
                        &&& info.author.uid@.len() == 0
                        &&& info.author.name@ == spec_str_or_empty(data, "/member/name"@)
                        &&& info.author.avatar@ == spec_str_or_empty(
                            data,
                            "/member/avatar_urls/origin/urls/0"@,
                        )
                        &&& img_views(info.images@) == imgs
                        &&& (imgs.len() == 0 ==> opt_str_view(info.video_url) == (match
                            first_video {
                            Some(fv) => spec_str_at(fv, "/url"@),
                            None => None::<Seq<char>>,
                        }))
                        &&& opt_str_view(info.cover_url) == (match first_video {
                            Some(fv) => (match spec_str_at(fv, "/cover_urls/0"@) {
                                Some(c) => Some(Self::spec_ensure_jpg(c)),
                                None => (match spec_str_at(data, "/imgs/0/url"@) {
                                    Some(iu) => Some(Self::spec_ensure_jpg(iu)),
                                    None => None::<Seq<char>>,
                                }),
                            }),
                            None => None::<Seq<char>>,
                        })
                        &&& info.media_exclusive()
                        &&& info.has_media()
                    },
                    Err(e) => {
                        ||| (d is None && e == ParseError::MalformedUpstreamPayload)
                        ||| e == ParseError::NoMediaFound
                    },
                }
            }),
    {
        let data = match pointer(root, "/data/post") {
            Some(d) => d,
            None => {
                return Err(ParseError::MalformedUpstreamPayload);
            },
        };
        let title = get_str_or_empty(data, "/content");
        let author = Author {
            uid: String::new(),
            name: get_str_or_empty(data, "/member/name"),
            avatar: get_str_or_empty(data, "/member/avatar_urls/origin/urls/0"),
        };
        let mut video: Option<String> = None;
        let mut cover: Option<String> = None;
        match pointer(data, "/videos") {
            Some(JsonValue::Obj(es)) => {
                if es.len() > 0 {
                    let fv = &es[0].1;
                    video = get_str(fv, "/url");
                    cover = match get_str(fv, "/cover_urls/0") {
                        Some(c) => Some(Self::ensure_jpg_format(c.as_str())),
                        None => match get_str(data, "/imgs/0/url") {
                            Some(iu) => Some(Self::ensure_jpg_format(iu.as_str())),
                            None => None,
                        },
                    };
                }
            },
            _ => {},
        }
        let mut images: Vec<ImgInfo> = Vec::new();
        match pointer(data, "/imgs") {
            Some(JsonValue::Arr(items)) => {
                let mut i: usize = 0;
                while i < items.len()
                    invariant
                        i <= items@.len(),
                        img_views(images@) + Self::imgs_from(items@, i as int) == Self::imgs_from(
                            items@,
                            0,
                        ),
                    decreases items@.len() - i,
                {
                    let ghost pre = images@;
                    match get_str(&items[i], "/url") {
                        Some(u) => {
                            images.push(
                                ImgInfo {
                                    url: Self::ensure_jpg_format(u.as_str()),
                                    live_photo_url: None,
                                },
                            );
                            proof {
                                assert(img_views(images@) =~= img_views(pre) + seq![
                                    (
                                        images@.last().url@,
                                        opt_str_view(images@.last().live_photo_url),
                                    ),
                                ]);
                            }
                        },
                        None => {},
                    }
                    i += 1;
                }
            },
            _ => {},
        }
        proof {
            assert(img_views(Seq::<ImgInfo>::empty()) =~= Seq::<
                (Seq<char>, Option<Seq<char>>),
            >::empty());
        }
        VideoParseInfo::assemble(author, title, video, None, cover, images)
    }
}

} // verus!
