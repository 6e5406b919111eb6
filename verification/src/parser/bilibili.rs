use vstd::prelude::*;

use crate::errors::ParseError;
use crate::json::{
    get_i64, get_str, get_str_or_empty, spec_int_at, spec_str_at, spec_str_or_empty, JsonValue,
};
use crate::models::{Author, VideoParseInfo};
use crate::text::{
    all_digits, digits_val, has_sub, i64_to_string, matches_at, spec_trim_char, str_eq,
    trim_char_str,
};
use crate::weburl::{url_host, url_host_of, url_path, url_path_of};

verus! {

/// Extraction strategy for bilibili share links.
pub struct BilibiliParser;

/// Which fetch pattern a bilibili share URL calls for.
#[derive(Debug)]
pub enum BiliRoute {
    /// The link carries the BV id in its path.
    Bvid(String),
    /// A b23.tv short link: probe it without redirects and re-read the
    /// redirect target.
    Short,
    /// A link this strategy does not recognise.
    Invalid,
}

impl BilibiliParser {
    /// The BV id of a path shaped `/video/BV...`.
    pub open spec fn spec_path_bvid(p: Seq<char>) -> Option<Seq<char>> {
        let t = spec_trim_char(p, '/');
        let e1 = crate::json::seg_end(t, 0);
        if t.subrange(0, e1) == "video"@ && e1 < t.len() {
            let e2 = crate::json::seg_end(t, e1 + 1);
            let seg2 = t.subrange(e1 + 1, e2);
            if matches_at(seg2, "BV"@, 0) {
                Some(seg2)
            } else {
                None
            }
        } else {
            None
        }
    }

    /// Routes a share URL: a short link is probed, a full link hands over
    /// its BV id directly.
    #[verifier::loop_isolation(false)]
    pub fn classify_share_url(&self, share_url: &str) -> (r: BiliRoute)
        ensures
            ({
                match url_host_of(share_url@) {
                    Some(h) => if h == "b23.tv"@ {
                        r is Short
                    } else if has_sub(h, "bilibili.com"@) {
                        match url_path_of(share_url@) {
                            Some(p) => match Self::spec_path_bvid(p) {
                                Some(b) => r matches BiliRoute::Bvid(id) && id@ == b,
                                None => r is Invalid,
                            },
                            None => r is Invalid,
                        }
                    } else {
                        r is Invalid
                    },
                    None => r is Invalid,
                }
            }),
    {
        let host = match url_host(share_url) {
            Some(h) => h,
            None => {
                return BiliRoute::Invalid;
            },
        };
        if str_eq(host.as_str(), "b23.tv") {
            return BiliRoute::Short;
        }
        if !crate::text::contains_substr(host.as_str(), "bilibili.com") {
            return BiliRoute::Invalid;
        }
        let p = match url_path(share_url) {
            Some(p) => p,
            None => {
                return BiliRoute::Invalid;
            },
        };
        let t = trim_char_str(p.as_str(), '/');
        let n = t.as_str().unicode_len();
        let mut e1: usize = 0;
        while e1 < n && t.as_str().get_char(e1) != '/'
            invariant
                e1 <= n,
                n == t@.len(),
                crate::json::seg_end(t@, 0) == crate::json::seg_end(t@, e1 as int),
            decreases n - e1,
        {
            e1 += 1;
        }
        let seg1 = t.as_str().substring_char(0, e1);
        if !str_eq(seg1, "video") || e1 >= n {
            return BiliRoute::Invalid;
        }
        let mut e2: usize = e1 + 1;
        while e2 < n && t.as_str().get_char(e2) != '/'
            invariant
                e1 + 1 <= e2 <= n,
                n == t@.len(),
                crate::json::seg_end(t@, e1 + 1) == crate::json::seg_end(t@, e2 as int),
            decreases n - e2,
        {
            e2 += 1;
        }
        let seg2 = t.as_str().substring_char(e1 + 1, e2);
        if crate::text::match_at(seg2, "BV", 0) {
            BiliRoute::Bvid(String::from_str(seg2))
        } else {
            BiliRoute::Invalid
        }
    }

    /// The view endpoint for one BV id.
    pub fn view_api_url(&self, bvid: &str) -> (r: String)
        ensures
            r@ == "https://api.bilibili.com/x/web-interface/view?bvid="@ + bvid@,
    {
        let mut u = String::from_str("https://api.bilibili.com/x/web-interface/view?bvid=");
        u.append(bvid);
        u
    }

    /// The playurl endpoint for one BV id and (stringified) page cid.
    pub fn play_api_url(&self, bvid: &str, cid: &str) -> (r: String)
        ensures
            r@ == "https://api.bilibili.com/x/player/playurl?otype=json&fnver=0&fnval=0&qn=80&bvid="@
                + bvid@ + "&cid="@ + cid@ + "&platform=html5"@,
    {
        let mut u = String::from_str(
            "https://api.bilibili.com/x/player/playurl?otype=json&fnver=0&fnval=0&qn=80&bvid=",
        );
        u.append(bvid);
        u.append("&cid=");
        u.append(cid);
        u.append("&platform=html5");
        u
    }

    /// The platform's own `code`: anything but 0 is a rejection carrying
    /// its `message`.
    pub fn check_code(&self, root: &JsonValue, prefix: &str) -> (r: Result<(), ParseError>)
        ensures
            ({
                let code = spec_int_at(*root, "/code"@);
                match r {
                    Ok(_) => code == Some(0int),
                    Err(e) => {
                        ||| (code is None && e == ParseError::MalformedUpstreamPayload)
                        ||| (code matches Some(c) && c != 0 && (e matches
                            ParseError::UpstreamBusinessError(m) && m@.subrange(
                            0,
                            prefix@.len() as int,
                        ) == prefix@))
                    },
                }
            }),
    {
        let code = match get_i64(root, "/code") {
            Some(c) => c,
            None => {
                return Err(ParseError::MalformedUpstreamPayload);
            },
        };
        if code != 0 {
            let mut msg = String::from_str(prefix);
            let ghost plen = msg@.len();
            msg.append(get_str_or_empty(root, "/message").as_str());
            msg.append(" (code: ");
            msg.append(i64_to_string(code).as_str());
            msg.append(")");
            proof {
                assert(msg@.subrange(0, plen as int) =~= prefix@);
            }
            return Err(ParseError::UpstreamBusinessError(msg));
        }
        Ok(())
    }
}

/// What the view endpoint answers about one video: its title and cover,
/// its owner, and the cid of its first page.
#[derive(Debug)]
pub struct BiliView {
    pub title: String,
    pub pic: String,
    pub mid: i64,
    pub name: String,
    pub face: String,
    pub cid: i64,
}

impl BilibiliParser {
    /// Reads the view answer; every field the flow needs is required.
    pub fn parse_view(&self, root: &JsonValue) -> (r: Result<BiliView, ParseError>)
        ensures
            ({
                &&& (r is Ok <==> {
                    &&& spec_int_at(*root, "/code"@) == Some(0int)
                    &&& spec_str_at(*root, "/data/title"@) is Some
                    &&& spec_str_at(*root, "/data/pic"@) is Some
                    &&& spec_int_at(*root, "/data/owner/mid"@) is Some
                    &&& spec_str_at(*root, "/data/owner/name"@) is Some
                    &&& spec_str_at(*root, "/data/owner/face"@) is Some
                    &&& spec_int_at(*root, "/data/pages/0/cid"@) is Some
                })
                &&& match r {
                    Ok(v) => {
                        &&& spec_int_at(*root, "/code"@) == Some(0int)
                        &&& spec_str_at(*root, "/data/title"@) == Some(v.title@)
                        &&& spec_str_at(*root, "/data/pic"@) == Some(v.pic@)
                        &&& spec_int_at(*root, "/data/owner/mid"@) == Some(v.mid as int)
                        &&& spec_str_at(*root, "/data/owner/name"@) == Some(v.name@)
                        &&& spec_str_at(*root, "/data/owner/face"@) == Some(v.face@)
                        &&& spec_int_at(*root, "/data/pages/0/cid"@) == Some(v.cid as int)
                    },
                    Err(e) => {
                        ||| e == ParseError::MalformedUpstreamPayload
                        ||| e matches ParseError::UpstreamBusinessError(_)
                    },
                }
            }),
    {
        match self.check_code(root, "B站API返回错误: ") {
            Ok(_) => {},
            Err(e) => {
                return Err(e);
            },
        }
        let title = match get_str(root, "/data/title") {
            Some(t) => t,
            None => {
                return Err(ParseError::MalformedUpstreamPayload);
            },
        };
        let pic = match get_str(root, "/data/pic") {
            Some(p) => p,
            None => {
                return Err(ParseError::MalformedUpstreamPayload);
            },
        };
        let mid = match get_i64(root, "/data/owner/mid") {
            Some(m) => m,
            None => {
                return Err(ParseError::MalformedUpstreamPayload);
            },
        };
        let name = match get_str(root, "/data/owner/name") {
            Some(n) => n,
            None => {
                return Err(ParseError::MalformedUpstreamPayload);
            },
        };
        let face = match get_str(root, "/data/owner/face") {
            Some(f) => f,
            None => {
                return Err(ParseError::MalformedUpstreamPayload);
            },
        };
        let cid = match get_i64(root, "/data/pages/0/cid") {
            Some(c) => c,
            None => {
                return Err(ParseError::MalformedUpstreamPayload);
            },
        };
        Ok(BiliView { title, pic, mid, name, face, cid })
    }

    /// Reads the playurl answer: the first rendition's URL.
    pub fn parse_play(&self, root: &JsonValue) -> (r: Result<String, ParseError>)
        ensures
            ({
                &&& (r is Ok <==> (spec_int_at(*root, "/code"@) == Some(0int) && spec_str_at(
                    *root,
                    "/data/durl/0/url"@,
                ) is Some))
                &&& match r {
                    Ok(v) => spec_int_at(*root, "/code"@) == Some(0int) && spec_str_at(
                        *root,
                        "/data/durl/0/url"@,
                    ) == Some(v@),
                    Err(e) => {
                        ||| e == ParseError::MalformedUpstreamPayload
                        ||| e matches ParseError::UpstreamBusinessError(_)
                    },
                }
            }),
    {
        match self.check_code(root, "B站播放API返回错误: ") {
            Ok(_) => {},
            Err(e) => {
                return Err(e);
            },
        }
        match get_str(root, "/data/durl/0/url") {
            Some(v) => Ok(v),
            None => Err(ParseError::MalformedUpstreamPayload),
        }
    }

    /// The canonical record of a resolved view and rendition.
    pub fn assemble_info(&self, view: BiliView, video_url: String) -> (r: VideoParseInfo)
        ensures
            r.title == view.title,
            r.video_url == Some(video_url),
            r.cover_url == Some(view.pic),
            r.author.name == view.name,
            r.author.avatar == view.face,
            view.mid >= 0 ==> all_digits(r.author.uid@) && digits_val(r.author.uid@)
                == view.mid,
            r.images@.len() == 0,
            r.music_url is None,
            r.media_exclusive(),
            r.has_media(),
    {
        let BiliView { title, pic, mid, name, face, cid: _ } = view;
        let author = Author { uid: i64_to_string(mid), name, avatar: face };
        match VideoParseInfo::assemble(author, title, Some(video_url), None, Some(pic), Vec::new()) {
            Ok(info) => info,
            Err(_) => unreached(),
        }
    }
}

} // verus!
