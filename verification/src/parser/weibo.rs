use vstd::prelude::*;

use crate::errors::ParseError;
use crate::json::{
    get_obj, get_str, get_str_or_empty, pointer, spec_pointer, spec_str_at, spec_str_or_empty,
    JsonValue,
};
use crate::models::{img_views, opt_str_view, Author, ImgInfo, VideoParseInfo};
use crate::text::{
    contains_substr, find_from, find_substr_from, has_sub, last_path_segment, replace_all,
    rskip_char_idx, skip_char_idx, spec_last_segment, spec_replace_all, spec_trim, trim_str,
};
use crate::weburl::{spec_query_param, url_path, url_path_of, url_query_of, url_query_param};

verus! {

/// Extraction strategy for weibo share links: video pages, and posts that
/// may carry image albums.
pub struct WeiboParser;

/// Which flow a weibo share URL calls for.
#[derive(Debug)]
pub enum WeiboRoute {
    /// A video page; the carried string is the video id.
    Video(String),
    /// An ordinary post (a potential album); the carried string is the
    /// post id.
    Post(String),
    /// A URL shape this strategy does not recognise.
    Invalid,
}

impl WeiboParser {
    /// The trimmed path splits into at least two `/`-separated parts.
    pub open spec fn spec_multi_segment(p: Seq<char>) -> bool {
        let a = skip_char_idx(p, '/', 0);
        let b = rskip_char_idx(p, '/', p.len() as int);
        a < b && has_sub(p.subrange(a, b), "/"@)
    }

    fn multi_segment(p: &str) -> (r: bool)
        ensures
            r == Self::spec_multi_segment(p@),
    {
        let n = p.unicode_len();
        let mut a: usize = 0;
        while a < n && p.get_char(a) == '/'
            invariant
                a <= n,
                n == p@.len(),
                skip_char_idx(p@, '/', 0) == skip_char_idx(p@, '/', a as int),
            decreases n - a,
        {
            a += 1;
        }
        let mut b: usize = n;
        while b > 0 && p.get_char(b - 1) == '/'
            invariant
                b <= n,
                n == p@.len(),
                rskip_char_idx(p@, '/', n as int) == rskip_char_idx(p@, '/', b as int),
            decreases b,
        {
            b -= 1;
        }
        if a < b {
            contains_substr(p.substring_char(a, b), "/")
        } else {
            false
        }
    }

    /// Routes a share URL: a `show?fid=` or `/tv/show/` link is a video
    /// page, any other post-shaped path is a potential album.
    pub fn classify_share_url(&self, share_url: &str) -> (r: WeiboRoute)
        ensures
            ({
                let u = share_url@;
                if has_sub(u, "show?fid="@) {
                    match url_query_of(u) {
                        Some(q) => match spec_query_param(q, "fid"@) {
                            Some(v) => r matches WeiboRoute::Video(id) && id@ == v,
                            None => r is Invalid,
                        },
                        None => r is Invalid,
                    }
                } else if has_sub(u, "/tv/show/"@) {
                    match url_path_of(u) {
                        Some(p) => r matches WeiboRoute::Video(id) && id@ == spec_replace_all(
                            p,
                            "/tv/show/"@,
                            Seq::<char>::empty(),
                        ),
                        None => r is Invalid,
                    }
                } else {
                    match url_path_of(u) {
                        Some(p) => if Self::spec_multi_segment(p) {
                            r matches WeiboRoute::Post(id) && id@ == spec_last_segment(p)
                        } else {
                            r is Invalid
                        },
                        None => r is Invalid,
                    }
                }
            }),
    {
        if contains_substr(share_url, "show?fid=") {
            match url_query_param(share_url, "fid") {
                Some(v) => WeiboRoute::Video(v),
                None => WeiboRoute::Invalid,
            }
        } else if contains_substr(share_url, "/tv/show/") {
            match url_path(share_url) {
                Some(p) => {
                    proof {
                        reveal_strlit("/tv/show/");
                        reveal_strlit("");
                        assert(""@ =~= Seq::<char>::empty());
                    }
                    WeiboRoute::Video(replace_all(p.as_str(), "/tv/show/", ""))
                },
                None => WeiboRoute::Invalid,
            }
        } else {
            match url_path(share_url) {
                Some(p) => {
                    if Self::multi_segment(p.as_str()) {
                        WeiboRoute::Post(last_path_segment(p.as_str()))
                    } else {
                        WeiboRoute::Invalid
                    }
                },
                None => WeiboRoute::Invalid,
            }
        }
    }

    /// The playinfo component endpoint for one video id.
    pub fn video_api_url(&self, video_id: &str) -> (r: String)
        ensures
            r@ == "https://h5.video.weibo.com/api/component?page=/show/"@ + video_id@,
    {
        let mut u = String::from_str("https://h5.video.weibo.com/api/component?page=/show/");
        u.append(video_id);
        u
    }

    /// The referer the playinfo endpoint expects.
    pub fn video_referer(&self, video_id: &str) -> (r: String)
        ensures
            r@ == "https://h5.video.weibo.com/show/"@ + video_id@,
    {
        let mut u = String::from_str("https://h5.video.weibo.com/show/");
        u.append(video_id);
        u
    }

    /// The form body of the playinfo request.
    pub fn video_api_body(&self, video_id: &str) -> (r: String)
        ensures
            r@ == "data={\"Component_Play_Playinfo\":{\"oid\":\""@ + video_id@ + "\"}}"@,
    {
        let mut b = String::from_str("data={\"Component_Play_Playinfo\":{\"oid\":\"");
        b.append(video_id);
        b.append("\"}}");
        b
    }

    /// The mobile-web API endpoint for one post id (fallback tier one).
    pub fn mobile_api_url(&self, post_id: &str) -> (r: String)
        ensures
            r@ == "https://m.weibo.cn/statuses/show?id="@ + post_id@,
    {
        let mut u = String::from_str("https://m.weibo.cn/statuses/show?id=");
        u.append(post_id);
        u
    }

    /// The first member of the urls object that is a string: the highest
    /// bitrate rendition comes first.
    pub open spec fn first_str_value(entries: Seq<(String, JsonValue)>, i: int) -> Option<
        Seq<char>,
    >
        decreases entries.len() - i,
    {
        if !(0 <= i < entries.len()) {
            None
        } else {
            match entries[i].1 {
                JsonValue::Str(s) => Some(s@),
                _ => Self::first_str_value(entries, i + 1),
            }
        }
    }

    fn first_url_value(entries: &Vec<(String, JsonValue)>) -> (r: Option<String>)
        ensures
            match Self::first_str_value(entries@, 0) {
                Some(v) => opt_str_view(r) == Some("https:"@ + v),
                None => r is None,
            },
    {
        let mut i: usize = 0;
        while i < entries.len()
            invariant
                i <= entries@.len(),
                Self::first_str_value(entries@, 0) == Self::first_str_value(entries@, i as int),
            decreases entries@.len() - i,
        {
            match &entries[i].1 {
                JsonValue::Str(s) => {
                    let mut v = String::from_str("https:");
                    v.append(s.as_str());
                    return Some(v);
                },
                _ => {},
            }
            i += 1;
        }
        None
    }

    /// Normalizes the playinfo answer: protocol-relative URLs are given
    /// their scheme back, and the first (highest-bitrate) rendition wins.
    #[verifier::loop_isolation(false)]
    pub fn parse_video_api(&self, root: &JsonValue) -> (r: Result<VideoParseInfo, ParseError>)
        ensures
            ({
                let d = spec_pointer(*root, "/data/Component_Play_Playinfo"@);
                let playable = (match d {
                    Some(data) => (match spec_pointer(data, "/urls"@) {
                        Some(JsonValue::Obj(es)) => Self::first_str_value(es@, 0) is Some,
                        _ => false,
                    }),
                    None => false,
                });
                &&& (r is Ok <==> (d is Some && playable))
                &&& match r {
                    Ok(info) => d matches Some(data) && {
                        let vid = (match spec_pointer(data, "/urls"@) {
                            Some(JsonValue::Obj(es)) => Self::first_str_value(es@, 0),
                            _ => None::<Seq<char>>,
                        });
                        &&& vid matches Some(v) && opt_str_view(info.video_url) == Some(
                            "https:"@ + v,
                        )
                        &&& info.title@ == spec_str_or_empty(data, "/title"@)
                        &&& (match spec_str_at(data, "/cover_image"@) {
                            Some(c) => opt_str_view(info.cover_url) == Some("https:"@ + c),
                            None => info.cover_url is None,
                        })
                        &&& info.author.name@ == spec_str_or_empty(data, "/author"@)
                        &&& (match spec_str_at(data, "/avatar"@) {
                            Some(a) => info.author.avatar@ == "https:"@ + a,
                            None => info.author.avatar@.len() == 0,
                        })
                        &&& info.author.uid@.len() == 0
                        &&& info.images@.len() == 0
                        &&& info.media_exclusive()
                        &&& info.has_media()
                    },
                    Err(e) => {
                        ||| (e == ParseError::MalformedUpstreamPayload && d is None)
                        ||| e == ParseError::NoMediaFound
                    },
                }
            }),
    {
        let data = match pointer(root, "/data/Component_Play_Playinfo") {
            Some(d) => d,
            None => {
                return Err(ParseError::MalformedUpstreamPayload);
            },
        };
        let video: Option<String> = match get_obj(data, "/urls") {
            Some(entries) => Self::first_url_value(entries),
            None => None,
        };
        let title = get_str_or_empty(data, "/title");
        let cover = match get_str(data, "/cover_image") {
            Some(c) => {
                let mut v = String::from_str("https:");
                v.append(c.as_str());
                Some(v)
            },
            None => None,
        };
        let avatar = match get_str(data, "/avatar") {
            Some(a) => {
                let mut v = String::from_str("https:");
                v.append(a.as_str());
                v
            },
            None => String::new(),
        };
        let author = Author { uid: String::new(), name: get_str_or_empty(data, "/author"), avatar };
        VideoParseInfo::assemble(author, title, video, None, cover, Vec::new())
    }

    /// The album image of one pic record: the first of the large, original,
    /// bmiddle and plain renditions that is present.
    pub open spec fn pic_url(pic: JsonValue) -> Option<Seq<char>> {
        match spec_str_at(pic, "/large/url"@) {
            Some(u) => Some(u),
            None => match spec_str_at(pic, "/original/url"@) {
                Some(u) => Some(u),
                None => match spec_str_at(pic, "/bmiddle/url"@) {
                    Some(u) => Some(u),
                    None => spec_str_at(pic, "/url"@),
                },
            },
        }
    }

    /// The non-empty album images of a pics array.
    pub open spec fn pics_from(pics: Seq<JsonValue>, i: int) -> Seq<(Seq<char>, Option<Seq<char>>)>
        decreases pics.len() - i,
    {
        if !(0 <= i < pics.len()) {
            Seq::empty()
        } else {
            let rest = Self::pics_from(pics, i + 1);
            match Self::pic_url(pics[i]) {
                Some(u) => if u.len() > 0 {
                    seq![(u, None::<Seq<char>>)] + rest
                } else {
                    rest
                },
                None => rest,
            }
        }
    }

    fn pic_url_ex(pic: &JsonValue) -> (r: Option<String>)
        ensures
            opt_str_view(r) == Self::pic_url(*pic),
    {
        match get_str(pic, "/large/url") {
            Some(u) => Some(u),
            None => match get_str(pic, "/original/url") {
                Some(u) => Some(u),
                None => match get_str(pic, "/bmiddle/url") {
                    Some(u) => Some(u),
                    None => get_str(pic, "/url"),
                },
            },
        }
    }

    #[verifier::loop_isolation(false)]
    fn collect_pics(pics: &Vec<JsonValue>) -> (r: Vec<ImgInfo>)
        ensures
            img_views(r@) == Self::pics_from(pics@, 0),
    {
        let mut images: Vec<ImgInfo> = Vec::new();
        let mut i: usize = 0;
        while i < pics.len()
            invariant
                i <= pics@.len(),
                img_views(images@) + Self::pics_from(pics@, i as int) == Self::pics_from(pics@, 0),
            decreases pics@.len() - i,
        {
            let ghost pre = images@;
            match Self::pic_url_ex(&pics[i]) {
                Some(u) => {
                    if u.unicode_len() > 0 {
                        images.push(ImgInfo { url: u, live_photo_url: None });
                        proof {
                            assert(img_views(images@) =~= img_views(pre) + seq![
                                (images@.last().url@, opt_str_view(images@.last().live_photo_url)),
                            ]);
                        }
                    }
                },
                None => {},
            }
            i += 1;
        }
        proof {
            assert(img_views(images@) =~= img_views(images@) + Seq::empty());
        }
        images
    }

    /// Tier one of the post flow: the mobile-web API record. An answer
    /// without album images counts as an empty payload and sends the chain
    /// to the next tier.
    pub fn parse_mobile_api_data(&self, data: &JsonValue) -> (r: Result<
        VideoParseInfo,
        ParseError,
    >)
        ensures
            ({
                let imgs = (match spec_pointer(*data, "/pics"@) {
                    Some(JsonValue::Arr(ps)) => Self::pics_from(ps@, 0),
                    _ => Seq::<(Seq<char>, Option<Seq<char>>)>::empty(),
                });
                &&& (r is Ok <==> imgs.len() > 0)
                &&& (r matches Ok(info) ==> {
                    &&& info.title@ == spec_trim(
                        Self::spec_strip_tags(spec_str_or_empty(*data, "/text"@)),
                    )
                    &&& info.author.name@ == spec_str_or_empty(*data, "/user/screen_name"@)
                    &&& info.author.avatar@ == spec_str_or_empty(*data, "/user/avatar_large"@)
                    &&& img_views(info.images@) == imgs
                    &&& info.video_url is None
                    &&& info.media_exclusive()
                    &&& info.has_media()
                })
                &&& (r matches Err(e) ==> e == ParseError::NoMediaFound)
            }),
    {
        let title = self.clean_text(get_str_or_empty(data, "/text").as_str());
        let author = Author {
            uid: String::new(),
            name: get_str_or_empty(data, "/user/screen_name"),
            avatar: get_str_or_empty(data, "/user/avatar_large"),
        };
        let images: Vec<ImgInfo> = match pointer(data, "/pics") {
            Some(JsonValue::Arr(ps)) => Self::collect_pics(ps),
            _ => Vec::new(),
        };
        proof {
            assert(img_views(Seq::<ImgInfo>::empty()) =~= Seq::<
                (Seq<char>, Option<Seq<char>>),
            >::empty());
        }
        VideoParseInfo::assemble(author, title, None, None, None, images)
    }

    /// Tier two of the post flow: the `$render_data` document of the
    /// rendered desktop page, whose text sits before a literal `[0]` index.
    pub fn render_data_json(&self, html: &str) -> (r: Result<String, ParseError>)
        ensures
            match r {
                Ok(s) => crate::utils::spec_extract_between(html@, "$render_data"@, "[0]"@)
                    matches Some(body) && s@ == body + "[0]"@,
                Err(e) => e == ParseError::EmbeddedDataNotFound && crate::utils::spec_extract_between(
                    html@,
                    "$render_data"@,
                    "[0]"@,
                ) is None,
            },
    {
        match crate::utils::extract_json_from_html(html, "$render_data", "[0]") {
            Ok(mut s) => {
                s.append("[0]");
                Ok(s)
            },
            Err(e) => Err(e),
        }
    }

    /// Tier-two extraction over the parsed render data.
    pub fn parse_html_data(&self, root: &JsonValue) -> (r: Result<VideoParseInfo, ParseError>)
        ensures
            ({
                let imgs = (match spec_pointer(*root, "/status/pics"@) {
                    Some(JsonValue::Arr(ps)) => Self::pics_from(ps@, 0),
                    _ => Seq::<(Seq<char>, Option<Seq<char>>)>::empty(),
                });
                &&& (r is Ok <==> imgs.len() > 0)
                &&& (r matches Ok(info) ==> {
                    &&& info.title@ == spec_trim(
                        Self::spec_strip_tags(spec_str_or_empty(*root, "/status/text"@)),
                    )
                    &&& info.author.name@ == spec_str_or_empty(*root, "/status/user/screen_name"@)
                    &&& info.author.avatar@ == spec_str_or_empty(
                        *root,
                        "/status/user/avatar_large"@,
                    )
                    &&& img_views(info.images@) == imgs
                    &&& info.video_url is None
                    &&& info.media_exclusive()
                    &&& info.has_media()
                })
                &&& (r matches Err(e) ==> e == ParseError::NoMediaFound)
            }),
    {
        let title = self.clean_text(get_str_or_empty(root, "/status/text").as_str());
        let author = Author {
            uid: String::new(),
            name: get_str_or_empty(root, "/status/user/screen_name"),
            avatar: get_str_or_empty(root, "/status/user/avatar_large"),
        };
        let images: Vec<ImgInfo> = match pointer(root, "/status/pics") {
            Some(JsonValue::Arr(ps)) => Self::collect_pics(ps),
            _ => Vec::new(),
        };
        proof {
            assert(img_views(Seq::<ImgInfo>::empty()) =~= Seq::<
                (Seq<char>, Option<Seq<char>>),
            >::empty());
        }
        VideoParseInfo::assemble(author, title, None, None, None, images)
    }

    /// `t` with every complete `<...>` markup span removed; a `<` that
    /// never closes stands as it is.
    pub open spec fn strip_tags_from(t: Seq<char>, i: int) -> Seq<char>
        decreases t.len() - i
            when 0 <= i
            via Self::strip_tags_decreases
    {
        if !(0 <= i < t.len()) {
            Seq::empty()
        } else if t[i] == '<' {
            match find_from(t, ">"@, i) {
                Some(g) => Self::strip_tags_from(t, g + 1),
                None => seq![t[i]] + Self::strip_tags_from(t, i + 1),
            }
        } else {
            seq![t[i]] + Self::strip_tags_from(t, i + 1)
        }
    }

    #[via_fn]
    proof fn strip_tags_decreases(t: Seq<char>, i: int) {
        reveal_strlit(">");
        if 0 <= i < t.len() && t[i] == '<' && find_from(t, ">"@, i) is Some {
            crate::text::lemma_find_from_some(t, ">"@, i);
        }
    }

    pub open spec fn spec_strip_tags(t: Seq<char>) -> Seq<char> {
        Self::strip_tags_from(t, 0)
    }

    /// Strips HTML markup spans out of a text field and trims it.
    #[verifier::loop_isolation(false)]
    pub fn clean_text(&self, text: &str) -> (r: String)
        ensures
            r@ == spec_trim(Self::spec_strip_tags(text@)),
    {
        let n = text.unicode_len();
        let mut out = String::new();
        let mut i: usize = 0;
        while i < n
            invariant
                i <= n,
                out@ + Self::strip_tags_from(text@, i as int) == Self::spec_strip_tags(text@),
            decreases n - i,
        {
            let c = text.get_char(i);
            if c == '<' {
                match find_substr_from(text, ">", i) {
                    Some(g) => {
                        proof {
                            crate::text::lemma_find_from_some(text@, ">"@, i as int);
                            reveal_strlit(">");
                        }
                        i = g + 1;
                    },
                    None => {
                        out.push(c);
                        i += 1;
                    },
                }
            } else {
                out.push(c);
                i += 1;
            }
        }
        trim_str(out.as_str())
    }
}

} // verus!
