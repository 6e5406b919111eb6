use vstd::prelude::*;

use crate::errors::ParseError;
use crate::htmlq::{select_first_attr, selected_attr_of};
use crate::json::{
    get_obj, get_str, get_str_or_empty, pointer, spec_pointer, spec_str_at, spec_str_or_empty,
    JsonValue,
};
use crate::models::{img_views, opt_str_view, Author, ImgInfo, VideoParseInfo};
use crate::text::{
    contains_substr, has_sub, last_path_segment, replace_all, spec_last_segment, spec_replace_all,
    str_eq,
};
use crate::weburl::{
    spec_query_param, url_host, url_host_of, url_path, url_path_of, url_query_of, url_query_param,
};

verus! {

/// Extraction strategy for douyin share links.
pub struct DouyinParser;

/// Which fetch pattern a douyin share URL calls for.
#[derive(Debug, Clone, Copy, PartialEq, Eq, Structural)]
pub enum DouyinRoute {
    /// A shortened app link: probe it with redirects disabled and parse the
    /// id out of the redirect target.
    AppLink,
    /// A desktop link that carries the id itself.
    PcLink,
    /// A host this strategy does not recognise.
    Other,
}

impl DouyinParser {
    /// Routes by the URL's host, as the strategy's entry point does.
    pub fn classify_share_url(&self, share_url: &str) -> (r: DouyinRoute)
        ensures
            r == (match url_host_of(share_url@) {
                Some(h) => if h == "v.douyin.com"@ {
                    DouyinRoute::AppLink
                } else if h == "www.iesdouyin.com"@ || h == "www.douyin.com"@ {
                    DouyinRoute::PcLink
                } else {
                    DouyinRoute::Other
                },
                None => DouyinRoute::Other,
            }),
    {
        match url_host(share_url) {
            Some(h) => {
                if str_eq(h.as_str(), "v.douyin.com") {
                    DouyinRoute::AppLink
                } else if str_eq(h.as_str(), "www.iesdouyin.com") || str_eq(
                    h.as_str(),
                    "www.douyin.com",
                ) {
                    DouyinRoute::PcLink
                } else {
                    DouyinRoute::Other
                }
            },
            None => DouyinRoute::Other,
        }
    }

    /// The URL a path-or-URL argument is read as: itself where it parses,
    /// else rooted at a placeholder host.
    pub open spec fn spec_id_target(u: Seq<char>) -> Seq<char> {
        if url_path_of(u) is Some {
            u
        } else {
            "https://example.com"@ + u
        }
    }

    /// The canonical id carried by a douyin link: the `modal_id` query
    /// parameter where present, else the last path segment.
    pub fn extract_video_id_from_path(&self, link: &str) -> (r: Result<String, ParseError>)
        ensures
            ({
                let target = Self::spec_id_target(link@);
                match r {
                    Ok(id) => {
                        ||| (url_query_of(target) matches Some(q) && spec_query_param(
                            q,
                            "modal_id"@,
                        ) == Some(id@))
                        ||| ((match url_query_of(target) {
                            Some(q) => spec_query_param(q, "modal_id"@) is None,
                            None => true,
                        }) && (url_path_of(target) matches Some(p) && id@ == spec_last_segment(
                            p,
                        )))
                    },
                    Err(e) => e == ParseError::InvalidShareUrl && (match url_query_of(target) {
                        Some(q) => spec_query_param(q, "modal_id"@) is None,
                        None => true,
                    }) && url_path_of(target) is None,
                }
            }),
    {
        let target: String = match url_path(link) {
            Some(_) => String::from_str(link),
            None => {
                let mut t = String::from_str("https://example.com");
                t.append(link);
                t
            },
        };
        if let Some(v) = url_query_param(target.as_str(), "modal_id") {
            return Ok(v);
        }
        match url_path(target.as_str()) {
            Some(p) => Ok(last_path_segment(p.as_str())),
            None => Err(ParseError::InvalidShareUrl),
        }
    }

    /// An app-link redirect target may hand the content to another
    /// platform; a xigua target is not served by this strategy.
    pub fn app_location_supported(&self, location: &str) -> (r: bool)
        ensures
            r == !has_sub(location@, "ixigua.com"@),
    {
        !contains_substr(location, "ixigua.com")
    }

    /// The rendered share page for one video id.
    pub fn video_page_url(&self, video_id: &str) -> (r: String)
        ensures
            r@ == "https://www.iesdouyin.com/share/video/"@ + video_id@,
    {
        let mut u = String::from_str("https://www.iesdouyin.com/share/video/");
        u.append(video_id);
        u
    }

    /// The gallery (note) API endpoint for one video id, with the fresh
    /// device ids the endpoint expects.
    pub fn note_api_url(&self, video_id: &str, web_id: &str, a_bogus: &str) -> (r: String)
        ensures
            r@ == "https://www.iesdouyin.com/web/api/v2/aweme/slidesinfo/?reflow_source=reflow_page&web_id="@
                + web_id@ + "&device_id="@ + web_id@ + "&aweme_ids=%5B"@ + video_id@
                + "%5D&request_source=200&a_bogus="@ + a_bogus@,
    {
        let mut u = String::from_str(
            "https://www.iesdouyin.com/web/api/v2/aweme/slidesinfo/?reflow_source=reflow_page&web_id=",
        );
        u.append(web_id);
        u.append("&device_id=");
        u.append(web_id);
        u.append("&aweme_ids=%5B");
        u.append(video_id);
        u.append("%5D&request_source=200&a_bogus=");
        u.append(a_bogus);
        u
    }

    /// The cheap content-class signal: the canonical link of the fetched
    /// page points into `/note/` for galleries.
    pub fn check_is_note(&self, html: &str) -> (r: bool)
        ensures
            r == (match selected_attr_of(html@, "link[rel='canonical']"@, "href"@) {
                Some(h) => has_sub(h, "/note/"@),
                None => false,
            }),
    {
        match select_first_attr(html, "link[rel='canonical']", "href") {
            Some(h) => contains_substr(h.as_str(), "/note/"),
            None => false,
        }
    }

    /// The single gallery record of the note API's answer.
    pub fn note_item<'a>(&self, root: &'a JsonValue) -> (r: Result<&'a JsonValue, ParseError>)
        ensures
            match r {
                Ok(item) => spec_pointer(*root, "/aweme_details/0"@) == Some(*item),
                Err(e) => e == ParseError::MalformedUpstreamPayload && spec_pointer(
                    *root,
                    "/aweme_details/0"@,
                ) is None,
            },
    {
        match pointer(root, "/aweme_details/0") {
            Some(item) => Ok(item),
            None => Err(ParseError::MalformedUpstreamPayload),
        }
    }

    /// The item a router-data entry carries, if any.
    pub open spec fn entry_item(v: JsonValue) -> Option<JsonValue> {
        spec_pointer(v, "/videoInfoRes/item_list/0"@)
    }

    pub open spec fn find_item_from(
        entries: Seq<(String, JsonValue)>,
        i: int,
    ) -> Option<JsonValue>
        decreases entries.len() - i,
    {
        if !(0 <= i < entries.len()) {
            None
        } else {
            match Self::entry_item(entries[i].1) {
                Some(item) => Some(item),
                None => Self::find_item_from(entries, i + 1),
            }
        }
    }

    pub open spec fn filter_match(f: JsonValue, video_id: Seq<char>) -> bool {
        spec_str_at(f, "/aweme_id"@) == Some(video_id)
    }

    pub open spec fn find_filter_in(
        filters: Seq<JsonValue>,
        video_id: Seq<char>,
        k: int,
    ) -> Option<JsonValue>
        decreases filters.len() - k,
    {
        if !(0 <= k < filters.len()) {
            None
        } else if Self::filter_match(filters[k], video_id) {
            Some(filters[k])
        } else {
            Self::find_filter_in(filters, video_id, k + 1)
        }
    }

    pub open spec fn entry_filter(v: JsonValue, video_id: Seq<char>) -> Option<JsonValue> {
        match spec_pointer(v, "/videoInfoRes/filter_list"@) {
            Some(JsonValue::Arr(fs)) => Self::find_filter_in(fs@, video_id, 0),
            _ => None,
        }
    }

    pub open spec fn find_filter_from(
        entries: Seq<(String, JsonValue)>,
        video_id: Seq<char>,
        i: int,
    ) -> Option<JsonValue>
        decreases entries.len() - i,
    {
        if !(0 <= i < entries.len()) {
            None
        } else {
            match Self::entry_filter(entries[i].1, video_id) {
                Some(f) => Some(f),
                None => Self::find_filter_from(entries, video_id, i + 1),
            }
        }
    }

    /// Walks the router data of a rendered page for the video record; where
    /// none stands there but the id sits in a filter list, the platform has
    /// filtered the content and its own reason is surfaced as a business
    /// rejection.
    #[verifier::loop_isolation(false)]
    pub fn parse_video_data_from_html<'a>(&self, root: &'a JsonValue, video_id: &str) -> (r:
        Result<&'a JsonValue, ParseError>)
        ensures
            ({
                let entries = (match spec_pointer(*root, "/loaderData"@) {
                    Some(JsonValue::Obj(es)) => es@,
                    _ => Seq::<(String, JsonValue)>::empty(),
                });
                match r {
                    Ok(item) => Self::find_item_from(entries, 0) == Some(*item),
                    Err(e) => Self::find_item_from(entries, 0) is None && (match Self::find_filter_from(
                        entries,
                        video_id@,
                        0,
                    ) {
                        Some(f) => e matches ParseError::UpstreamBusinessError(m) && m@
                            == "视频被过滤: "@ + spec_str_or_empty(f, "/filter_reason"@) + " - "@
                            + spec_str_or_empty(f, "/detail_msg"@),
                        None => e == ParseError::MalformedUpstreamPayload,
                    }),
                }
            }),
    {
        let entries = match get_obj(root, "/loaderData") {
            Some(es) => es,
            None => {
                return Err(ParseError::MalformedUpstreamPayload);
            },
        };
        let mut i: usize = 0;
        while i < entries.len()
            invariant
                i <= entries@.len(),
                Self::find_item_from(entries@, 0) == Self::find_item_from(entries@, i as int),
            decreases entries@.len() - i,
        {
            let val = &entries[i].1;
            if let Some(item) = pointer(val, "/videoInfoRes/item_list/0") {
                return Ok(item);
            }
            i += 1;
        }
        let mut k: usize = 0;
        while k < entries.len()
            invariant
                k <= entries@.len(),
                Self::find_item_from(entries@, 0) is None,
                Self::find_filter_from(entries@, video_id@, 0) == Self::find_filter_from(
                    entries@,
                    video_id@,
                    k as int,
                ),
            decreases entries@.len() - k,
        {
            let val = &entries[k].1;
            match pointer(val, "/videoInfoRes/filter_list") {
                Some(JsonValue::Arr(fs)) => {
                    let mut m: usize = 0;
                    while m < fs.len()
                        invariant
                            m <= fs@.len(),
                            Self::find_filter_in(fs@, video_id@, 0) == Self::find_filter_in(
                                fs@,
                                video_id@,
                                m as int,
                            ),
                        decreases fs@.len() - m,
                    {
                        let f = &fs[m];
                        let matched = match get_str(f, "/aweme_id") {
                            Some(aid) => str_eq(aid.as_str(), video_id),
                            None => false,
                        };
                        if matched {
                            let mut msg = String::from_str("视频被过滤: ");
                            msg.append(get_str_or_empty(f, "/filter_reason").as_str());
                            msg.append(" - ");
                            msg.append(get_str_or_empty(f, "/detail_msg").as_str());
                            return Err(ParseError::UpstreamBusinessError(msg));
                        }
                        m += 1;
                    }
                },
                _ => {},
            }
            k += 1;
        }
        Err(ParseError::MalformedUpstreamPayload)
    }

    pub open spec fn non_webp_from(items: Seq<JsonValue>, i: int) -> Option<Seq<char>>
        decreases items.len() - i,
    {
        if !(0 <= i < items.len()) {
            None
        } else {
            match items[i] {
                JsonValue::Str(s) => if !has_sub(s@, ".webp"@) {
                    Some(s@)
                } else {
                    Self::non_webp_from(items, i + 1)
                },
                _ => Self::non_webp_from(items, i + 1),
            }
        }
    }

    /// The first URL of the list that is not a webp rendering; failing
    /// that, the list's first entry, where it is a string at all.
    pub open spec fn spec_non_webp(list: Option<JsonValue>) -> Option<Seq<char>> {
        match list {
            Some(JsonValue::Arr(items)) => match Self::non_webp_from(items@, 0) {
                Some(u) => Some(u),
                None => if items@.len() > 0 {
                    match items@[0] {
                        JsonValue::Str(s) => Some(s@),
                        _ => None,
                    }
                } else {
                    None
                },
            },
            _ => None,
        }
    }

    #[verifier::loop_isolation(false)]
    pub fn get_non_webp_url(&self, list: Option<&JsonValue>) -> (r: Option<String>)
        ensures
            ({
                let lv = (match list {
                    Some(v) => Some(*v),
                    None => None::<JsonValue>,
                });
                opt_str_view(r) == Self::spec_non_webp(lv)
            }),
    {
        let v = match list {
            Some(v) => v,
            None => {
                return None;
            },
        };
        let items = match v {
            JsonValue::Arr(items) => items,
            _ => {
                return None;
            },
        };
        let mut i: usize = 0;
        while i < items.len()
            invariant
                i <= items@.len(),
                Self::non_webp_from(items@, 0) == Self::non_webp_from(items@, i as int),
            decreases items@.len() - i,
        {
            match &items[i] {
                JsonValue::Str(s) => {
                    if !contains_substr(s.as_str(), ".webp") {
                        return Some(s.clone());
                    }
                },
                _ => {},
            }
            i += 1;
        }
        if items.len() > 0 {
            match &items[0] {
                JsonValue::Str(s) => Some(s.clone()),
                _ => None,
            }
        } else {
            None
        }
    }

    /// The gallery entries of a note: each image's non-webp URL paired with
    /// its optional motion clip.
    pub open spec fn images_from(images: Seq<JsonValue>, i: int) -> Seq<
        (Seq<char>, Option<Seq<char>>),
    >
        decreases images.len() - i,
    {
        if !(0 <= i < images.len()) {
            Seq::empty()
        } else {
            let rest = Self::images_from(images, i + 1);
            match Self::spec_non_webp(spec_pointer(images[i], "/url_list"@)) {
                Some(u) => seq![(u, spec_str_at(images[i], "/video/play_addr/url_list/0"@))]
                    + rest,
                None => rest,
            }
        }
    }

    /// Normalizes one fetched record into the canonical result. The raw
    /// playable URL still carries the watermarking endpoint name and is
    /// rewritten; a later redirect probe may replace it (see
    /// `resolve_video_url`).
    #[verifier::loop_isolation(false)]
    pub fn extract_video_info(&self, data: &JsonValue, is_note: bool) -> (r: Result<
        VideoParseInfo,
        ParseError,
    >)
        ensures
            ({
                let imgs = (match spec_pointer(*data, "/images"@) {
                    Some(JsonValue::Arr(items)) => Self::images_from(items@, 0),
                    _ => Seq::<(Seq<char>, Option<Seq<char>>)>::empty(),
                });
                let raw_video = (if !is_note && imgs.len() == 0 {
                    match spec_str_at(*data, "/video/play_addr/url_list/0"@) {
                        Some(u) => Some(spec_replace_all(u, "playwm"@, "play"@)),
                        None => None::<Seq<char>>,
                    }
                } else {
                    None::<Seq<char>>
                });
                &&& (r is Ok <==> (imgs.len() > 0 || raw_video is Some))
                &&& (r matches Ok(info) ==> {
                    &&& info.author.uid@ == spec_str_or_empty(*data, "/author/sec_uid"@)
                    &&& info.author.name@ == spec_str_or_empty(*data, "/author/nickname"@)
                    &&& info.author.avatar@ == spec_str_or_empty(
                        *data,
                        "/author/avatar_thumb/url_list/0"@,
                    )
                    &&& info.title@ == spec_str_or_empty(*data, "/desc"@)
                    &&& opt_str_view(info.cover_url) == Self::spec_non_webp(
                        spec_pointer(*data, "/video/cover/url_list"@),
                    )
                    &&& img_views(info.images@) == imgs
                    &&& (imgs.len() == 0 ==> opt_str_view(info.video_url) == raw_video)
                    &&& info.media_exclusive()
                    &&& info.has_media()
                    &&& info.music_url is None
                })
                &&& (r matches Err(e) ==> e == ParseError::NoMediaFound)
            }),
    {
        let author = Author {
            uid: get_str_or_empty(data, "/author/sec_uid"),
            name: get_str_or_empty(data, "/author/nickname"),
            avatar: get_str_or_empty(data, "/author/avatar_thumb/url_list/0"),
        };
        let title = get_str_or_empty(data, "/desc");
        let cover = self.get_non_webp_url(pointer(data, "/video/cover/url_list"));
        let mut images: Vec<ImgInfo> = Vec::new();
        match pointer(data, "/images") {
            Some(JsonValue::Arr(items)) => {
                let mut i: usize = 0;
                while i < items.len()
                    invariant
                        i <= items@.len(),
                        img_views(images@) + Self::images_from(items@, i as int)
                            == Self::images_from(items@, 0),
                    decreases items@.len() - i,
                {
                    let ghost pre = images@;
                    match self.get_non_webp_url(pointer(&items[i], "/url_list")) {
                        Some(u) => {
                            let live = get_str(&items[i], "/video/play_addr/url_list/0");
                            images.push(ImgInfo { url: u, live_photo_url: live });
                            proof {
                                assert(img_views(images@) =~= img_views(pre) + seq![
                                    (images@.last().url@, opt_str_view(images@.last().live_photo_url)),
                                ]);
                            }
                        },
                        None => {},
                    }
                    i += 1;
                }
            },
            _ => {},
        }
        proof {
            reveal_strlit("playwm");
        }
        let video: Option<String> = if !is_note && images.len() == 0 {
            match get_str(data, "/video/play_addr/url_list/0") {
                Some(u) => Some(replace_all(u.as_str(), "playwm", "play")),
                None => None,
            }
        } else {
            None
        };
        VideoParseInfo::assemble(author, title, video, None, cover, images)
    }

    /// The playable URL after the optional redirect probe: the probe's
    /// `Location`, where one came back, replaces the raw URL.
    pub fn resolve_video_url(&self, info: VideoParseInfo, location: Option<String>) -> (r:
        VideoParseInfo)
        ensures
            r.author == info.author,
            r.title == info.title,
            r.music_url == info.music_url,
            r.cover_url == info.cover_url,
            r.images == info.images,
            r.video_url == (match info.video_url {
                Some(raw) => Some(
                    match location {
                        Some(l) => l,
                        None => raw,
                    },
                ),
                None => None::<String>,
            }),
    {
        let VideoParseInfo { author, title, video_url, music_url, cover_url, images } = info;
        let video_url = match video_url {
            Some(raw) => Some(
                match location {
                    Some(l) => l,
                    None => raw,
                },
            ),
            None => None,
        };
        VideoParseInfo { author, title, video_url, music_url, cover_url, images }
    }
}

} // verus!
