use vstd::prelude::*;

use crate::errors::ParseError;
use crate::json::{
    get_str, get_str_or_empty, pointer, spec_pointer, spec_str_at, spec_str_or_empty, JsonValue,
};
use crate::models::{img_views, opt_str_view, Author, ImgInfo, VideoParseInfo};
use crate::text::{replace_all, spec_replace_all, spec_trim_char, str_eq, trim_char_str};
use crate::weburl::{url_path, url_path_of};

verus! {

/// Extraction strategy for pipixia share links: the canonical id travels in
/// the redirect target of the shortened link.
pub struct PipixiaParser;

impl PipixiaParser {
    /// The video id carried by the redirect target's path; empty means the
    /// target carries no id.
    pub fn video_id_from_location(&self, location: &str) -> (r: Result<String, ParseError>)
        ensures
            ({
                match url_path_of(location@) {
                    Some(p) => {
                        let id = spec_replace_all(
                            spec_trim_char(p, '/'),
                            "item/"@,
                            Seq::<char>::empty(),
                        );
                        match r {
                            Ok(got) => got@ == id && id.len() > 0,
                            Err(e) => e == ParseError::InvalidShareUrl && id.len() == 0,
                        }
                    },
                    None => r matches Err(e) && e == ParseError::InvalidShareUrl,
                }
            }),
    {
        match url_path(location) {
            Some(p) => {
                proof {
                    reveal_strlit("item/");
                    reveal_strlit("");
                    assert(""@ =~= Seq::<char>::empty());
                }
                let trimmed = trim_char_str(p.as_str(), '/');
                let id = replace_all(trimmed.as_str(), "item/", "");
                if id.unicode_len() > 0 {
                    Ok(id)
                } else {
                    Err(ParseError::InvalidShareUrl)
                }
            },
            None => Err(ParseError::InvalidShareUrl),
        }
    }

    /// The cell-comment endpoint for one video id.
    pub fn video_api_url(&self, video_id: &str) -> (r: String)
        ensures
            r@
                == "https://api.pipix.com/bds/cell/cell_comment/?offset=0&cell_type=1&api_version=1&cell_id="@
                + video_id@ + "&ac=wifi&channel=huawei_1319_64&aid=1319&app_name=super"@,
    {
        let mut u = String::from_str(
            "https://api.pipix.com/bds/cell/cell_comment/?offset=0&cell_type=1&api_version=1&cell_id=",
        );
        u.append(video_id);
        u.append("&ac=wifi&channel=huawei_1319_64&aid=1319&app_name=super");
        u
    }

    /// The gallery entries of a note: each multi-image record's first URL,
    /// where it is non-empty.
    pub open spec fn images_from(items: Seq<JsonValue>, i: int) -> Seq<
        (Seq<char>, Option<Seq<char>>),
    >
        decreases items.len() - i,
    {
        if !(0 <= i < items.len()) {
            Seq::empty()
        } else {
            let rest = Self::images_from(items, i + 1);
            match spec_str_at(items[i], "/url_list/0/url"@) {
                Some(u) => if u.len() > 0 {
                    seq![(u, None::<Seq<char>>)] + rest
                } else {
                    rest
                },
                None => rest,
            }
        }
    }

    /// The video rendition of the author's own comment, where one stands:
    /// the first comment by the post's author that carries a non-empty
    /// high-quality video URL.
    pub open spec fn comment_video_from(
        comments: Seq<JsonValue>,
        author_id: Seq<char>,
        i: int,
    ) -> Option<Seq<char>>
        decreases comments.len() - i,
    {
        if !(0 <= i < comments.len()) {
            None
        } else {
            let is_author = spec_str_or_empty(comments[i], "/item/author/id"@) == author_id;
            let cv = spec_str_at(comments[i], "/item/video/video_high/url_list/0/url"@);
            if is_author && (cv matches Some(v) && v.len() > 0) {
                cv
            } else {
                Self::comment_video_from(comments, author_id, i + 1)
            }
        }
    }

    /// Normalizes the cell record: the post's own rendition, preferring the
    /// fuller one the author attached in the comments, or the gallery.
    #[verifier::loop_isolation(false)]
    pub fn extract_info(&self, root: &JsonValue) -> (r: Result<VideoParseInfo, ParseError>)
        ensures
            ({
                let d = spec_pointer(*root, "/data/cell_comments/0/comment_info/item"@);
                let playable = (match d {
                    Some(data) => {
                        let author_id = spec_str_or_empty(data, "/author/id"@);
                        let imgs = (match spec_pointer(data, "/note/multi_image"@) {
                            Some(JsonValue::Arr(items)) => Self::images_from(items@, 0),
                            _ => Seq::<(Seq<char>, Option<Seq<char>>)>::empty(),
                        });
                        let comment_video = (match spec_pointer(data, "/comments"@) {
                            Some(JsonValue::Arr(cs)) => Self::comment_video_from(cs@, author_id, 0),
                            _ => None::<Seq<char>>,
                        });
                        imgs.len() > 0 || comment_video is Some || spec_str_at(
                            data,
                            "/video/video_high/url_list/0/url"@,
                        ) is Some
                    },
                    None => false,
                });
                &&& (r is Ok <==> (d is Some && playable))
                &&& match r {
                    Ok(info) => d matches Some(data) && {
                        let author_id = spec_str_or_empty(data, "/author/id"@);
                        let imgs = (match spec_pointer(data, "/note/multi_image"@) {
                            Some(JsonValue::Arr(items)) => Self::images_from(items@, 0),
                            _ => Seq::<(Seq<char>, Option<Seq<char>>)>::empty(),
                        });
                        let comment_video = (match spec_pointer(data, "/comments"@) {
                            Some(JsonValue::Arr(cs)) => Self::comment_video_from(
                                cs@,
                                author_id,
                                0,
                            ),
                            _ => None::<Seq<char>>,
                        });
                        let base_video = spec_str_at(data, "/video/video_high/url_list/0/url"@);
                        &&& info.author.uid@ == author_id
                        &&& info.author.name@ == spec_str_or_empty(data, "/author/name"@)
                        &&& info.author.avatar@ == spec_str_or_empty(
                            data,
                            "/author/avatar/download_list/0/url"@,
                        )
                        &&& info.title@ == spec_str_or_empty(data, "/content"@)
                        &&& opt_str_view(info.cover_url) == spec_str_at(
                            data,
                            "/cover/url_list/0/url"@,
                        )
                        &&& img_views(info.images@) == imgs
                        &&& (imgs.len() == 0 ==> opt_str_view(info.video_url) == (match
                            comment_video {
                            Some(v) => Some(v),
                            None => base_video,
                        }))
                        &&& info.media_exclusive()
                        &&& info.has_media()
                    },
                    Err(e) => {
                        ||| (d is None && e == ParseError::MalformedUpstreamPayload)
                        ||| e == ParseError::NoMediaFound
                    },
                }
            }),
    {
        let data = match pointer(root, "/data/cell_comments/0/comment_info/item") {
            Some(d) => d,
            None => {
                return Err(ParseError::MalformedUpstreamPayload);
            },
        };
        let author_id = get_str_or_empty(data, "/author/id");
        let mut images: Vec<ImgInfo> = Vec::new();
        match pointer(data, "/note/multi_image") {
            Some(JsonValue::Arr(items)) => {
                let mut i: usize = 0;
                while i < items.len()
                    invariant
                        i <= items@.len(),
                        img_views(images@) + Self::images_from(items@, i as int)
                            == Self::images_from(items@, 0),
                    decreases items@.len() - i,
                {
                    let ghost pre = images@;
                    match get_str(&items[i], "/url_list/0/url") {
                        Some(u) => {
                            if u.unicode_len() > 0 {
                                images.push(ImgInfo { url: u, live_photo_url: None });
                                proof {
                                    assert(img_views(images@) =~= img_views(pre) + seq![
                                        (
                                            images@.last().url@,
                                            opt_str_view(images@.last().live_photo_url),
                                        ),
                                    ]);
                                }
                            }
                        },
                        None => {},
                    }
                    i += 1;
                }
            },
            _ => {},
        }
        let mut video = get_str(data, "/video/video_high/url_list/0/url");
        match pointer(data, "/comments") {
            Some(JsonValue::Arr(cs)) => {
                match Self::author_comment_video(cs, author_id.as_str()) {
                    Some(v) => {
                        video = Some(v);
                    },
                    None => {},
                }
            },
            _ => {},
        }
        let author = Author {
            uid: author_id,
            name: get_str_or_empty(data, "/author/name"),
            avatar: get_str_or_empty(data, "/author/avatar/download_list/0/url"),
        };
        let title = get_str_or_empty(data, "/content");
        let cover = get_str(data, "/cover/url_list/0/url");
        proof {
            assert(img_views(Seq::<ImgInfo>::empty()) =~= Seq::<
                (Seq<char>, Option<Seq<char>>),
            >::empty());
        }
        VideoParseInfo::assemble(author, title, video, None, cover, images)
    }

    fn author_comment_video(comments: &Vec<JsonValue>, author_id: &str) -> (r: Option<String>)
        ensures
            opt_str_view(r) == Self::comment_video_from(comments@, author_id@, 0),
    {
        let mut i: usize = 0;
        while i < comments.len()
            invariant
                i <= comments@.len(),
                Self::comment_video_from(comments@, author_id@, 0) == Self::comment_video_from(
                    comments@,
                    author_id@,
                    i as int,
                ),
            decreases comments@.len() - i,
        {
            let cid = get_str_or_empty(&comments[i], "/item/author/id");
            if str_eq(cid.as_str(), author_id) {
                match get_str(&comments[i], "/item/video/video_high/url_list/0/url") {
                    Some(v) => {
                        if v.unicode_len() > 0 {
                            return Some(v);
                        }
                    },
                    None => {},
                }
            }
            i += 1;
        }
        None
    }
}

} // verus!
