use vstd::prelude::*;

use crate::errors::ParseError;
use crate::json::{
    get_i64, get_str, get_str_or_empty, pointer, spec_int_at, spec_pointer, spec_str_at,
    spec_str_or_empty, JsonValue,
};
use crate::models::{img_views, opt_str_view, Author, ImgInfo, VideoParseInfo};
use crate::text::{all_digits, digits_val, i64_to_string, replace_all, spec_replace_all};

verus! {

/// Extraction strategy for kuaishou share links, whose rendered page embeds
/// its state in a `window.INIT_STATE` assignment.
pub struct KuaishouParser;

impl KuaishouParser {
    /// The page rewrite applied before re-fetching: a long-video path is
    /// read through the photo endpoint instead.
    pub fn normalize_final_url(&self, final_url: &str) -> (r: String)
        ensures
            r@ == spec_replace_all(final_url@, "/fw/long-video/"@, "/fw/photo/"@),
    {
        proof {
            reveal_strlit("/fw/long-video/");
        }
        replace_all(final_url, "/fw/long-video/", "/fw/photo/")
    }

    /// An init-state entry holds the work when it answers both `result`
    /// and `photo`.
    pub open spec fn entry_is_video(v: JsonValue) -> bool {
        spec_pointer(v, "/result"@) is Some && spec_pointer(v, "/photo"@) is Some
    }

    pub open spec fn find_video_from(entries: Seq<(String, JsonValue)>, i: int) -> Option<
        JsonValue,
    >
        decreases entries.len() - i,
    {
        if !(0 <= i < entries.len()) {
            None
        } else if Self::entry_is_video(entries[i].1) {
            Some(entries[i].1)
        } else {
            Self::find_video_from(entries, i + 1)
        }
    }

    /// The first init-state entry that carries the work record.
    #[verifier::loop_isolation(false)]
    pub fn find_video_data<'a>(&self, root: &'a JsonValue) -> (r: Result<&'a JsonValue, ParseError>)
        ensures
            ({
                let entries = (match *root {
                    JsonValue::Obj(es) => es@,
                    _ => Seq::<(String, JsonValue)>::empty(),
                });
                match r {
                    Ok(d) => Self::find_video_from(entries, 0) == Some(*d),
                    Err(e) => e == ParseError::MalformedUpstreamPayload && Self::find_video_from(
                        entries,
                        0,
                    ) is None,
                }
            }),
    {
        let entries = match root {
            JsonValue::Obj(es) => es,
            _ => {
                return Err(ParseError::MalformedUpstreamPayload);
            },
        };
        let mut i: usize = 0;
        while i < entries.len()
            invariant
                i <= entries@.len(),
                Self::find_video_from(entries@, 0) == Self::find_video_from(entries@, i as int),
            decreases entries@.len() - i,
        {
            let v = &entries[i].1;
            let has_result = match pointer(v, "/result") {
                Some(_) => true,
                None => false,
            };
            let has_photo = match pointer(v, "/photo") {
                Some(_) => true,
                None => false,
            };
            if has_result && has_photo {
                return Ok(v);
            }
            i += 1;
        }
        Err(ParseError::MalformedUpstreamPayload)
    }

    /// The platform's own `result` code: anything but 1 is a rejection.
    pub fn check_result(&self, data: &JsonValue) -> (r: Result<(), ParseError>)
        ensures
            ({
                let code = spec_int_at(*data, "/result"@);
                match r {
                    Ok(_) => code == Some(1int),
                    Err(e) => {
                        ||| (code is None && e == ParseError::MalformedUpstreamPayload)
                        ||| (code matches Some(c) && c != 1 && (e matches
                            ParseError::UpstreamBusinessError(m) && m@.subrange(
                            0,
                            "获取作品信息失败: result="@.len() as int,
                        ) == "获取作品信息失败: result="@))
                    },
                }
            }),
    {
        let code = match get_i64(data, "/result") {
            Some(c) => c,
            None => {
                return Err(ParseError::MalformedUpstreamPayload);
            },
        };
        if code != 1 {
            let mut msg = String::from_str("获取作品信息失败: result=");
            let ghost plen = msg@.len();
            msg.append(i64_to_string(code).as_str());
            proof {
                assert(msg@.subrange(0, plen as int) =~= "获取作品信息失败: result="@);
            }
            return Err(ParseError::UpstreamBusinessError(msg));
        }
        Ok(())
    }

    /// The gallery entries of an atlas: each listed path served from the
    /// atlas CDN host.
    pub open spec fn atlas_from(items: Seq<JsonValue>, cdn: Seq<char>, i: int) -> Seq<
        (Seq<char>, Option<Seq<char>>),
    >
        decreases items.len() - i,
    {
        if !(0 <= i < items.len()) {
            Seq::empty()
        } else {
            let rest = Self::atlas_from(items, cdn, i + 1);
            match items[i] {
                JsonValue::Str(p) => seq![
                    ("https://"@ + cdn + "/"@ + p@, None::<Seq<char>>),
                ] + rest,
                _ => rest,
            }
        }
    }

    pub open spec fn spec_atlas_images(photo: JsonValue) -> Seq<(Seq<char>, Option<Seq<char>>)> {
        match spec_str_at(photo, "/ext_params/atlas/cdn/0"@) {
            Some(cdn) => match spec_pointer(photo, "/ext_params/atlas/list"@) {
                Some(JsonValue::Arr(items)) => Self::atlas_from(items@, cdn, 0),
                _ => Seq::empty(),
            },
            None => Seq::empty(),
        }
    }

    /// Normalizes the work record into the canonical record: the single
    /// video rendition, or the atlas gallery where one is present.
    #[verifier::loop_isolation(false)]
    pub fn extract_video_info(&self, data: &JsonValue) -> (r: Result<VideoParseInfo, ParseError>)
        ensures
            ({
                let ph = spec_pointer(*data, "/photo"@);
                let playable = (match ph {
                    Some(photo) => Self::spec_atlas_images(photo).len() > 0 || spec_str_at(
                        photo,
                        "/mainMvUrls/0/url"@,
                    ) is Some,
                    None => false,
                });
                &&& (r is Ok <==> (ph is Some && playable))
                &&& match r {
                    Ok(info) => ph matches Some(photo) && {
                        &&& info.author.uid@.len() == 0
                        &&& info.author.name@ == spec_str_or_empty(photo, "/userName"@)
                        &&& info.author.avatar@ == spec_str_or_empty(photo, "/headUrl"@)
                        &&& info.title@ == spec_str_or_empty(photo, "/caption"@)
                        &&& img_views(info.images@) == Self::spec_atlas_images(photo)
                        &&& opt_str_view(info.cover_url) == spec_str_at(
                            photo,
                            "/coverUrls/0/url"@,
                        )
                        &&& (Self::spec_atlas_images(photo).len() == 0 ==> opt_str_view(
                            info.video_url,
                        ) == spec_str_at(photo, "/mainMvUrls/0/url"@))
                        &&& info.media_exclusive()
                        &&& info.has_media()
                    },
                    Err(e) => {
                        ||| (ph is None && e == ParseError::MalformedUpstreamPayload)
                        ||| e == ParseError::NoMediaFound
                    },
                }
            }),
    {
        let photo = match pointer(data, "/photo") {
            Some(p) => p,
            None => {
                return Err(ParseError::MalformedUpstreamPayload);
            },
        };
        let author = Author {
            uid: String::new(),
            name: get_str_or_empty(photo, "/userName"),
            avatar: get_str_or_empty(photo, "/headUrl"),
        };
        let title = get_str_or_empty(photo, "/caption");
        let video = get_str(photo, "/mainMvUrls/0/url");
        let cover = get_str(photo, "/coverUrls/0/url");
        let mut images: Vec<ImgInfo> = Vec::new();
        match get_str(photo, "/ext_params/atlas/cdn/0") {
            Some(cdn) => {
                match pointer(photo, "/ext_params/atlas/list") {
                    Some(JsonValue::Arr(items)) => {
                        let mut i: usize = 0;
                        while i < items.len()
                            invariant
                                i <= items@.len(),
                                img_views(images@) + Self::atlas_from(items@, cdn@, i as int)
                                    == Self::atlas_from(items@, cdn@, 0),
                            decreases items@.len() - i,
                        {
                            let ghost pre = images@;
                            match &items[i] {
                                JsonValue::Str(p) => {
                                    let mut u = String::from_str("https://");
                                    u.append(cdn.as_str());
                                    u.append("/");
                                    u.append(p.as_str());
                                    images.push(ImgInfo { url: u, live_photo_url: None });
                                    proof {
                                        assert(img_views(images@) =~= img_views(pre) + seq![
                                            (
                                                images@.last().url@,
                                                opt_str_view(images@.last().live_photo_url),
                                            ),
                                        ]);
                                    }
                                },
                                _ => {},
                            }
                            i += 1;
                        }
                    },
                    _ => {},
                }
            },
            None => {},
        }
        proof {
            assert(img_views(Seq::<ImgInfo>::empty()) =~= Seq::<
                (Seq<char>, Option<Seq<char>>),
            >::empty());
        }
        VideoParseInfo::assemble(author, title, video, None, cover, images)
    }
}

} // verus!
