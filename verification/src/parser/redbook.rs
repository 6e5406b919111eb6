use vstd::prelude::*;

use crate::errors::ParseError;
use crate::json::{
    get_bool, get_str, get_str_or_empty, json_of, parse_json, pointer, spec_bool_at, spec_pointer,
    spec_str_at, spec_str_or_empty, JsonValue,
};
use crate::models::{img_views, opt_str_view, Author, ImgInfo, VideoParseInfo};
use crate::text::{
    contains_substr, find_from, find_substr_from, has_sub, lemma_find_from_some, skip_char_idx,
};
use crate::utils::{
    extract_json_from_html, sanitize_undefined, spec_extract_between, spec_sanitize_undefined,
};

verus! {

/// Extraction strategy for redbook share links, whose rendered page embeds
/// its state in a `window.__INITIAL_STATE__` assignment that may begin
/// with a byte-order mark and may carry bare `undefined` tokens.
pub struct RedbookParser;

impl RedbookParser {
    /// The text with its leading byte-order marks removed.
    pub open spec fn spec_strip_bom(t: Seq<char>) -> Seq<char> {
        t.subrange(skip_char_idx(t, '\u{feff}', 0), t.len() as int)
    }

    fn strip_bom(t: &str) -> (r: String)
        ensures
            r@ == Self::spec_strip_bom(t@),
    {
        let n = t.unicode_len();
        let mut a: usize = 0;
        while a < n && t.get_char(a) == '\u{feff}'
            invariant
                a <= n,
                n == t@.len(),
                skip_char_idx(t@, '\u{feff}', 0) == skip_char_idx(t@, '\u{feff}', a as int),
            decreases n - a,
        {
            a += 1;
        }
        String::from_str(t.substring_char(a, n))
    }

    /// The embedded initial-state document of a rendered note page.
    pub fn parse_initial_state(&self, html: &str) -> (r: Result<JsonValue, ParseError>)
        ensures
            ({
                let sliced = spec_extract_between(
                    html@,
                    "window.__INITIAL_STATE__"@,
                    "</script>"@,
                );
                match r {
                    Ok(v) => sliced matches Some(s) && json_of(
                        spec_sanitize_undefined(Self::spec_strip_bom(s)),
                    ) == Some(v),
                    Err(e) => {
                        ||| (e == ParseError::EmbeddedDataNotFound && sliced is None)
                        ||| (e == ParseError::MalformedEmbeddedJson && (sliced matches Some(s)
                            && json_of(spec_sanitize_undefined(Self::spec_strip_bom(s))) is None))
                    },
                }
            }),
    {
        let raw = match extract_json_from_html(html, "window.__INITIAL_STATE__", "</script>") {
            Ok(raw) => raw,
            Err(e) => {
                return Err(e);
            },
        };
        let unbommed = Self::strip_bom(raw.as_str());
        let clean = sanitize_undefined(unbommed.as_str());
        match parse_json(clean.as_str()) {
            Some(v) => Ok(v),
            None => Err(ParseError::MalformedEmbeddedJson),
        }
    }

    /// The note record the state names as current.
    pub fn note_of<'a>(&self, root: &'a JsonValue) -> (r: Result<&'a JsonValue, ParseError>)
        ensures
            ({
                match spec_str_at(*root, "/note/currentNoteId"@) {
                    Some(id) => match r {
                        Ok(n) => spec_pointer(
                            *root,
                            "/note/noteDetailMap/"@ + id + "/note"@,
                        ) == Some(*n),
                        Err(e) => e == ParseError::MalformedUpstreamPayload && spec_pointer(
                            *root,
                            "/note/noteDetailMap/"@ + id + "/note"@,
                        ) is None,
                    },
                    None => r matches Err(e) && e == ParseError::MalformedUpstreamPayload,
                }
            }),
    {
        let note_id = match get_str(root, "/note/currentNoteId") {
            Some(id) => id,
            None => {
                return Err(ParseError::MalformedUpstreamPayload);
            },
        };
        let mut path = String::from_str("/note/noteDetailMap/");
        path.append(note_id.as_str());
        path.append("/note");
        match pointer(root, path.as_str()) {
            Some(n) => Ok(n),
            None => Err(ParseError::MalformedUpstreamPayload),
        }
    }

    /// Index just before the last `/` of the text, scanning from `i` down;
    /// `-1` where none stands.
    pub open spec fn rfind_slash(t: Seq<char>, i: int) -> int
        decreases i,
    {
        if i <= 0 || i > t.len() {
            -1
        } else if t[i - 1] == '/' {
            i - 1
        } else {
            Self::rfind_slash(t, i - 1)
        }
    }

    /// The canonical jpg rendition of a gallery still: where the URL names
    /// an image id (between its last `/` and a `!`) under the pre-post
    /// store, it is rebuilt against the image CDN; any other URL stands as
    /// it is.
    pub open spec fn spec_process_image_url(u: Seq<char>) -> Seq<char> {
        let sl = Self::rfind_slash(u, u.len() as int);
        if sl >= 0 {
            match find_from(u, "!"@, sl + 1) {
                Some(ex) => {
                    let img_id = u.subrange(sl + 1, ex);
                    if has_sub(u, "notes_pre_post"@) {
                        "https://ci.xiaohongshu.com/notes_pre_post/"@ + (if has_sub(
                            u,
                            "spectrum"@,
                        ) {
                            "spectrum/"@
                        } else {
                            Seq::<char>::empty()
                        }) + img_id + "?imageView2/format/jpg"@
                    } else {
                        u
                    }
                },
                None => u,
            }
        } else {
            u
        }
    }

    #[verifier::loop_isolation(false)]
    pub fn process_image_url(&self, url: &str) -> (r: String)
        ensures
            r@ == Self::spec_process_image_url(url@),
    {
        let n = url.unicode_len();
        let mut j: usize = n;
        while j > 0 && url.get_char(j - 1) != '/'
            invariant
                j <= n,
                Self::rfind_slash(url@, n as int) == Self::rfind_slash(url@, j as int),
            decreases j,
        {
            j -= 1;
        }
        if j == 0 {
            return String::from_str(url);
        }
        let sl = j - 1;
        let ex = match find_substr_from(url, "!", sl + 1) {
            Some(ex) => ex,
            None => {
                return String::from_str(url);
            },
        };
        proof {
            lemma_find_from_some(url@, "!"@, sl + 1);
        }
        if contains_substr(url, "notes_pre_post") {
            let mut out = String::from_str("https://ci.xiaohongshu.com/notes_pre_post/");
            if contains_substr(url, "spectrum") {
                out.append("spectrum/");
            }
            out.append(url.substring_char(sl + 1, ex));
            out.append("?imageView2/format/jpg");
            proof {
                if !has_sub(url@, "spectrum"@) {
                    assert("https://ci.xiaohongshu.com/notes_pre_post/"@ + Seq::<char>::empty()
                        =~= "https://ci.xiaohongshu.com/notes_pre_post/"@);
                }
            }
            out
        } else {
            String::from_str(url)
        }
    }

    /// The gallery entries of a note: each still's default rendition,
    /// canonicalized, paired with its motion clip where the still is a
    /// live photo.
    pub open spec fn images_from(items: Seq<JsonValue>, i: int) -> Seq<
        (Seq<char>, Option<Seq<char>>),
    >
        decreases items.len() - i,
    {
        if !(0 <= i < items.len()) {
            Seq::empty()
        } else {
            let rest = Self::images_from(items, i + 1);
            match spec_str_at(items[i], "/urlDefault"@) {
                Some(u) => if u.len() > 0 {
                    seq![
                        (
                            Self::spec_process_image_url(u),
                            if spec_bool_at(items[i], "/livePhoto"@) == Some(true) {
                                spec_str_at(items[i], "/stream/h264/0/masterUrl"@)
                            } else {
                                None::<Seq<char>>
                            },
                        ),
                    ] + rest
                } else {
                    rest
                },
                None => rest,
            }
        }
    }

    /// Normalizes one note record: a video note carries its master
    /// rendition, an album note its gallery.
    #[verifier::loop_isolation(false)]
    pub fn extract_video_info(&self, note: &JsonValue) -> (r: Result<VideoParseInfo, ParseError>)
        ensures
            ({
                let video = spec_str_at(*note, "/video/media/stream/h264/0/masterUrl"@);
                let imgs = (if video is None {
                    match spec_pointer(*note, "/imageList"@) {
                        Some(JsonValue::Arr(items)) => Self::images_from(items@, 0),
                        _ => Seq::<(Seq<char>, Option<Seq<char>>)>::empty(),
                    }
                } else {
                    Seq::<(Seq<char>, Option<Seq<char>>)>::empty()
                });
                &&& (r is Ok <==> (video is Some || imgs.len() > 0))
                &&& (r matches Ok(info) ==> {
                    &&& info.author.uid@ == spec_str_or_empty(*note, "/user/userId"@)
                    &&& info.author.name@ == spec_str_or_empty(*note, "/user/nickname"@)
                    &&& info.author.avatar@ == spec_str_or_empty(*note, "/user/avatar"@)
                    &&& info.title@ == spec_str_or_empty(*note, "/title"@)
                    &&& opt_str_view(info.cover_url) == spec_str_at(
                        *note,
                        "/imageList/0/urlDefault"@,
                    )
                    &&& img_views(info.images@) == imgs
                    &&& (imgs.len() == 0 ==> opt_str_view(info.video_url) == video)
                    &&& info.media_exclusive()
                    &&& info.has_media()
                })
                &&& (r matches Err(e) ==> e == ParseError::NoMediaFound)
            }),
    {
        let author = Author {
            uid: get_str_or_empty(note, "/user/userId"),
            name: get_str_or_empty(note, "/user/nickname"),
            avatar: get_str_or_empty(note, "/user/avatar"),
        };
        let title = get_str_or_empty(note, "/title");
        let video = get_str(note, "/video/media/stream/h264/0/masterUrl");
        let cover = get_str(note, "/imageList/0/urlDefault");
        let mut images: Vec<ImgInfo> = Vec::new();
        if video.is_none() {
            match pointer(note, "/imageList") {
                Some(JsonValue::Arr(items)) => {
                    let mut i: usize = 0;
                    while i < items.len()
                        invariant
                            i <= items@.len(),
                            img_views(images@) + Self::images_from(items@, i as int)
                                == Self::images_from(items@, 0),
                        decreases items@.len() - i,
                    {
                        let ghost pre = images@;
                        match get_str(&items[i], "/urlDefault") {
                            Some(u) => {
                                if u.unicode_len() > 0 {
                                    let live = match get_bool(&items[i], "/livePhoto") {
                                        Some(true) => get_str(
                                            &items[i],
                                            "/stream/h264/0/masterUrl",
                                        ),
                                        _ => None,
                                    };
                                    images.push(
                                        ImgInfo {
                                            url: self.process_image_url(u.as_str()),
                                            live_photo_url: live,
                                        },
                                    );
                                    proof {
                                        assert(img_views(images@) =~= img_views(pre) + seq![
                                            (
                                                images@.last().url@,
                                                opt_str_view(images@.last().live_photo_url),
                                            ),
                                        ]);
                                    }
                                }
                            },
                            None => {},
                        }
                        i += 1;
                    }
                },
                _ => {},
            }
        }
        proof {
            assert(img_views(Seq::<ImgInfo>::empty()) =~= Seq::<
                (Seq<char>, Option<Seq<char>>),
            >::empty());
        }
        VideoParseInfo::assemble(author, title, video, None, cover, images)
    }
}

} // verus!
