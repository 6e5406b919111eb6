use vstd::prelude::*;

use crate::errors::ParseError;
use crate::htmlq::{select_first_attr, select_first_text, selected_attr_of, selected_text_of};
use crate::models::{opt_str_view, Author, VideoParseInfo};
use crate::text::{find_from, find_substr, find_substr_from, lemma_find_from_some, spec_trim, trim_str};

verus! {

/// Extraction strategy for lvzhou share links: the rendered page is read
/// by its markup, not by an embedded document.
pub struct LvzhouParser;

impl LvzhouParser {
    /// The share page for one video id.
    pub fn share_url_of_id(&self, video_id: &str) -> (r: String)
        ensures
            r@ == "https://m.oasis.weibo.cn/v1/h5/share?sid="@ + video_id@,
    {
        let mut u = String::from_str("https://m.oasis.weibo.cn/v1/h5/share?sid=");
        u.append(video_id);
        u
    }

    /// The cover URL inside a style attribute's background-image clause.
    pub open spec fn spec_style_cover(style: Seq<char>) -> Option<Seq<char>> {
        match find_from(style, "background-image:url("@, 0) {
            Some(a) => {
                let s = a + "background-image:url("@.len();
                match find_from(style, ")"@, s) {
                    Some(c) => Some(style.subrange(s, c)),
                    None => None,
                }
            },
            None => None,
        }
    }

    fn style_cover(style: &str) -> (r: Option<String>)
        ensures
            opt_str_view(r) == Self::spec_style_cover(style@),
    {
        let a = match find_substr(style, "background-image:url(") {
            Some(a) => a,
            None => {
                return None;
            },
        };
        let style_len = style.unicode_len();
        proof {
            reveal_strlit("background-image:url(");
            lemma_find_from_some(style@, "background-image:url("@, 0);
        }
        let s = a + "background-image:url(".unicode_len();
        proof {
            assert(s <= style_len);
        }
        let c = match find_substr_from(style, ")", s) {
            Some(c) => c,
            None => {
                return None;
            },
        };
        proof {
            lemma_find_from_some(style@, ")"@, s as int);
        }
        Some(String::from_str(style.substring_char(s, c)))
    }

    /// Normalizes the rendered page: the video element's source, the
    /// author's avatar and nickname, the cover of the player, and the
    /// status title.
    pub fn parse_html(&self, html: &str) -> (r: Result<VideoParseInfo, ParseError>)
        ensures
            ({
                let video = selected_attr_of(html@, "video"@, "src"@);
                let avatar = selected_attr_of(html@, "a.avatar img"@, "src"@);
                let cover = (match selected_attr_of(html@, "div.video-cover"@, "style"@) {
                    Some(st) => Self::spec_style_cover(st),
                    None => None::<Seq<char>>,
                });
                let title = (match selected_text_of(html@, "div.status-title"@) {
                    Some(t) => spec_trim(t),
                    None => Seq::<char>::empty(),
                });
                let name = (match selected_text_of(html@, "div.nickname"@) {
                    Some(t) => spec_trim(t),
                    None => Seq::<char>::empty(),
                });
                &&& (r is Ok <==> video is Some)
                &&& (r matches Ok(info) ==> {
                    &&& opt_str_view(info.video_url) == video
                    &&& info.author.avatar@ == (match avatar {
                        Some(a) => a,
                        None => Seq::<char>::empty(),
                    })
                    &&& opt_str_view(info.cover_url) == cover
                    &&& info.title@ == title
                    &&& info.author.name@ == name
                    &&& info.author.uid@.len() == 0
                    &&& info.images@.len() == 0
                    &&& info.media_exclusive()
                    &&& info.has_media()
                })
                &&& (r matches Err(e) ==> e == ParseError::NoMediaFound)
            }),
    {
        let video = select_first_attr(html, "video", "src");
        let avatar = match select_first_attr(html, "a.avatar img", "src") {
            Some(a) => a,
            None => String::new(),
        };
        let cover = match select_first_attr(html, "div.video-cover", "style") {
            Some(st) => Self::style_cover(st.as_str()),
            None => None,
        };
        let title = match select_first_text(html, "div.status-title") {
            Some(t) => trim_str(t.as_str()),
            None => String::new(),
        };
        let name = match select_first_text(html, "div.nickname") {
            Some(t) => trim_str(t.as_str()),
            None => String::new(),
        };
        let author = Author { uid: String::new(), name, avatar };
        VideoParseInfo::assemble(author, title, video, None, cover, Vec::new())
    }
}

} // verus!
