use vstd::prelude::*;

use crate::errors::ParseError;
use crate::json::{extract_embedded_json, get_str, get_str_or_empty, spec_embedded, spec_str_at, spec_str_or_empty};
use crate::models::{opt_str_view, Author, VideoParseInfo};

verus! {

/// Extraction strategy for acfun share links, whose rendered page embeds
/// two script assignments: the video description and the play info.
pub struct AcfunParser;

impl AcfunParser {
    /// The rendered page for one video id (an `ac...` form id).
    pub fn video_page_url(&self, video_id: &str) -> (r: String)
        ensures
            r@ == "https://www.acfun.cn/v/"@ + video_id@,
    {
        let mut u = String::from_str("https://www.acfun.cn/v/");
        u.append(video_id);
        u
    }

    /// Normalizes the rendered page: the description document gives title
    /// and cover, the play document the m3u8 rendition; either document
    /// may be missing without failing the other.
    pub fn extract_from_html(&self, html: &str) -> (r: Result<VideoParseInfo, ParseError>)
        ensures
            ({
                let vi = spec_embedded(html@, "var videoInfo"@, ";"@);
                let pi = spec_embedded(html@, "var playInfo"@, ";"@);
                let video = (match pi {
                    Some(p) => spec_str_at(p, "/streams/0/playUrls/0"@),
                    None => None::<Seq<char>>,
                });
                &&& (r is Ok <==> video is Some)
                &&& (r matches Ok(info) ==> {
                    &&& info.title@ == (match vi {
                        Some(v) => spec_str_or_empty(v, "/title"@),
                        None => Seq::<char>::empty(),
                    })
                    &&& opt_str_view(info.cover_url) == (match vi {
                        Some(v) => spec_str_at(v, "/cover"@),
                        None => None::<Seq<char>>,
                    })
                    &&& opt_str_view(info.video_url) == video
                    &&& info.author.is_blank()
                    &&& info.images@.len() == 0
                    &&& info.media_exclusive()
                    &&& info.has_media()
                })
                &&& (r matches Err(e) ==> e == ParseError::NoMediaFound)
            }),
    {
        let (title, cover) = match extract_embedded_json(html, "var videoInfo", ";") {
            Ok(v) => (get_str_or_empty(&v, "/title"), get_str(&v, "/cover")),
            Err(_) => (String::new(), None),
        };
        let video = match extract_embedded_json(html, "var playInfo", ";") {
            Ok(p) => get_str(&p, "/streams/0/playUrls/0"),
            Err(_) => None,
        };
        VideoParseInfo::assemble(Author::default(), title, video, None, cover, Vec::new())
    }
}

} // verus!
