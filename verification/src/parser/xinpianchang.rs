use vstd::prelude::*;

use crate::errors::ParseError;
use crate::htmlq::{select_first_text, selected_text_of};
use crate::json::{
    get_str, get_str_or_empty, json_of, parse_json, pointer, spec_pointer, spec_str_at,
    spec_str_or_empty, JsonValue,
};
use crate::models::{opt_str_view, Author, VideoParseInfo};

verus! {

/// Extraction strategy for xinpianchang share links, whose rendered page
/// carries its state as the text of a next-data script element.
pub struct XinpianchangParser;

impl XinpianchangParser {
    /// Normalizes the rendered page: the next-data document's detail
    /// record gives every field.
    pub fn extract_from_html(&self, html: &str) -> (r: Result<VideoParseInfo, ParseError>)
        ensures
            ({
                match selected_text_of(html@, "#__NEXT_DATA__"@) {
                    Some(txt) => match json_of(txt) {
                        Some(root) => match spec_pointer(root, "/props/pageProps/detail"@) {
                            Some(d) => {
                                &&& (r is Ok <==> spec_str_at(
                                    d,
                                    "/video/content/progressive/0/url"@,
                                ) is Some)
                                &&& match r {
                                Ok(info) => {
                                    &&& info.title@ == spec_str_or_empty(d, "/title"@)
                                    &&& opt_str_view(info.video_url) == spec_str_at(
                                        d,
                                        "/video/content/progressive/0/url"@,
                                    )
                                    &&& opt_str_view(info.cover_url) == spec_str_at(d, "/cover"@)
                                    &&& info.author.name@ == spec_str_or_empty(
                                        d,
                                        "/author/userinfo/username"@,
                                    )
                                    &&& info.author.avatar@ == spec_str_or_empty(
                                        d,
                                        "/author/userinfo/avatar"@,
                                    )
                                    &&& info.author.uid@.len() == 0
                                    &&& info.images@.len() == 0
                                    &&& info.media_exclusive()
                                    &&& info.has_media()
                                },
                                Err(e) => e == ParseError::NoMediaFound,
                            }
                            },
                            None => r matches Err(e) && e
                                == ParseError::MalformedUpstreamPayload,
                        },
                        None => r matches Err(e) && e == ParseError::MalformedEmbeddedJson,
                    },
                    None => r matches Err(e) && e == ParseError::EmbeddedDataNotFound,
                }
            }),
    {
        let txt = match select_first_text(html, "#__NEXT_DATA__") {
            Some(t) => t,
            None => {
                return Err(ParseError::EmbeddedDataNotFound);
            },
        };
        let root = match parse_json(txt.as_str()) {
            Some(v) => v,
            None => {
                return Err(ParseError::MalformedEmbeddedJson);
            },
        };
        let d = match pointer(&root, "/props/pageProps/detail") {
            Some(d) => d,
            None => {
                return Err(ParseError::MalformedUpstreamPayload);
            },
        };
        let author = Author {
            uid: String::new(),
            name: get_str_or_empty(d, "/author/userinfo/username"),
            avatar: get_str_or_empty(d, "/author/userinfo/avatar"),
        };
        let title = get_str_or_empty(d, "/title");
        let video = get_str(d, "/video/content/progressive/0/url");
        let cover = get_str(d, "/cover");
        VideoParseInfo::assemble(author, title, video, None, cover, Vec::new())
    }
}

} // verus!
