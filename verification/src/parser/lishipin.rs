use vstd::prelude::*;

use crate::errors::ParseError;
use crate::json::{
    get_str, pointer, spec_pointer, spec_str_at, spec_str_or_empty, get_str_or_empty, JsonValue,
};
use crate::models::{opt_str_view, Author, VideoParseInfo};
use crate::text::{replace_all, spec_replace_all};
use crate::weburl::{url_path, url_path_of};

verus! {

/// Extraction strategy for lishipin (pearvideo) share links.
pub struct LishipinParser;

impl LishipinParser {
    /// The content id of a share URL: its path with the detail prefix
    /// stripped; empty means the link carries no id.
    pub fn share_url_video_id(&self, share_url: &str) -> (r: Result<String, ParseError>)
        ensures
            ({
                match url_path_of(share_url@) {
                    Some(p) => {
                        let id = spec_replace_all(p, "/detail_"@, Seq::<char>::empty());
                        match r {
                            Ok(got) => got@ == id && id.len() > 0,
                            Err(e) => e == ParseError::InvalidShareUrl && id.len() == 0,
                        }
                    },
                    None => r matches Err(e) && e == ParseError::InvalidShareUrl,
                }
            }),
    {
        match url_path(share_url) {
            Some(p) => {
                proof {
                    reveal_strlit("/detail_");
                    reveal_strlit("");
                    assert(""@ =~= Seq::<char>::empty());
                }
                let id = replace_all(p.as_str(), "/detail_", "");
                if id.unicode_len() > 0 {
                    Ok(id)
                } else {
                    Err(ParseError::InvalidShareUrl)
                }
            },
            None => Err(ParseError::InvalidShareUrl),
        }
    }

    /// The video-status endpoint for one content id, with the cache-buster
    /// the caller drew from the clock.
    pub fn video_api_url(&self, video_id: &str, cache_buster: &str) -> (r: String)
        ensures
            r@ == "https://www.pearvideo.com/videoStatus.jsp?contId="@ + video_id@ + "&mrd="@
                + cache_buster@,
    {
        let mut u = String::from_str("https://www.pearvideo.com/videoStatus.jsp?contId=");
        u.append(video_id);
        u.append("&mrd=");
        u.append(cache_buster);
        u
    }

    /// The referer the endpoint expects.
    pub fn video_referer(&self, video_id: &str) -> (r: String)
        ensures
            r@ == "https://www.pearvideo.com/detail_"@ + video_id@,
    {
        let mut u = String::from_str("https://www.pearvideo.com/detail_");
        u.append(video_id);
        u
    }

    /// Normalizes the video-status answer: the source URL embeds the
    /// response timestamp, which is swapped for the content marker to
    /// obtain the playable rendition.
    pub fn extract_info(&self, root: &JsonValue, video_id: &str) -> (r: Result<
        VideoParseInfo,
        ParseError,
    >)
        ensures
            ({
                let vi = spec_pointer(*root, "/videoInfo"@);
                let src = spec_str_at(*root, "/videoInfo/videos/srcUrl"@);
                let st = spec_str_or_empty(*root, "/systemTime"@);
                match r {
                    Ok(info) => vi is Some && (src matches Some(s) && {
                        &&& opt_str_view(info.video_url) == Some(
                            if st.len() > 0 {
                                spec_replace_all(s, st, "cont-"@ + video_id@)
                            } else {
                                s
                            },
                        )
                        &&& opt_str_view(info.cover_url) == spec_str_at(
                            *root,
                            "/videoInfo/video_image"@,
                        )
                        &&& info.title@.len() == 0
                        &&& info.author.is_blank()
                        &&& info.images@.len() == 0
                        &&& info.media_exclusive()
                        &&& info.has_media()
                    }),
                    Err(e) => e == ParseError::MalformedUpstreamPayload && (vi is None || src
                        is None),
                }
            }),
    {
        if pointer(root, "/videoInfo").is_none() {
            return Err(ParseError::MalformedUpstreamPayload);
        }
        let src = match get_str(root, "/videoInfo/videos/srcUrl") {
            Some(s) => s,
            None => {
                return Err(ParseError::MalformedUpstreamPayload);
            },
        };
        let st = get_str_or_empty(root, "/systemTime");
        let video = if st.unicode_len() > 0 {
            let mut marker = String::from_str("cont-");
            marker.append(video_id);
            replace_all(src.as_str(), st.as_str(), marker.as_str())
        } else {
            src
        };
        let cover = get_str(root, "/videoInfo/video_image");
        VideoParseInfo::assemble(
            Author::default(),
            String::new(),
            Some(video),
            None,
            cover,
            Vec::new(),
        )
    }
}

} // verus!
