use vstd::prelude::*;

use crate::errors::ParseError;
use crate::json::{
    get_str, get_str_or_empty, pointer, spec_pointer, spec_str_at, spec_str_or_empty, JsonValue,
};
use crate::models::{opt_str_view, Author, VideoParseInfo};
use crate::text::{
    contains_substr, has_sub, replace_all, spec_replace_all, spec_trim_char, trim_char_str,
};
use crate::weburl::{url_path, url_path_of};

verus! {

/// Extraction strategy for xigua share links.
pub struct XiguaParser;

impl XiguaParser {
    /// The video id a share URL carries in its path, once the video prefix
    /// is stripped; empty means the link carries no id.
    pub fn share_url_video_id(&self, share_url: &str) -> (r: Result<String, ParseError>)
        ensures
            ({
                match url_path_of(share_url@) {
                    Some(p) => {
                        let id = spec_replace_all(
                            spec_trim_char(p, '/'),
                            "video/"@,
                            Seq::<char>::empty(),
                        );
                        match r {
                            Ok(got) => got@ == id && id.len() > 0,
                            Err(e) => e == ParseError::InvalidShareUrl && id.len() == 0,
                        }
                    },
                    None => r matches Err(e) && e == ParseError::InvalidShareUrl,
                }
            }),
    {
        match url_path(share_url) {
            Some(p) => {
                proof {
                    reveal_strlit("video/");
                    reveal_strlit("");
                    assert(""@ =~= Seq::<char>::empty());
                }
                let trimmed = trim_char_str(p.as_str(), '/');
                let id = replace_all(trimmed.as_str(), "video/", "");
                if id.unicode_len() > 0 {
                    Ok(id)
                } else {
                    Err(ParseError::InvalidShareUrl)
                }
            },
            None => Err(ParseError::InvalidShareUrl),
        }
    }

    /// The share page for one video id.
    pub fn video_page_url(&self, video_id: &str) -> (r: String)
        ensures
            r@ == "https://m.ixigua.com/douyin/share/video/"@ + video_id@
                + "?aweme_type=107&schema_type=1&utm_source=copy&utm_campaign=client_share&utm_medium=android&app=aweme"@,
    {
        let mut u = String::from_str("https://m.ixigua.com/douyin/share/video/");
        u.append(video_id);
        u.append(
            "?aweme_type=107&schema_type=1&utm_source=copy&utm_campaign=client_share&utm_medium=android&app=aweme",
        );
        u
    }

    /// A router-data entry holds the record when its key names the video.
    pub open spec fn entry_matches(key: Seq<char>, v: JsonValue, video_id: Seq<char>) -> bool {
        (has_sub(key, "video"@) || has_sub(key, video_id)) && spec_pointer(
            v,
            "/videoInfoRes/item_list/0"@,
        ) is Some
    }

    pub open spec fn find_item_from(
        entries: Seq<(String, JsonValue)>,
        video_id: Seq<char>,
        i: int,
    ) -> Option<JsonValue>
        decreases entries.len() - i,
    {
        if !(0 <= i < entries.len()) {
            None
        } else if Self::entry_matches(entries[i].0@, entries[i].1, video_id) {
            spec_pointer(entries[i].1, "/videoInfoRes/item_list/0"@)
        } else {
            Self::find_item_from(entries, video_id, i + 1)
        }
    }

    /// Walks the router data of the rendered share page for the record of
    /// this video.
    #[verifier::loop_isolation(false)]
    pub fn find_video_data<'a>(&self, root: &'a JsonValue, video_id: &str) -> (r: Result<
        &'a JsonValue,
        ParseError,
    >)
        ensures
            ({
                let entries = (match spec_pointer(*root, "/loaderData"@) {
                    Some(JsonValue::Obj(es)) => es@,
                    _ => Seq::<(String, JsonValue)>::empty(),
                });
                match r {
                    Ok(item) => Self::find_item_from(entries, video_id@, 0) == Some(*item),
                    Err(e) => e == ParseError::MalformedUpstreamPayload && Self::find_item_from(
                        entries,
                        video_id@,
                        0,
                    ) is None,
                }
            }),
    {
        let entries = match crate::json::get_obj(root, "/loaderData") {
            Some(es) => es,
            None => {
                return Err(ParseError::MalformedUpstreamPayload);
            },
        };
        let mut i: usize = 0;
        while i < entries.len()
            invariant
                i <= entries@.len(),
                Self::find_item_from(entries@, video_id@, 0) == Self::find_item_from(
                    entries@,
                    video_id@,
                    i as int,
                ),
            decreases entries@.len() - i,
        {
            let key_hit = contains_substr(entries[i].0.as_str(), "video") || contains_substr(
                entries[i].0.as_str(),
                video_id,
            );
            if key_hit {
                if let Some(item) = pointer(&entries[i].1, "/videoInfoRes/item_list/0") {
                    return Ok(item);
                }
            }
            i += 1;
        }
        Err(ParseError::MalformedUpstreamPayload)
    }

    /// Normalizes the record into the canonical result.
    pub fn extract_video_info(&self, data: &JsonValue) -> (r: Result<VideoParseInfo, ParseError>)
        ensures
            ({
                &&& (r is Ok <==> spec_str_at(*data, "/video/play_addr/url_list/0"@) is Some)
                &&& match r {
                    Ok(info) => {
                        &&& info.author.uid@ == spec_str_or_empty(*data, "/author/user_id"@)
                        &&& info.author.name@ == spec_str_or_empty(*data, "/author/nickname"@)
                        &&& info.author.avatar@ == spec_str_or_empty(
                            *data,
                            "/author/avatar_thumb/url_list/0"@,
                        )
                        &&& info.title@ == spec_str_or_empty(*data, "/desc"@)
                        &&& opt_str_view(info.video_url) == spec_str_at(
                            *data,
                            "/video/play_addr/url_list/0"@,
                        )
                        &&& opt_str_view(info.cover_url) == spec_str_at(
                            *data,
                            "/video/cover/url_list/0"@,
                        )
                        &&& info.images@.len() == 0
                        &&& info.media_exclusive()
                        &&& info.has_media()
                    },
                    Err(e) => e == ParseError::NoMediaFound,
                }
            }),
    {
        let author = Author {
            uid: get_str_or_empty(data, "/author/user_id"),
            name: get_str_or_empty(data, "/author/nickname"),
            avatar: get_str_or_empty(data, "/author/avatar_thumb/url_list/0"),
        };
        let title = get_str_or_empty(data, "/desc");
        let video = get_str(data, "/video/play_addr/url_list/0");
        let cover = get_str(data, "/video/cover/url_list/0");
        VideoParseInfo::assemble(author, title, video, None, cover, Vec::new())
    }
}

} // verus!
