use vstd::prelude::*;

use crate::errors::ParseError;
use crate::json::{
    get_str, get_str_or_empty, pointer, spec_pointer, spec_str_at, spec_str_or_empty, JsonValue,
};
use crate::models::{opt_str_view, Author, VideoParseInfo};
use crate::text::{
    digit_char, find_from, find_substr_from, is_digit, lemma_find_from_some, matches_at,
};

verus! {

/// Extraction strategy for huya share links, whose video id is the digit
/// run right before the `.html` suffix in the link.
pub struct HuyaParser;

impl HuyaParser {
    /// First index of a `.html` occurrence immediately preceded by a digit.
    pub open spec fn find_digit_suffix_from(t: Seq<char>, i: int) -> Option<int>
        decreases t.len() - i + 1,
    {
        if i < 0 || i + ".html"@.len() > t.len() {
            None
        } else if matches_at(t, ".html"@, i) && i > 0 && is_digit(t[i - 1]) {
            Some(i)
        } else {
            Self::find_digit_suffix_from(t, i + 1)
        }
    }

    /// Start of the digit run that ends right before index `m`.
    pub open spec fn digit_run_start(t: Seq<char>, m: int) -> int
        decreases m,
    {
        if 0 < m <= t.len() && is_digit(t[m - 1]) {
            Self::digit_run_start(t, m - 1)
        } else {
            m
        }
    }

    /// The digit run right before the first digit-preceded `.html` of the
    /// text, or `None` where the text holds no such id.
    pub open spec fn spec_html_digits(t: Seq<char>) -> Option<Seq<char>> {
        match Self::find_digit_suffix_from(t, 0) {
            Some(m) => Some(t.subrange(Self::digit_run_start(t, m), m)),
            None => None,
        }
    }

    proof fn lemma_fds_skip(t: Seq<char>, i: int, m: int)
        requires
            0 <= i,
            find_from(t, ".html"@, i) == Some(m),
        ensures
            i <= m,
            Self::find_digit_suffix_from(t, i) == Self::find_digit_suffix_from(t, m),
        decreases t.len() - i + 1,
    {
        if !(i + ".html"@.len() > t.len()) && !matches_at(t, ".html"@, i) {
            Self::lemma_fds_skip(t, i + 1, m);
        }
    }

    proof fn lemma_fds_none(t: Seq<char>, i: int)
        requires
            0 <= i,
            find_from(t, ".html"@, i) is None,
        ensures
            Self::find_digit_suffix_from(t, i) is None,
        decreases t.len() - i + 1,
    {
        if !(i + ".html"@.len() > t.len()) {
            Self::lemma_fds_none(t, i + 1);
        }
    }

    /// The video id of a share URL: its digit run before `.html`.
    #[verifier::loop_isolation(false)]
    pub fn share_url_video_id(&self, share_url: &str) -> (r: Result<String, ParseError>)
        ensures
            match r {
                Ok(id) => Self::spec_html_digits(share_url@) == Some(id@),
                Err(e) => e == ParseError::InvalidShareUrl && Self::spec_html_digits(
                    share_url@,
                ) is None,
            },
    {
        let n = share_url.unicode_len();
        let mut i: usize = 0;
        loop
            invariant
                i <= n + 1,
                Self::find_digit_suffix_from(share_url@, 0) == Self::find_digit_suffix_from(
                    share_url@,
                    i as int,
                ),
            decreases n + 1 - i,
        {
            match find_substr_from(share_url, ".html", i) {
                Some(m) => {
                    proof {
                        reveal_strlit(".html");
                        lemma_find_from_some(share_url@, ".html"@, i as int);
                        Self::lemma_fds_skip(share_url@, i as int, m as int);
                    }
                    if m > 0 && digit_char(share_url.get_char(m - 1)) {
                        let mut st = m;
                        while st > 0 && digit_char(share_url.get_char(st - 1))
                            invariant
                                st <= m,
                                m <= n,
                                Self::digit_run_start(share_url@, m as int)
                                    == Self::digit_run_start(share_url@, st as int),
                            decreases st,
                        {
                            st -= 1;
                        }
                        return Ok(String::from_str(share_url.substring_char(st, m)));
                    }
                    i = m + 1;
                },
                None => {
                    proof {
                        Self::lemma_fds_none(share_url@, i as int);
                    }
                    return Err(ParseError::InvalidShareUrl);
                },
            }
        }
    }

    /// The moment-content endpoint for one video id.
    pub fn video_api_url(&self, video_id: &str) -> (r: String)
        ensures
            r@ == "https://liveapi.huya.com/moment/getMomentContent?videoId="@ + video_id@,
    {
        let mut u = String::from_str("https://liveapi.huya.com/moment/getMomentContent?videoId=");
        u.append(video_id);
        u
    }

    /// Normalizes the moment-content answer into the canonical record.
    pub fn extract_info(&self, root: &JsonValue) -> (r: Result<VideoParseInfo, ParseError>)
        ensures
            ({
                let d = spec_pointer(*root, "/data/moment/videoInfo"@);
                let video = (match d {
                    Some(data) => spec_str_at(data, "/definitions/0/url"@),
                    None => None::<Seq<char>>,
                });
                &&& (r is Ok <==> (d is Some && video is Some))
                &&& match r {
                    Ok(info) => d matches Some(data) && {
                        &&& info.title@ == spec_str_or_empty(data, "/videoTitle"@)
                        &&& opt_str_view(info.video_url) == spec_str_at(
                            data,
                            "/definitions/0/url"@,
                        )
                        &&& opt_str_view(info.cover_url) == spec_str_at(data, "/videoCover"@)
                        &&& info.author.uid@ == spec_str_or_empty(data, "/uid"@)
                        &&& info.author.name@ == spec_str_or_empty(data, "/actorNick"@)
                        &&& info.author.avatar@ == spec_str_or_empty(data, "/actorAvatarUrl"@)
                        &&& info.images@.len() == 0
                        &&& info.media_exclusive()
                        &&& info.has_media()
                    },
                    Err(e) => {
                        ||| (d is None && e == ParseError::MalformedUpstreamPayload)
                        ||| e == ParseError::NoMediaFound
                    },
                }
            }),
    {
        let data = match pointer(root, "/data/moment/videoInfo") {
            Some(d) => d,
            None => {
                return Err(ParseError::MalformedUpstreamPayload);
            },
        };
        let author = Author {
            uid: get_str_or_empty(data, "/uid"),
            name: get_str_or_empty(data, "/actorNick"),
            avatar: get_str_or_empty(data, "/actorAvatarUrl"),
        };
        let title = get_str_or_empty(data, "/videoTitle");
        let video = get_str(data, "/definitions/0/url");
        let cover = get_str(data, "/videoCover");
        VideoParseInfo::assemble(author, title, video, None, cover, Vec::new())
    }
}

} // verus!
