use vstd::prelude::*;

use crate::errors::ParseError;
use crate::text::{eq_lowered, lower_seq};

verus! {

// ------------------------------------------------------------------
// The canonical record
// ------------------------------------------------------------------

/// Author of a piece of content; every field is empty-string-if-unknown,
/// never absent.
#[derive(Debug, Clone)]
pub struct Author {
    pub uid: String,
    pub name: String,
    pub avatar: String,
}

impl Author {
    pub open spec fn is_blank(&self) -> bool {
        self.uid@.len() == 0 && self.name@.len() == 0 && self.avatar@.len() == 0
    }
}

impl Default for Author {
    fn default() -> (r: Self)
        ensures
            r.is_blank(),
    {
        Author { uid: String::new(), name: String::new(), avatar: String::new() }
    }
}

/// One gallery item: a still image, optionally paired with a short motion
/// clip.
#[derive(Debug, Clone)]
pub struct ImgInfo {
    pub url: String,
    pub live_photo_url: Option<String>,
}

/// The view of an optional string.
pub open spec fn opt_str_view(o: Option<String>) -> Option<Seq<char>> {
    match o {
        Some(s) => Some(s@),
        None => None,
    }
}

/// The (url, motion-clip url) views of a gallery.
pub open spec fn img_views(s: Seq<ImgInfo>) -> Seq<(Seq<char>, Option<Seq<char>>)> {
    s.map_values(|im: ImgInfo| (im.url@, opt_str_view(im.live_photo_url)))
}

/// The canonical extraction result handed to the transport layer.
#[derive(Debug, Clone)]
pub struct VideoParseInfo {
    pub author: Author,
    pub title: String,
    pub video_url: Option<String>,
    pub music_url: Option<String>,
    pub cover_url: Option<String>,
    pub images: Vec<ImgInfo>,
}

impl VideoParseInfo {
    /// On success either a single video or a non-empty gallery is present —
    /// never both.
    pub open spec fn media_exclusive(&self) -> bool {
        self.images@.len() > 0 ==> self.video_url is None
    }

    pub open spec fn has_media(&self) -> bool {
        self.video_url is Some || self.images@.len() > 0
    }

    pub fn new() -> (r: Self)
        ensures
            r.author.is_blank(),
            r.title@.len() == 0,
            r.video_url is None,
            r.music_url is None,
            r.cover_url is None,
            r.images@.len() == 0,
    {
        VideoParseInfo {
            author: Author::default(),
            title: String::new(),
            video_url: None,
            music_url: None,
            cover_url: None,
            images: Vec::new(),
        }
    }

    /// What `assemble` returns for the given raw fields.
    pub open spec fn spec_assemble(
        author: Author,
        title: String,
        video_url: Option<String>,
        music_url: Option<String>,
        cover_url: Option<String>,
        images: Vec<ImgInfo>,
    ) -> Result<VideoParseInfo, ParseError> {
        if images@.len() > 0 {
            Ok(
                VideoParseInfo {
                    author,
                    title,
                    video_url: None,
                    music_url,
                    cover_url,
                    images,
                },
            )
        } else if video_url is Some {
            Ok(VideoParseInfo { author, title, video_url, music_url, cover_url, images })
        } else {
            Err(ParseError::NoMediaFound)
        }
    }

    /// Normalizes raw per-platform fields into the canonical record: a
    /// non-empty gallery clears the video URL even if upstream nominally
    /// populated both, and a record with neither is refused.
    pub fn assemble(
        author: Author,
        title: String,
        video_url: Option<String>,
        music_url: Option<String>,
        cover_url: Option<String>,
        images: Vec<ImgInfo>,
    ) -> (r: Result<VideoParseInfo, ParseError>)
        ensures
            r == Self::spec_assemble(author, title, video_url, music_url, cover_url, images),
            r matches Ok(info) ==> info.media_exclusive() && info.has_media(),
    {
        if images.len() > 0 {
            Ok(VideoParseInfo { author, title, video_url: None, music_url, cover_url, images })
        } else if video_url.is_some() {
            Ok(VideoParseInfo { author, title, video_url, music_url, cover_url, images })
        } else {
            Err(ParseError::NoMediaFound)
        }
    }
}

impl Default for VideoParseInfo {
    fn default() -> (r: Self)
        ensures
            r.video_url is None,
            r.images@.len() == 0,
    {
        VideoParseInfo::new()
    }
}

/// Mutual exclusivity of media kinds: whatever the raw fields were, an
/// assembled record with a non-empty gallery carries no video URL, and an
/// assembled record always carries one of the two.
pub proof fn lemma_assemble_media_exclusive(
    author: Author,
    title: String,
    video_url: Option<String>,
    music_url: Option<String>,
    cover_url: Option<String>,
    images: Vec<ImgInfo>,
)
    ensures
        VideoParseInfo::spec_assemble(author, title, video_url, music_url, cover_url, images)
            matches Ok(info) ==> info.media_exclusive() && info.has_media(),
{
}

// ------------------------------------------------------------------
// Platform tags
// ------------------------------------------------------------------

/// The closed set of platforms the extraction framework knows.
#[derive(Debug, Clone, Copy, PartialEq, Eq, Hash, Structural)]
pub enum VideoSource {
    DouYin,
    KuaiShou,
    PiPiXia,
    HuoShan,
    WeiBo,
    WeiShi,
    LvZhou,
    ZuiYou,
    QuanMin,
    XiGua,
    LiShiPin,
    PiPiGaoXiao,
    HuYa,
    AcFun,
    DouPai,
    MeiPai,
    QuanMinKGe,
    SixRoom,
    XinPianChang,
    HaoKan,
    RedBook,
    BiliBili,
}

/// The stable string id of each tag.
pub open spec fn spec_source_id(s: VideoSource) -> Seq<char> {
    match s {
        VideoSource::DouYin => "douyin"@,
        VideoSource::KuaiShou => "kuaishou"@,
        VideoSource::PiPiXia => "pipixia"@,
        VideoSource::HuoShan => "huoshan"@,
        VideoSource::WeiBo => "weibo"@,
        VideoSource::WeiShi => "weishi"@,
        VideoSource::LvZhou => "lvzhou"@,
        VideoSource::ZuiYou => "zuiyou"@,
        VideoSource::QuanMin => "quanmin"@,
        VideoSource::XiGua => "xigua"@,
        VideoSource::LiShiPin => "lishipin"@,
        VideoSource::PiPiGaoXiao => "pipigaoxiao"@,
        VideoSource::HuYa => "huya"@,
        VideoSource::AcFun => "acfun"@,
        VideoSource::DouPai => "doupai"@,
        VideoSource::MeiPai => "meipai"@,
        VideoSource::QuanMinKGe => "quanminkge"@,
        VideoSource::SixRoom => "sixroom"@,
        VideoSource::XinPianChang => "xinpianchang"@,
        VideoSource::HaoKan => "haokan"@,
        VideoSource::RedBook => "redbook"@,
        VideoSource::BiliBili => "bilibili"@,
    }
}

/// Which tag a (lowercased) id string denotes.
pub open spec fn spec_source_from(s: Seq<char>) -> Option<VideoSource> {
    if s == "douyin"@ {
        Some(VideoSource::DouYin)
    } else if s == "kuaishou"@ {
        Some(VideoSource::KuaiShou)
    } else if s == "pipixia"@ {
        Some(VideoSource::PiPiXia)
    } else if s == "huoshan"@ {
        Some(VideoSource::HuoShan)
    } else if s == "weibo"@ {
        Some(VideoSource::WeiBo)
    } else if s == "weishi"@ {
        Some(VideoSource::WeiShi)
    } else if s == "lvzhou"@ {
        Some(VideoSource::LvZhou)
    } else if s == "zuiyou"@ {
        Some(VideoSource::ZuiYou)
    } else if s == "quanmin"@ {
        Some(VideoSource::QuanMin)
    } else if s == "xigua"@ {
        Some(VideoSource::XiGua)
    } else if s == "lishipin"@ {
        Some(VideoSource::LiShiPin)
    } else if s == "pipigaoxiao"@ {
        Some(VideoSource::PiPiGaoXiao)
    } else if s == "huya"@ {
        Some(VideoSource::HuYa)
    } else if s == "acfun"@ {
        Some(VideoSource::AcFun)
    } else if s == "doupai"@ {
        Some(VideoSource::DouPai)
    } else if s == "meipai"@ {
        Some(VideoSource::MeiPai)
    } else if s == "quanminkge"@ {
        Some(VideoSource::QuanMinKGe)
    } else if s == "sixroom"@ {
        Some(VideoSource::SixRoom)
    } else if s == "xinpianchang"@ {
        Some(VideoSource::XinPianChang)
    } else if s == "haokan"@ {
        Some(VideoSource::HaoKan)
    } else if s == "redbook"@ || s == "xiaohongshu"@ {
        Some(VideoSource::RedBook)
    } else if s == "bilibili"@ {
        Some(VideoSource::BiliBili)
    } else {
        None
    }
}

/// The ordered set of share-link domains registered for each tag.
pub open spec fn spec_domains(s: VideoSource) -> Seq<Seq<char>> {
    match s {
        VideoSource::DouYin => seq!["v.douyin.com"@, "www.iesdouyin.com"@, "www.douyin.com"@],
        VideoSource::KuaiShou => seq!["v.kuaishou.com"@, "www.kuaishou.com"@],
        VideoSource::PiPiXia => seq!["h5.pipix.com"@],
        VideoSource::HuoShan => seq!["share.huoshan.com"@],
        VideoSource::WeiBo => seq!["weibo.com"@],
        VideoSource::WeiShi => seq!["isee.weishi.qq.com"@],
        VideoSource::LvZhou => seq!["weibo.cn"@],
        VideoSource::ZuiYou => seq!["share.xiaochuankeji.cn"@],
        VideoSource::QuanMin => seq!["xspshare.baidu.com"@],
        VideoSource::XiGua => seq!["v.ixigua.com"@],
        VideoSource::LiShiPin => seq!["www.pearvideo.com"@],
        VideoSource::PiPiGaoXiao => seq!["h5.pipigx.com"@],
        VideoSource::HuYa => seq!["v.huya.com"@],
        VideoSource::AcFun => seq!["www.acfun.cn"@],
        VideoSource::DouPai => seq!["doupai.cc"@],
        VideoSource::MeiPai => seq!["meipai.com"@],
        VideoSource::QuanMinKGe => seq!["kg.qq.com"@],
        VideoSource::SixRoom => seq!["6.cn"@],
        VideoSource::XinPianChang => seq!["xinpianchang.com"@],
        VideoSource::HaoKan => seq!["haokan.baidu.com"@, "haokan.hao123.com"@],
        VideoSource::RedBook => seq!["www.xiaohongshu.com"@, "xhslink.com"@],
        VideoSource::BiliBili => seq!["bilibili.com"@, "b23.tv"@],
    }
}

impl VideoSource {
    /// Parses a platform id, case-insensitively; `xiaohongshu` is an alias
    /// of `redbook`.
    pub fn from_str(s: &str) -> (r: Option<Self>)
        ensures
            r == spec_source_from(lower_seq(s@)),
    {
        if eq_lowered(s, "douyin") {
            Some(Self::DouYin)
        } else if eq_lowered(s, "kuaishou") {
            Some(Self::KuaiShou)
        } else if eq_lowered(s, "pipixia") {
            Some(Self::PiPiXia)
        } else if eq_lowered(s, "huoshan") {
            Some(Self::HuoShan)
        } else if eq_lowered(s, "weibo") {
            Some(Self::WeiBo)
        } else if eq_lowered(s, "weishi") {
            Some(Self::WeiShi)
        } else if eq_lowered(s, "lvzhou") {
            Some(Self::LvZhou)
        } else if eq_lowered(s, "zuiyou") {
            Some(Self::ZuiYou)
        } else if eq_lowered(s, "quanmin") {
            Some(Self::QuanMin)
        } else if eq_lowered(s, "xigua") {
            Some(Self::XiGua)
        } else if eq_lowered(s, "lishipin") {
            Some(Self::LiShiPin)
        } else if eq_lowered(s, "pipigaoxiao") {
            Some(Self::PiPiGaoXiao)
        } else if eq_lowered(s, "huya") {
            Some(Self::HuYa)
        } else if eq_lowered(s, "acfun") {
            Some(Self::AcFun)
        } else if eq_lowered(s, "doupai") {
            Some(Self::DouPai)
        } else if eq_lowered(s, "meipai") {
            Some(Self::MeiPai)
        } else if eq_lowered(s, "quanminkge") {
            Some(Self::QuanMinKGe)
        } else if eq_lowered(s, "sixroom") {
            Some(Self::SixRoom)
        } else if eq_lowered(s, "xinpianchang") {
            Some(Self::XinPianChang)
        } else if eq_lowered(s, "haokan") {
            Some(Self::HaoKan)
        } else if eq_lowered(s, "redbook") || eq_lowered(s, "xiaohongshu") {
            Some(Self::RedBook)
        } else if eq_lowered(s, "bilibili") {
            Some(Self::BiliBili)
        } else {
            None
        }
    }

    /// The tag's stable string id.
    pub fn as_str(&self) -> (r: &'static str)
        ensures
            r@ == spec_source_id(*self),
    {
        match self {
            Self::DouYin => "douyin",
            Self::KuaiShou => "kuaishou",
            Self::PiPiXia => "pipixia",
            Self::HuoShan => "huoshan",
            Self::WeiBo => "weibo",
            Self::WeiShi => "weishi",
            Self::LvZhou => "lvzhou",
            Self::ZuiYou => "zuiyou",
            Self::QuanMin => "quanmin",
            Self::XiGua => "xigua",
            Self::LiShiPin => "lishipin",
            Self::PiPiGaoXiao => "pipigaoxiao",
            Self::HuYa => "huya",
            Self::AcFun => "acfun",
            Self::DouPai => "doupai",
            Self::MeiPai => "meipai",
            Self::QuanMinKGe => "quanminkge",
            Self::SixRoom => "sixroom",
            Self::XinPianChang => "xinpianchang",
            Self::HaoKan => "haokan",
            Self::RedBook => "redbook",
            Self::BiliBili => "bilibili",
        }
    }

    /// The tag's display name.
    pub fn display_name(&self) -> (r: &'static str)
        ensures
            r@ == spec_display_name(*self),
    {
        match self {
            Self::DouYin => "抖音",
            Self::KuaiShou => "快手",
            Self::PiPiXia => "皮皮虾",
            Self::HuoShan => "火山",
            Self::WeiBo => "微博",
            Self::WeiShi => "微视",
            Self::LvZhou => "绿洲",
            Self::ZuiYou => "最右",
            Self::QuanMin => "度小视",
            Self::XiGua => "西瓜",
            Self::LiShiPin => "梨视频",
            Self::PiPiGaoXiao => "皮皮搞笑",
            Self::HuYa => "虎牙",
            Self::AcFun => "AcFun",
            Self::DouPai => "逗拍",
            Self::MeiPai => "美拍",
            Self::QuanMinKGe => "全民K歌",
            Self::SixRoom => "六间房",
            Self::XinPianChang => "新片场",
            Self::HaoKan => "好看视频",
            Self::RedBook => "小红书",
            Self::BiliBili => "哔哩哔哩",
        }
    }

    /// The tag's registered share-link domains, in their declared order.
    pub fn share_url_domains(&self) -> (r: Vec<&'static str>)
        ensures
            r.deep_view() == spec_domains(*self),
    {
        let mut v: Vec<&'static str> = Vec::new();
        match self {
            Self::DouYin => {
                v.push("v.douyin.com");
                v.push("www.iesdouyin.com");
                v.push("www.douyin.com");
            },
            Self::KuaiShou => {
                v.push("v.kuaishou.com");
                v.push("www.kuaishou.com");
            },
            Self::PiPiXia => {
                v.push("h5.pipix.com");
            },
            Self::HuoShan => {
                v.push("share.huoshan.com");
            },
            Self::WeiBo => {
                v.push("weibo.com");
            },
            Self::WeiShi => {
                v.push("isee.weishi.qq.com");
            },
            Self::LvZhou => {
                v.push("weibo.cn");
            },
            Self::ZuiYou => {
                v.push("share.xiaochuankeji.cn");
            },
            Self::QuanMin => {
                v.push("xspshare.baidu.com");
            },
            Self::XiGua => {
                v.push("v.ixigua.com");
            },
            Self::LiShiPin => {
                v.push("www.pearvideo.com");
            },
            Self::PiPiGaoXiao => {
                v.push("h5.pipigx.com");
            },
            Self::HuYa => {
                v.push("v.huya.com");
            },
            Self::AcFun => {
                v.push("www.acfun.cn");
            },
            Self::DouPai => {
                v.push("doupai.cc");
            },
            Self::MeiPai => {
                v.push("meipai.com");
            },
            Self::QuanMinKGe => {
                v.push("kg.qq.com");
            },
            Self::SixRoom => {
                v.push("6.cn");
            },
            Self::XinPianChang => {
                v.push("xinpianchang.com");
            },
            Self::HaoKan => {
                v.push("haokan.baidu.com");
                v.push("haokan.hao123.com");
            },
            Self::RedBook => {
                v.push("www.xiaohongshu.com");
                v.push("xhslink.com");
            },
            Self::BiliBili => {
                v.push("bilibili.com");
                v.push("b23.tv");
            },
        }
        proof {
            assert(v.deep_view() =~= spec_domains(*self));
        }
        v
    }
}

/// The tag's display name.
pub open spec fn spec_display_name(s: VideoSource) -> Seq<char> {
    match s {
        VideoSource::DouYin => "抖音"@,
        VideoSource::KuaiShou => "快手"@,
        VideoSource::PiPiXia => "皮皮虾"@,
        VideoSource::HuoShan => "火山"@,
        VideoSource::WeiBo => "微博"@,
        VideoSource::WeiShi => "微视"@,
        VideoSource::LvZhou => "绿洲"@,
        VideoSource::ZuiYou => "最右"@,
        VideoSource::QuanMin => "度小视"@,
        VideoSource::XiGua => "西瓜"@,
        VideoSource::LiShiPin => "梨视频"@,
        VideoSource::PiPiGaoXiao => "皮皮搞笑"@,
        VideoSource::HuYa => "虎牙"@,
        VideoSource::AcFun => "AcFun"@,
        VideoSource::DouPai => "逗拍"@,
        VideoSource::MeiPai => "美拍"@,
        VideoSource::QuanMinKGe => "全民K歌"@,
        VideoSource::SixRoom => "六间房"@,
        VideoSource::XinPianChang => "新片场"@,
        VideoSource::HaoKan => "好看视频"@,
        VideoSource::RedBook => "小红书"@,
        VideoSource::BiliBili => "哔哩哔哩"@,
    }
}

// ------------------------------------------------------------------
// Transport envelope
// ------------------------------------------------------------------

/// The `{code, msg, data?}` envelope the transport layer answers with.
#[derive(Debug)]
pub struct HttpResponse<T> {
    pub code: i32,
    pub msg: String,
    pub data: Option<T>,
}

impl<T> HttpResponse<T> {
    pub fn success(data: T) -> (r: Self)
        ensures
            r.code == 200,
            r.msg@ == "解析成功"@,
            r.data == Some(data),
    {
        Self { code: 200, msg: String::from_str("解析成功"), data: Some(data) }
    }

    pub fn error(msg: String) -> (r: Self)
        ensures
            r.code == 201,
            r.msg == msg,
            r.data is None,
    {
        Self { code: 201, msg, data: None }
    }
}

} // verus!
