pub mod acfun;
pub mod bilibili;
pub mod doupai;
pub mod douyin;
pub mod haokan;
pub mod huoshan;
pub mod huya;
pub mod kuaishou;
pub mod lishipin;
pub mod lvzhou;
pub mod pipigaoxiao;
pub mod pipixia;
pub mod redbook;
pub mod xigua;
pub mod quanmin;
pub mod quanminkge;
pub mod sixroom;
pub mod weibo;
pub mod weishi;
pub mod xinpianchang;
pub mod zuiyou;

use vstd::prelude::*;

use crate::errors::ParseError;
use crate::models::{spec_domains, VideoSource};
use crate::text::{contains_substr, has_sub};

verus! {

// ------------------------------------------------------------------
// Source identification
// ------------------------------------------------------------------

/// The declared identification order of the platform table. Order is
/// significant: the first platform with a matching domain wins, so the
/// domain lists must be curated against accidental substring overlaps.
pub open spec fn spec_source_order() -> Seq<VideoSource> {
    seq![
        VideoSource::DouYin,
        VideoSource::KuaiShou,
        VideoSource::BiliBili,
        VideoSource::RedBook,
        VideoSource::PiPiXia,
        VideoSource::HuoShan,
        VideoSource::WeiBo,
        VideoSource::WeiShi,
        VideoSource::LvZhou,
        VideoSource::ZuiYou,
        VideoSource::QuanMin,
        VideoSource::XiGua,
        VideoSource::LiShiPin,
        VideoSource::PiPiGaoXiao,
        VideoSource::HuYa,
        VideoSource::AcFun,
        VideoSource::DouPai,
        VideoSource::MeiPai,
        VideoSource::QuanMinKGe,
        VideoSource::SixRoom,
        VideoSource::XinPianChang,
        VideoSource::HaoKan,
    ]
}

pub open spec fn domain_match_from(u: Seq<char>, ds: Seq<Seq<char>>, k: int) -> bool
    decreases ds.len() - k,
{
    if !(0 <= k < ds.len()) {
        false
    } else {
        has_sub(u, ds[k]) || domain_match_from(u, ds, k + 1)
    }
}

/// Some registered domain of `s` occurs in the URL as a substring.
pub open spec fn source_matches(u: Seq<char>, s: VideoSource) -> bool {
    domain_match_from(u, spec_domains(s), 0)
}

pub open spec fn spec_identify_from(u: Seq<char>, i: int) -> Option<VideoSource>
    decreases spec_source_order().len() - i,
{
    if !(0 <= i < spec_source_order().len()) {
        None
    } else if source_matches(u, spec_source_order()[i]) {
        Some(spec_source_order()[i])
    } else {
        spec_identify_from(u, i + 1)
    }
}

/// The tag of the first platform in table order with a domain occurring in
/// the URL.
pub open spec fn spec_identify(u: Seq<char>) -> Option<VideoSource> {
    spec_identify_from(u, 0)
}

fn source_order() -> (r: Vec<VideoSource>)
    ensures
        r@ == spec_source_order(),
{
    let mut v: Vec<VideoSource> = Vec::new();
    v.push(VideoSource::DouYin);
    v.push(VideoSource::KuaiShou);
    v.push(VideoSource::BiliBili);
    v.push(VideoSource::RedBook);
    v.push(VideoSource::PiPiXia);
    v.push(VideoSource::HuoShan);
    v.push(VideoSource::WeiBo);
    v.push(VideoSource::WeiShi);
    v.push(VideoSource::LvZhou);
    v.push(VideoSource::ZuiYou);
    v.push(VideoSource::QuanMin);
    v.push(VideoSource::XiGua);
    v.push(VideoSource::LiShiPin);
    v.push(VideoSource::PiPiGaoXiao);
    v.push(VideoSource::HuYa);
    v.push(VideoSource::AcFun);
    v.push(VideoSource::DouPai);
    v.push(VideoSource::MeiPai);
    v.push(VideoSource::QuanMinKGe);
    v.push(VideoSource::SixRoom);
    v.push(VideoSource::XinPianChang);
    v.push(VideoSource::HaoKan);
    proof {
        assert(v@ =~= spec_source_order());
    }
    v
}

fn source_matches_ex(url: &str, s: VideoSource) -> (r: bool)
    ensures
        r == source_matches(url@, s),
{
    let ds = s.share_url_domains();
    let mut k: usize = 0;
    while k < ds.len()
        invariant
            ds.deep_view() == spec_domains(s),
            k <= ds@.len(),
            ds@.len() == spec_domains(s).len(),
            source_matches(url@, s) == domain_match_from(url@, spec_domains(s), k as int),
        decreases ds@.len() - k,
    {
        proof {
            assert(ds.deep_view()[k as int] == spec_domains(s)[k as int]);
        }
        if contains_substr(url, ds[k]) {
            return true;
        }
        k += 1;
    }
    false
}

/// Scans the platform table in its declared order and returns the tag of
/// the first platform with a substring domain match; an unregistered
/// domain is an `UnknownPlatform` failure.
pub fn identify_video_source(url: &str) -> (r: Result<VideoSource, ParseError>)
    ensures
        match r {
            Ok(s) => spec_identify(url@) == Some(s),
            Err(e) => e == ParseError::UnknownPlatform && spec_identify(url@) is None,
        },
{
    let order = source_order();
    let mut i: usize = 0;
    while i < order.len()
        invariant
            order@ == spec_source_order(),
            i <= order@.len(),
            spec_identify(url@) == spec_identify_from(url@, i as int),
        decreases order@.len() - i,
    {
        let s = order[i];
        if source_matches_ex(url, s) {
            return Ok(s);
        }
        i += 1;
    }
    Err(ParseError::UnknownPlatform)
}

proof fn lemma_domain_match_at(u: Seq<char>, ds: Seq<Seq<char>>, m: int, k: int)
    requires
        0 <= m <= k < ds.len(),
        has_sub(u, ds[k]),
    ensures
        domain_match_from(u, ds, m),
    decreases k - m,
{
    if m < k {
        lemma_domain_match_at(u, ds, m + 1, k);
    }
}

proof fn lemma_identify_some(u: Seq<char>, i: int, j: int)
    requires
        0 <= i <= j < spec_source_order().len(),
        source_matches(u, spec_source_order()[j]),
    ensures
        spec_identify_from(u, i) is Some,
    decreases j - i,
{
    if i < j && !source_matches(u, spec_source_order()[i]) {
        lemma_identify_some(u, i + 1, j);
    }
}

/// Identification never misses a registered domain: a URL in which any
/// domain of any platform occurs resolves to some platform's tag — which
/// one is decided by the table's declared order.
pub proof fn lemma_registered_domain_identifies(u: Seq<char>, s: VideoSource, k: int)
    requires
        0 <= k < spec_domains(s).len(),
        has_sub(u, spec_domains(s)[k]),
    ensures
        spec_identify(u) is Some,
{
    lemma_domain_match_at(u, spec_domains(s), 0, k);
    let order = spec_source_order();
    let j: int = match s {
        VideoSource::DouYin => 0,
        VideoSource::KuaiShou => 1,
        VideoSource::BiliBili => 2,
        VideoSource::RedBook => 3,
        VideoSource::PiPiXia => 4,
        VideoSource::HuoShan => 5,
        VideoSource::WeiBo => 6,
        VideoSource::WeiShi => 7,
        VideoSource::LvZhou => 8,
        VideoSource::ZuiYou => 9,
        VideoSource::QuanMin => 10,
        VideoSource::XiGua => 11,
        VideoSource::LiShiPin => 12,
        VideoSource::PiPiGaoXiao => 13,
        VideoSource::HuYa => 14,
        VideoSource::AcFun => 15,
        VideoSource::DouPai => 16,
        VideoSource::MeiPai => 17,
        VideoSource::QuanMinKGe => 18,
        VideoSource::SixRoom => 19,
        VideoSource::XinPianChang => 20,
        VideoSource::HaoKan => 21,
    };
    assert(order[j] == s);
    lemma_identify_some(u, 0, j);
}

proof fn lemma_identify_from_hits(u: Seq<char>, i: int, j: int)
    requires
        0 <= i <= j < spec_source_order().len(),
        source_matches(u, spec_source_order()[j]),
        forall|k: int| i <= k < j ==> !source_matches(u, #[trigger] spec_source_order()[k]),
    ensures
        spec_identify_from(u, i) == Some(spec_source_order()[j]),
    decreases j - i,
{
    if i < j {
        lemma_identify_from_hits(u, i + 1, j);
    }
}

/// Disambiguation by declared order: where a domain of the platform at
/// table position `j` occurs in the URL and no earlier platform matches,
/// identification resolves to exactly that platform's tag.
pub proof fn lemma_first_matching_source_wins(u: Seq<char>, j: int)
    requires
        0 <= j < spec_source_order().len(),
        source_matches(u, spec_source_order()[j]),
        forall|k: int| 0 <= k < j ==> !source_matches(u, #[trigger] spec_source_order()[k]),
    ensures
        spec_identify(u) == Some(spec_source_order()[j]),
{
    lemma_identify_from_hits(u, 0, j);
}

// ------------------------------------------------------------------
// The parser registry
// ------------------------------------------------------------------

/// Every tag except MeiPai has a registered extraction strategy.
pub open spec fn spec_has_parser(s: VideoSource) -> bool {
    s != VideoSource::MeiPai
}

pub fn has_parser(s: VideoSource) -> (r: bool)
    ensures
        r == spec_has_parser(s),
{
    match s {
        VideoSource::MeiPai => false,
        _ => true,
    }
}

/// Which strategies implement the optional parse-by-id operation; the
/// others answer it with `UnsupportedOperation`.
pub open spec fn spec_supports_video_id(s: VideoSource) -> bool {
    match s {
        VideoSource::DouYin
        | VideoSource::AcFun
        | VideoSource::LvZhou
        | VideoSource::DouPai
        | VideoSource::HaoKan
        | VideoSource::HuoShan
        | VideoSource::HuYa
        | VideoSource::LiShiPin
        | VideoSource::PiPiGaoXiao
        | VideoSource::PiPiXia
        | VideoSource::QuanMin
        | VideoSource::QuanMinKGe
        | VideoSource::SixRoom
        | VideoSource::WeiBo
        | VideoSource::WeiShi
        | VideoSource::XiGua => true,
        _ => false,
    }
}

pub fn supports_video_id(s: VideoSource) -> (r: bool)
    ensures
        r == spec_supports_video_id(s),
{
    match s {
        VideoSource::DouYin
        | VideoSource::AcFun
        | VideoSource::LvZhou
        | VideoSource::DouPai
        | VideoSource::HaoKan
        | VideoSource::HuoShan
        | VideoSource::HuYa
        | VideoSource::LiShiPin
        | VideoSource::PiPiGaoXiao
        | VideoSource::PiPiXia
        | VideoSource::QuanMin
        | VideoSource::QuanMinKGe
        | VideoSource::SixRoom
        | VideoSource::WeiBo
        | VideoSource::WeiShi
        | VideoSource::XiGua => true,
        _ => false,
    }
}

// ------------------------------------------------------------------
// The static platform listing
// ------------------------------------------------------------------

/// The tags and display labels of the static platform-listing response, in
/// its declared order.
pub open spec fn spec_listing() -> Seq<(VideoSource, Seq<char>)> {
    seq![
        (VideoSource::DouYin, "抖音"@),
        (VideoSource::KuaiShou, "快手"@),
        (VideoSource::BiliBili, "哔哩哔哩"@),
        (VideoSource::RedBook, "小红书"@),
        (VideoSource::XiGua, "西瓜视频"@),
        (VideoSource::HuoShan, "火山视频"@),
        (VideoSource::PiPiXia, "皮皮虾"@),
        (VideoSource::WeiBo, "微博"@),
        (VideoSource::WeiShi, "微视"@),
        (VideoSource::ZuiYou, "最右"@),
        (VideoSource::LvZhou, "绿洲"@),
        (VideoSource::QuanMin, "全民小视频"@),
        (VideoSource::LiShiPin, "梨视频"@),
        (VideoSource::HaoKan, "好看视频"@),
        (VideoSource::HuYa, "虎牙"@),
        (VideoSource::PiPiGaoXiao, "皮皮搞笑"@),
        (VideoSource::AcFun, "AcFun"@),
        (VideoSource::DouPai, "豆拍"@),
        (VideoSource::QuanMinKGe, "全民K歌"@),
        (VideoSource::SixRoom, "六间房"@),
        (VideoSource::XinPianChang, "新片场"@),
    ]
}

/// The static platform listing: each supported platform with its label and
/// its registered domains.
pub fn get_supported_platforms() -> (r: Vec<(VideoSource, &'static str, Vec<&'static str>)>)
    ensures
        r@.len() == spec_listing().len(),
        forall|i: int|
            0 <= i < r@.len() ==> {
                &&& (#[trigger] r@[i]).0 == spec_listing()[i].0
                &&& r@[i].1@ == spec_listing()[i].1
                &&& r@[i].2.deep_view() == spec_domains(r@[i].0)
            },
{
    let mut v: Vec<(VideoSource, &'static str, Vec<&'static str>)> = Vec::new();
    v.push((VideoSource::DouYin, "抖音", VideoSource::DouYin.share_url_domains()));
    v.push((VideoSource::KuaiShou, "快手", VideoSource::KuaiShou.share_url_domains()));
    v.push((VideoSource::BiliBili, "哔哩哔哩", VideoSource::BiliBili.share_url_domains()));
    v.push((VideoSource::RedBook, "小红书", VideoSource::RedBook.share_url_domains()));
    v.push((VideoSource::XiGua, "西瓜视频", VideoSource::XiGua.share_url_domains()));
    v.push((VideoSource::HuoShan, "火山视频", VideoSource::HuoShan.share_url_domains()));
    v.push((VideoSource::PiPiXia, "皮皮虾", VideoSource::PiPiXia.share_url_domains()));
    v.push((VideoSource::WeiBo, "微博", VideoSource::WeiBo.share_url_domains()));
    v.push((VideoSource::WeiShi, "微视", VideoSource::WeiShi.share_url_domains()));
    v.push((VideoSource::ZuiYou, "最右", VideoSource::ZuiYou.share_url_domains()));
    v.push((VideoSource::LvZhou, "绿洲", VideoSource::LvZhou.share_url_domains()));
    v.push((VideoSource::QuanMin, "全民小视频", VideoSource::QuanMin.share_url_domains()));
    v.push((VideoSource::LiShiPin, "梨视频", VideoSource::LiShiPin.share_url_domains()));
    v.push((VideoSource::HaoKan, "好看视频", VideoSource::HaoKan.share_url_domains()));
    v.push((VideoSource::HuYa, "虎牙", VideoSource::HuYa.share_url_domains()));
    v.push((VideoSource::PiPiGaoXiao, "皮皮搞笑", VideoSource::PiPiGaoXiao.share_url_domains()));
    v.push((VideoSource::AcFun, "AcFun", VideoSource::AcFun.share_url_domains()));
    v.push((VideoSource::DouPai, "豆拍", VideoSource::DouPai.share_url_domains()));
    v.push((VideoSource::QuanMinKGe, "全民K歌", VideoSource::QuanMinKGe.share_url_domains()));
    v.push((VideoSource::SixRoom, "六间房", VideoSource::SixRoom.share_url_domains()));
    v.push((VideoSource::XinPianChang, "新片场", VideoSource::XinPianChang.share_url_domains()));
    v
}

} // verus!
