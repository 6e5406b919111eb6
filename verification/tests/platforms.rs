use video_parser::errors::ParseError;
use video_parser::json::JsonValue;
use video_parser::parser::acfun::AcfunParser;
use video_parser::parser::bilibili::{BiliRoute, BilibiliParser};
use video_parser::parser::doupai::DoupaiParser;
use video_parser::parser::douyin::{DouyinParser, DouyinRoute};
use video_parser::parser::haokan::HaokanParser;
use video_parser::parser::huoshan::HuoshanParser;
use video_parser::parser::huya::HuyaParser;
use video_parser::parser::kuaishou::KuaishouParser;
use video_parser::parser::lishipin::LishipinParser;
use video_parser::parser::lvzhou::LvzhouParser;
use video_parser::parser::pipigaoxiao::PipigaoxiaoParser;
use video_parser::parser::pipixia::PipixiaParser;
use video_parser::parser::quanmin::QuanminParser;
use video_parser::parser::quanminkge::QuanminkgeParser;
use video_parser::parser::redbook::RedbookParser;
use video_parser::parser::sixroom::SixroomParser;
use video_parser::parser::weibo::{WeiboParser, WeiboRoute};
use video_parser::parser::weishi::WeishiParser;
use video_parser::parser::xigua::XiguaParser;
use video_parser::parser::xinpianchang::XinpianchangParser;
use video_parser::parser::zuiyou::ZuiyouParser;

fn obj(pairs: Vec<(&str, JsonValue)>) -> JsonValue {
    JsonValue::Obj(pairs.into_iter().map(|(k, v)| (k.to_string(), v)).collect())
}

fn s(text: &str) -> JsonValue {
    JsonValue::Str(text.to_string())
}

#[test]
fn douyin_routes_by_host() {
    let p = DouyinParser;
    assert_eq!(p.classify_share_url("https://v.douyin.com/abc/"), DouyinRoute::AppLink);
    assert_eq!(
        p.classify_share_url("https://www.iesdouyin.com/share/video/1"),
        DouyinRoute::PcLink
    );
    assert_eq!(p.classify_share_url("https://elsewhere.com/x"), DouyinRoute::Other);
    assert_eq!(p.classify_share_url("not a url"), DouyinRoute::Other);
}

#[test]
fn douyin_video_id_from_path() {
    let p = DouyinParser;
    assert_eq!(
        p.extract_video_id_from_path("https://www.iesdouyin.com/share/video/741"),
        Ok("741".to_string())
    );
    assert_eq!(
        p.extract_video_id_from_path("https://www.douyin.com/discover?modal_id=528"),
        Ok("528".to_string())
    );
    assert_eq!(p.extract_video_id_from_path("/share/video/99"), Ok("99".to_string()));
}

#[test]
fn douyin_rejects_xigua_redirects() {
    let p = DouyinParser;
    assert!(!p.app_location_supported("https://www.ixigua.com/123"));
    assert!(p.app_location_supported("https://www.iesdouyin.com/share/video/1"));
}

#[test]
fn douyin_urls() {
    let p = DouyinParser;
    assert_eq!(
        p.video_page_url("741"),
        "https://www.iesdouyin.com/share/video/741"
    );
    assert!(p.note_api_url("741", "75123", "bogus").contains("aweme_ids=%5B741%5D"));
}

#[test]
fn douyin_detects_note_pages() {
    let p = DouyinParser;
    let html = "<html><head><link rel='canonical' href='https://www.iesdouyin.com/share/note/7' /></head><body></body></html>";
    assert!(p.check_is_note(html));
    let plain = "<html><head><link rel='canonical' href='https://www.iesdouyin.com/share/video/7' /></head></html>";
    assert!(!p.check_is_note(plain));
    assert!(!p.check_is_note("<html></html>"));
}

#[test]
fn douyin_router_data_item() {
    let p = DouyinParser;
    let item = obj(vec![("desc", s("hello"))]);
    let root = obj(vec![(
        "loaderData",
        obj(vec![(
            "page",
            obj(vec![(
                "videoInfoRes",
                obj(vec![("item_list", JsonValue::Arr(vec![item]))]),
            )]),
        )]),
    )]);
    let found = p.parse_video_data_from_html(&root, "1").unwrap();
    assert!(matches!(found, JsonValue::Obj(_)));
}

#[test]
fn douyin_filtered_video_is_business_error() {
    let p = DouyinParser;
    let filter = obj(vec![
        ("aweme_id", s("741")),
        ("filter_reason", s("removed")),
        ("detail_msg", s("gone")),
    ]);
    let root = obj(vec![(
        "loaderData",
        obj(vec![(
            "page",
            obj(vec![(
                "videoInfoRes",
                obj(vec![("filter_list", JsonValue::Arr(vec![filter]))]),
            )]),
        )]),
    )]);
    match p.parse_video_data_from_html(&root, "741") {
        Err(ParseError::UpstreamBusinessError(m)) => {
            assert_eq!(m, "视频被过滤: removed - gone")
        }
        other => panic!("expected a business error, got {:?}", other),
    }
}

#[test]
fn douyin_extract_video_rewrites_watermark() {
    let p = DouyinParser;
    let data = obj(vec![
        (
            "author",
            obj(vec![
                ("sec_uid", s("u1")),
                ("nickname", s("someone")),
                (
                    "avatar_thumb",
                    obj(vec![("url_list", JsonValue::Arr(vec![s("https://a/avatar.jpeg")]))]),
                ),
            ]),
        ),
        ("desc", s("title here")),
        (
            "video",
            obj(vec![
                (
                    "play_addr",
                    obj(vec![(
                        "url_list",
                        JsonValue::Arr(vec![s("https://v/playwm/1?x=playwm")]),
                    )]),
                ),
                (
                    "cover",
                    obj(vec![(
                        "url_list",
                        JsonValue::Arr(vec![s("https://c/1.webp"), s("https://c/1.jpeg")]),
                    )]),
                ),
            ]),
        ),
    ]);
    let info = p.extract_video_info(&data, false).unwrap();
    assert_eq!(info.author.uid, "u1");
    assert_eq!(info.author.name, "someone");
    assert_eq!(info.title, "title here");
    assert_eq!(info.video_url.as_deref(), Some("https://v/play/1?x=play"));
    assert_eq!(info.cover_url.as_deref(), Some("https://c/1.jpeg"));
    assert!(info.images.is_empty());
}

#[test]
fn douyin_note_gallery_excludes_video() {
    let p = DouyinParser;
    let image = obj(vec![
        ("url_list", JsonValue::Arr(vec![s("https://img/1.jpeg")])),
        (
            "video",
            obj(vec![(
                "play_addr",
                obj(vec![("url_list", JsonValue::Arr(vec![s("https://live/1.mp4")]))]),
            )]),
        ),
    ]);
    let data = obj(vec![
        ("images", JsonValue::Arr(vec![image])),
        (
            "video",
            obj(vec![(
                "play_addr",
                obj(vec![("url_list", JsonValue::Arr(vec![s("https://v/1.mp4")]))]),
            )]),
        ),
    ]);
    let info = p.extract_video_info(&data, true).unwrap();
    assert!(info.video_url.is_none());
    assert_eq!(info.images.len(), 1);
    assert_eq!(info.images[0].url, "https://img/1.jpeg");
    assert_eq!(info.images[0].live_photo_url.as_deref(), Some("https://live/1.mp4"));
}

#[test]
fn douyin_redirect_resolution() {
    let p = DouyinParser;
    let base = p
        .extract_video_info(
            &obj(vec![(
                "video",
                obj(vec![(
                    "play_addr",
                    obj(vec![("url_list", JsonValue::Arr(vec![s("https://v/play/1")]))]),
                )]),
            )]),
            false,
        )
        .unwrap();
    let resolved = p.resolve_video_url(base.clone(), Some("https://cdn/real.mp4".to_string()));
    assert_eq!(resolved.video_url.as_deref(), Some("https://cdn/real.mp4"));
    let kept = p.resolve_video_url(base, None);
    assert_eq!(kept.video_url.as_deref(), Some("https://v/play/1"));
}

#[test]
fn weibo_routes() {
    let p = WeiboParser;
    match p.classify_share_url("https://weibo.com/tv/show?fid=1034%3A77") {
        WeiboRoute::Video(id) => assert_eq!(id, "1034:77"),
        other => panic!("unexpected route {:?}", other),
    }
    match p.classify_share_url("https://weibo.com/tv/show/1034:88") {
        WeiboRoute::Video(id) => assert_eq!(id, "1034:88"),
        other => panic!("unexpected route {:?}", other),
    }
    match p.classify_share_url("https://weibo.com/7816/ABCDEF") {
        WeiboRoute::Post(id) => assert_eq!(id, "ABCDEF"),
        other => panic!("unexpected route {:?}", other),
    }
    assert!(matches!(
        p.classify_share_url("https://weibo.com/shortpath"),
        WeiboRoute::Invalid
    ));
}

#[test]
fn weibo_video_api_extraction() {
    let p = WeiboParser;
    let root = obj(vec![(
        "data",
        obj(vec![(
            "Component_Play_Playinfo",
            obj(vec![
                ("title", s("a show")),
                ("author", s("author name")),
                ("avatar", s("//img/avatar.png")),
                ("cover_image", s("//img/cover.jpg")),
                (
                    "urls",
                    obj(vec![
                        ("hd", s("//v/hd.mp4")),
                        ("sd", s("//v/sd.mp4")),
                    ]),
                ),
            ]),
        )]),
    )]);
    let info = p.parse_video_api(&root).unwrap();
    assert_eq!(info.video_url.as_deref(), Some("https://v/hd.mp4"));
    assert_eq!(info.cover_url.as_deref(), Some("https://img/cover.jpg"));
    assert_eq!(info.author.avatar, "https://img/avatar.png");
    assert_eq!(info.title, "a show");
}

#[test]
fn weibo_mobile_album() {
    let p = WeiboParser;
    let pic = |u: &str| obj(vec![("large", obj(vec![("url", s(u))]))]);
    let data = obj(vec![
        ("text", s("<a href='x'>tag</a> caption ")),
        ("user", obj(vec![("screen_name", s("u")), ("avatar_large", s("av"))])),
        ("pics", JsonValue::Arr(vec![pic("https://img/1.jpg"), pic("https://img/2.jpg")])),
    ]);
    let info = p.parse_mobile_api_data(&data).unwrap();
    assert_eq!(info.title, "tag caption");
    assert_eq!(info.images.len(), 2);
    assert_eq!(info.images[1].url, "https://img/2.jpg");
}

#[test]
fn weibo_mobile_without_pics_falls_through() {
    let p = WeiboParser;
    let data = obj(vec![("text", s("plain"))]);
    assert_eq!(p.parse_mobile_api_data(&data).err(), Some(ParseError::NoMediaFound));
}

#[test]
fn weibo_render_data_slice() {
    let p = WeiboParser;
    let html = "<script>var $render_data = [{\"status\":{\"text\":\"hi\"}}][0] || {};</script>";
    let json = p.render_data_json(html).unwrap();
    assert_eq!(json, "[{\"status\":{\"text\":\"hi\"}}][0]");
}

#[test]
fn kuaishou_flow() {
    let p = KuaishouParser;
    assert_eq!(
        p.normalize_final_url("https://www.kuaishou.com/fw/long-video/abc"),
        "https://www.kuaishou.com/fw/photo/abc"
    );
    let photo = obj(vec![
        ("userName", s("k")),
        ("headUrl", s("https://a/h.jpg")),
        ("caption", s("cap")),
        (
            "mainMvUrls",
            JsonValue::Arr(vec![obj(vec![("url", s("https://v/main.mp4"))])]),
        ),
        (
            "coverUrls",
            JsonValue::Arr(vec![obj(vec![("url", s("https://c/cover.jpg"))])]),
        ),
    ]);
    let entry = obj(vec![("result", JsonValue::Int(1)), ("photo", photo)]);
    let root = obj(vec![("noise", s("x")), ("fw.photo", entry)]);
    let data = p.find_video_data(&root).unwrap();
    assert!(p.check_result(data).is_ok());
    let info = p.extract_video_info(data).unwrap();
    assert_eq!(info.video_url.as_deref(), Some("https://v/main.mp4"));
    assert_eq!(info.author.name, "k");
}

#[test]
fn kuaishou_bad_result_code() {
    let p = KuaishouParser;
    let data = obj(vec![("result", JsonValue::Int(2))]);
    match p.check_result(&data) {
        Err(ParseError::UpstreamBusinessError(m)) => {
            assert_eq!(m, "获取作品信息失败: result=2")
        }
        other => panic!("unexpected {:?}", other),
    }
}

#[test]
fn kuaishou_atlas_gallery() {
    let p = KuaishouParser;
    let photo = obj(vec![
        ("caption", s("album")),
        (
            "ext_params",
            obj(vec![(
                "atlas",
                obj(vec![
                    ("cdn", JsonValue::Arr(vec![s("cdn.host")])),
                    ("list", JsonValue::Arr(vec![s("p/1.jpg"), s("p/2.jpg")])),
                ]),
            )]),
        ),
        (
            "mainMvUrls",
            JsonValue::Arr(vec![obj(vec![("url", s("https://v/main.mp4"))])]),
        ),
    ]);
    let data = obj(vec![("photo", photo)]);
    let info = p.extract_video_info(&data).unwrap();
    assert_eq!(info.images.len(), 2);
    assert_eq!(info.images[0].url, "https://cdn.host/p/1.jpg");
    assert!(info.video_url.is_none(), "a gallery clears the video URL");
}

#[test]
fn pipixia_flow() {
    let p = PipixiaParser;
    assert_eq!(
        p.video_id_from_location("https://h5.pipix.com/item/73218"),
        Ok("73218".to_string())
    );
    assert!(p.video_api_url("73218").contains("cell_id=73218"));
    let comment = |author: &str, url: &str| {
        obj(vec![(
            "item",
            obj(vec![
                ("author", obj(vec![("id", s(author))])),
                (
                    "video",
                    obj(vec![(
                        "video_high",
                        obj(vec![("url_list", JsonValue::Arr(vec![obj(vec![("url", s(url))])]))]),
                    )]),
                ),
            ]),
        )])
    };
    let item = obj(vec![
        ("author", obj(vec![("id", s("me")), ("name", s("n"))])),
        ("content", s("t")),
        (
            "video",
            obj(vec![(
                "video_high",
                obj(vec![(
                    "url_list",
                    JsonValue::Arr(vec![obj(vec![("url", s("https://v/base.mp4"))])]),
                )]),
            )]),
        ),
        (
            "comments",
            JsonValue::Arr(vec![
                comment("other", "https://v/other.mp4"),
                comment("me", "https://v/better.mp4"),
            ]),
        ),
    ]);
    let root = obj(vec![(
        "data",
        obj(vec![(
            "cell_comments",
            JsonValue::Arr(vec![obj(vec![("comment_info", obj(vec![("item", item)]))])]),
        )]),
    )]);
    let info = p.extract_info(&root).unwrap();
    assert_eq!(
        info.video_url.as_deref(),
        Some("https://v/better.mp4"),
        "the author's own comment rendition wins"
    );
    assert_eq!(info.author.uid, "me");
}

#[test]
fn zuiyou_flow() {
    let p = ZuiyouParser;
    assert_eq!(p.share_url_pid("https://share.xiaochuankeji.cn/hybrid/share/post?pid=365"), Ok(365));
    assert_eq!(
        p.share_url_pid("https://share.xiaochuankeji.cn/post?pid=x"),
        Err(ParseError::InvalidShareUrl)
    );
    assert_eq!(p.detail_body(365), "{\"h_av\":\"5.2.13.011\",\"pid\":365}");
    assert_eq!(ZuiyouParser::ensure_jpg_format("a.png"), "a.jpg");
    assert_eq!(ZuiyouParser::ensure_jpg_format("a.webp?x=1"), "a.jpg?x=1");
    assert_eq!(ZuiyouParser::ensure_jpg_format("bare?x=1"), "bare.jpg?x=1");
    assert_eq!(ZuiyouParser::ensure_jpg_format("plain"), "plain.jpg");
    assert_eq!(ZuiyouParser::ensure_jpg_format("keep.jpeg"), "keep.jpeg");
    let post = obj(vec![
        ("content", s("c")),
        ("member", obj(vec![("name", s("m"))])),
        (
            "videos",
            obj(vec![(
                "77",
                obj(vec![
                    ("url", s("https://v/1.mp4")),
                    ("cover_urls", JsonValue::Arr(vec![s("https://c/1.png")])),
                ]),
            )]),
        ),
    ]);
    let root = obj(vec![("data", obj(vec![("post", post)]))]);
    let info = p.extract_info(&root).unwrap();
    assert_eq!(info.video_url.as_deref(), Some("https://v/1.mp4"));
    assert_eq!(info.cover_url.as_deref(), Some("https://c/1.jpg"));
}

#[test]
fn redbook_note_flow() {
    let p = RedbookParser;
    let html = "<script>window.__INITIAL_STATE__ = {\"note\":{\"currentNoteId\":\"n1\",\"noteDetailMap\":{\"n1\":{\"note\":{\"title\":\"t\",\"user\":{\"userId\":\"u\"},\"video\":{\"media\":{\"stream\":{\"h264\":[{\"masterUrl\":\"https://v/m.mp4\"}]}}}}}}}}</script>";
    let root = p.parse_initial_state(html).unwrap();
    let note = p.note_of(&root).unwrap();
    let info = p.extract_video_info(note).unwrap();
    assert_eq!(info.video_url.as_deref(), Some("https://v/m.mp4"));
    assert_eq!(info.author.uid, "u");
}

#[test]
fn redbook_image_processing() {
    let p = RedbookParser;
    assert_eq!(
        p.process_image_url("https://ci.xiaohongshu.com/notes_pre_post/1040g3k8!nd_dft"),
        "https://ci.xiaohongshu.com/notes_pre_post/1040g3k8?imageView2/format/jpg"
    );
    assert_eq!(
        p.process_image_url("https://ci.xiaohongshu.com/spectrum/notes_pre_post/abc!nd"),
        "https://ci.xiaohongshu.com/notes_pre_post/spectrum/abc?imageView2/format/jpg"
    );
    assert_eq!(p.process_image_url("https://other/img.jpg"), "https://other/img.jpg");
}

#[test]
fn redbook_live_photo_gallery() {
    let p = RedbookParser;
    let image = obj(vec![
        ("urlDefault", s("https://other/img.jpg")),
        ("livePhoto", JsonValue::Bool(true)),
        (
            "stream",
            obj(vec![(
                "h264",
                JsonValue::Arr(vec![obj(vec![("masterUrl", s("https://v/live.mp4"))])]),
            )]),
        ),
    ]);
    let note = obj(vec![
        ("title", s("album")),
        ("imageList", JsonValue::Arr(vec![image])),
    ]);
    let info = p.extract_video_info(&note).unwrap();
    assert!(info.video_url.is_none());
    assert_eq!(info.images.len(), 1);
    assert_eq!(info.images[0].live_photo_url.as_deref(), Some("https://v/live.mp4"));
}

#[test]
fn bilibili_routes_and_apis() {
    let p = BilibiliParser;
    match p.classify_share_url("https://www.bilibili.com/video/BV1xx411c7mD?t=1") {
        BiliRoute::Bvid(id) => assert_eq!(id, "BV1xx411c7mD"),
        other => panic!("unexpected {:?}", other),
    }
    assert!(matches!(p.classify_share_url("https://b23.tv/abc"), BiliRoute::Short));
    assert!(matches!(
        p.classify_share_url("https://www.bilibili.com/read/123"),
        BiliRoute::Invalid
    ));
    let view = obj(vec![
        ("code", JsonValue::Int(0)),
        (
            "data",
            obj(vec![
                ("title", s("t")),
                ("pic", s("https://c/p.jpg")),
                (
                    "owner",
                    obj(vec![("mid", JsonValue::Int(99)), ("name", s("o")), ("face", s("f"))]),
                ),
                ("pages", JsonValue::Arr(vec![obj(vec![("cid", JsonValue::Int(1234))])])),
            ]),
        ),
    ]);
    let v = p.parse_view(&view).unwrap();
    assert_eq!(v.cid, 1234);
    let play = obj(vec![
        ("code", JsonValue::Int(0)),
        (
            "data",
            obj(vec![("durl", JsonValue::Arr(vec![obj(vec![("url", s("https://v/x.flv"))])]))]),
        ),
    ]);
    let url = p.parse_play(&play).unwrap();
    let info = p.assemble_info(v, url);
    assert_eq!(info.author.uid, "99");
    assert_eq!(info.video_url.as_deref(), Some("https://v/x.flv"));
}

#[test]
fn bilibili_api_rejection() {
    let p = BilibiliParser;
    let bad = obj(vec![("code", JsonValue::Int(-404)), ("message", s("啥都木有"))]);
    match p.parse_view(&bad) {
        Err(ParseError::UpstreamBusinessError(m)) => {
            assert_eq!(m, "B站API返回错误: 啥都木有 (code: -404)")
        }
        other => panic!("unexpected {:?}", other),
    }
}

#[test]
fn huya_digit_id() {
    let p = HuyaParser;
    assert_eq!(
        p.share_url_video_id("https://v.huya.com/play/123456.html"),
        Ok("123456".to_string())
    );
    assert_eq!(
        p.share_url_video_id("https://v.huya.com/play/abc.html"),
        Err(ParseError::InvalidShareUrl)
    );
    let root = obj(vec![(
        "data",
        obj(vec![(
            "moment",
            obj(vec![(
                "videoInfo",
                obj(vec![
                    ("videoTitle", s("t")),
                    (
                        "definitions",
                        JsonValue::Arr(vec![obj(vec![("url", s("https://v/h.mp4"))])]),
                    ),
                ]),
            )]),
        )]),
    )]);
    let info = p.extract_info(&root).unwrap();
    assert_eq!(info.video_url.as_deref(), Some("https://v/h.mp4"));
}

#[test]
fn xigua_flow() {
    let p = XiguaParser;
    assert_eq!(
        p.share_url_video_id("https://v.ixigua.com/video/abc123"),
        Ok("abc123".to_string())
    );
    let item = obj(vec![
        ("desc", s("d")),
        (
            "video",
            obj(vec![(
                "play_addr",
                obj(vec![("url_list", JsonValue::Arr(vec![s("https://v/x.mp4")]))]),
            )]),
        ),
    ]);
    let root = obj(vec![(
        "loaderData",
        obj(vec![(
            "video_abc",
            obj(vec![(
                "videoInfoRes",
                obj(vec![("item_list", JsonValue::Arr(vec![item]))]),
            )]),
        )]),
    )]);
    let data = p.find_video_data(&root, "abc123").unwrap();
    let info = p.extract_video_info(data).unwrap();
    assert_eq!(info.video_url.as_deref(), Some("https://v/x.mp4"));
}

#[test]
fn haokan_errors_and_fields() {
    let p = HaokanParser;
    assert_eq!(
        p.share_url_video_id("https://haokan.baidu.com/v?vid=52614"),
        Ok("52614".to_string())
    );
    assert_eq!(
        p.share_url_video_id("https://haokan.baidu.com/v?pd=x&vid=a%2Bb+c"),
        Ok("a+b c".to_string()),
        "query values come back form-decoded"
    );
    assert_eq!(
        p.share_url_video_id("https://haokan.baidu.com/v?other=1"),
        Err(ParseError::InvalidShareUrl)
    );
    let rejected = obj(vec![("errno", JsonValue::Int(404)), ("error", s("不存在"))]);
    match p.extract_info(&rejected) {
        Err(ParseError::UpstreamBusinessError(m)) => assert_eq!(m, "好看视频API错误: 不存在"),
        other => panic!("unexpected {:?}", other),
    }
    let ok = obj(vec![
        ("errno", JsonValue::Int(0)),
        (
            "data",
            obj(vec![(
                "apiData",
                obj(vec![(
                    "curVideoMeta",
                    obj(vec![("title", s("t")), ("playurl", s("https://v/h.mp4"))]),
                )]),
            )]),
        ),
    ]);
    let info = p.extract_info(&ok).unwrap();
    assert_eq!(info.video_url.as_deref(), Some("https://v/h.mp4"));
}

#[test]
fn quanmin_status_rejection() {
    let p = QuanminParser;
    let rejected = obj(vec![
        ("errno", JsonValue::Int(0)),
        (
            "data",
            obj(vec![("meta", obj(vec![("statusText", s("已删除"))]))]),
        ),
    ]);
    match p.extract_info(&rejected) {
        Err(ParseError::UpstreamBusinessError(m)) => assert_eq!(m, "视频状态错误: 已删除"),
        other => panic!("unexpected {:?}", other),
    }
}

#[test]
fn quanmin_title_fallback() {
    let p = QuanminParser;
    let root = obj(vec![
        ("errno", JsonValue::Int(0)),
        (
            "data",
            obj(vec![
                ("shareInfo", obj(vec![("title", s("shared title"))])),
                (
                    "meta",
                    obj(vec![
                        ("statusText", s("")),
                        (
                            "video_info",
                            obj(vec![(
                                "clarityUrl",
                                JsonValue::Arr(vec![
                                    obj(vec![("url", s("https://v/sd.mp4"))]),
                                    obj(vec![("url", s("https://v/hd.mp4"))]),
                                ]),
                            )]),
                        ),
                    ]),
                ),
            ]),
        ),
    ]);
    let info = p.extract_info(&root).unwrap();
    assert_eq!(info.title, "shared title");
    assert_eq!(info.video_url.as_deref(), Some("https://v/hd.mp4"));
}

#[test]
fn weishi_rejections() {
    let p = WeishiParser;
    let bad_ret = obj(vec![("ret", JsonValue::Int(-1)), ("msg", s("boom"))]);
    assert!(matches!(
        p.extract_info(&bad_ret),
        Err(ParseError::UpstreamBusinessError(_))
    ));
    let bad_video = obj(vec![
        ("ret", JsonValue::Int(0)),
        ("data", obj(vec![("errmsg", s("已下架"))])),
    ]);
    match p.extract_info(&bad_video) {
        Err(ParseError::UpstreamBusinessError(m)) => assert_eq!(m, "视频错误: 已下架"),
        other => panic!("unexpected {:?}", other),
    }
}

#[test]
fn huoshan_and_simple_ids() {
    assert_eq!(
        HuoshanParser.item_id_from_location("https://share.huoshan.com/hotsoon/s/x?item_id=999"),
        Ok("999".to_string())
    );
    assert_eq!(
        DoupaiParser.share_url_video_id("https://doupai.cc/topic/detail?id=58a"),
        Ok("58a".to_string())
    );
    assert_eq!(
        WeishiParser.share_url_video_id("https://isee.weishi.qq.com/ws/app-pages/share/index.html?id=77x"),
        Ok("77x".to_string())
    );
    assert_eq!(
        QuanminkgeParser.share_url_video_id("https://kg.qq.com/node/play?s=songid1"),
        Ok("songid1".to_string())
    );
    assert_eq!(
        SixroomParser.share_url_video_id("https://6.cn/watchMini.php?vid=515"),
        Ok("515".to_string())
    );
    assert_eq!(
        SixroomParser.share_url_video_id("https://6.cn/v/516"),
        Ok("516".to_string())
    );
    assert_eq!(
        LishipinParser.share_url_video_id("https://www.pearvideo.com/detail_1780000"),
        Ok("1780000".to_string())
    );
    assert_eq!(
        PipigaoxiaoParser.share_url_video_id("https://h5.pipigx.com/pp/post/866"),
        Ok("866".to_string())
    );
}

#[test]
fn lishipin_src_url_rewrite() {
    let p = LishipinParser;
    let root = obj(vec![
        ("systemTime", s("1700000123456")),
        (
            "videoInfo",
            obj(vec![
                ("video_image", s("https://img/c.jpg")),
                (
                    "videos",
                    obj(vec![(
                        "srcUrl",
                        s("https://video.pearvideo.com/mp4/1700000123456-11.mp4"),
                    )]),
                ),
            ]),
        ),
    ]);
    let info = p.extract_info(&root, "1780000").unwrap();
    assert_eq!(
        info.video_url.as_deref(),
        Some("https://video.pearvideo.com/mp4/cont-1780000-11.mp4")
    );
}

#[test]
fn pipigaoxiao_body_and_extraction() {
    let p = PipigaoxiaoParser;
    assert_eq!(p.canonical_pid("866"), "866");
    assert_eq!(p.canonical_pid("not-a-number"), "0");
    assert_eq!(
        p.post_body("866"),
        "{\"pid\":866,\"type\":\"post\",\"mid\":null}"
    );
    let rejected = obj(vec![("msg", s("没有权限"))]);
    match p.extract_info(&rejected) {
        Err(ParseError::UpstreamBusinessError(m)) => assert_eq!(m, "皮皮搞笑API错误: 没有权限"),
        other => panic!("unexpected {:?}", other),
    }
    let post = obj(vec![
        ("content", s("funny")),
        ("imgs", JsonValue::Arr(vec![obj(vec![("id", s("i9"))])])),
        (
            "videos",
            obj(vec![("i9", obj(vec![("url", s("https://v/f.mp4"))]))]),
        ),
    ]);
    let root = obj(vec![("data", obj(vec![("post", post)]))]);
    let info = p.extract_info(&root).unwrap();
    assert_eq!(info.video_url.as_deref(), Some("https://v/f.mp4"));
    assert_eq!(
        info.cover_url.as_deref(),
        Some("https://file.ippzone.com/img/view/id/i9")
    );
}

#[test]
fn quanminkge_detail() {
    let p = QuanminkgeParser;
    let root = obj(vec![(
        "detail",
        obj(vec![
            ("content", s("a song")),
            ("playurl_video", s("https://v/song.mp4")),
            ("nick", s("singer")),
        ]),
    )]);
    let info = p.extract_info(&root).unwrap();
    assert_eq!(info.video_url.as_deref(), Some("https://v/song.mp4"));
    assert_eq!(info.author.name, "singer");
}

#[test]
fn acfun_embedded_documents() {
    let p = AcfunParser;
    assert_eq!(p.video_page_url("ac123"), "https://www.acfun.cn/v/ac123");
    let html = "<script>var videoInfo = {\"title\":\"t\",\"cover\":\"https://c/a.jpg\"};\nvar playInfo = {\"streams\":[{\"playUrls\":[\"https://v/a.m3u8\"]}]};</script>";
    let info = p.extract_from_html(html).unwrap();
    assert_eq!(info.title, "t");
    assert_eq!(info.cover_url.as_deref(), Some("https://c/a.jpg"));
    assert_eq!(info.video_url.as_deref(), Some("https://v/a.m3u8"));
}

#[test]
fn lvzhou_markup_extraction() {
    let p = LvzhouParser;
    assert_eq!(
        p.share_url_of_id("515"),
        "https://m.oasis.weibo.cn/v1/h5/share?sid=515"
    );
    let html = "<html><body><video src=\"https://v/l.mp4\"></video><a class=\"avatar\"><img src=\"https://a/i.jpg\"/></a><div class=\"video-cover\" style=\"background-image:url(https://c/cover.jpg)\"></div><div class=\"status-title\"> the title </div><div class=\"nickname\"> who </div></body></html>";
    let info = p.parse_html(html).unwrap();
    assert_eq!(info.video_url.as_deref(), Some("https://v/l.mp4"));
    assert_eq!(info.author.avatar, "https://a/i.jpg");
    assert_eq!(info.cover_url.as_deref(), Some("https://c/cover.jpg"));
    assert_eq!(info.title, "the title");
    assert_eq!(info.author.name, "who");
}

#[test]
fn xinpianchang_next_data() {
    let p = XinpianchangParser;
    let html = "<script id=\"__NEXT_DATA__\" type=\"application/json\">{\"props\":{\"pageProps\":{\"detail\":{\"title\":\"film\",\"video\":{\"content\":{\"progressive\":[{\"url\":\"https://v/f.mp4\"}]}},\"author\":{\"userinfo\":{\"username\":\"dir\"}}}}}}</script>";
    let info = p.extract_from_html(html).unwrap();
    assert_eq!(info.title, "film");
    assert_eq!(info.video_url.as_deref(), Some("https://v/f.mp4"));
    assert_eq!(info.author.name, "dir");
}
