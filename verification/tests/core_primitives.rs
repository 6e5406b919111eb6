use video_parser::chain::{chain_step, run_fallback_tiers, ChainDecision};
use video_parser::errors::ParseError;
use video_parser::json::{extract_embedded_json, get_i64, get_str, pointer, JsonValue};
use video_parser::models::{Author, HttpResponse, VideoParseInfo, VideoSource};
use video_parser::parser::{
    get_supported_platforms, has_parser, identify_video_source, supports_video_id,
};
use video_parser::text::{i64_to_string, parse_i64_str, u64_to_string};
use video_parser::utils::{
    extract_json_from_html, extract_url_from_string, generate_numeric_id, generate_random_string,
    sanitize_undefined,
};

fn obj(pairs: Vec<(&str, JsonValue)>) -> JsonValue {
    JsonValue::Obj(pairs.into_iter().map(|(k, v)| (k.to_string(), v)).collect())
}

fn s(text: &str) -> JsonValue {
    JsonValue::Str(text.to_string())
}

#[test]
fn test_extract_url() {
    let text = "分享视频 https://v.douyin.com/abc123/ 快来看";
    let url = extract_url_from_string(text).unwrap();
    assert_eq!(url, "https://v.douyin.com/abc123/");
}

#[test]
fn test_generate_random_string() {
    let s = generate_random_string(10);
    assert_eq!(s.len(), 10);
}

#[test]
fn extract_url_with_query() {
    let text = "look https://www.kuaishou.com/fw/photo/abc?x=1&y=2 now";
    let url = extract_url_from_string(text).unwrap();
    assert_eq!(url, "https://www.kuaishou.com/fw/photo/abc?x=1&y=2");
}

#[test]
fn extract_url_none() {
    assert_eq!(extract_url_from_string("no link here"), Err(ParseError::UrlNotFound));
}

#[test]
fn extract_url_plain_http() {
    let url = extract_url_from_string("see http://6.cn/v/abc,then").unwrap();
    assert_eq!(url, "http://6.cn/v/abc");
}

#[test]
fn generate_numeric_id_digits_only() {
    let id = generate_numeric_id(15);
    assert_eq!(id.len(), 15);
    assert!(id.chars().all(|c| c.is_ascii_digit()));
}

#[test]
fn identify_every_registered_domain() {
    for (source, _, domains) in get_supported_platforms() {
        for d in domains {
            let url = format!("https://{}/some/path", d);
            assert_eq!(identify_video_source(&url), Ok(source), "domain {}", d);
        }
    }
}

#[test]
fn identify_unknown_domain() {
    assert_eq!(
        identify_video_source("https://example.com/x"),
        Err(ParseError::UnknownPlatform)
    );
}

#[test]
fn identify_obeys_table_order() {
    // weibo.cn is lvzhou's domain and must not be taken for weibo.com.
    assert_eq!(identify_video_source("https://weibo.cn/p/1"), Ok(VideoSource::LvZhou));
    assert_eq!(identify_video_source("https://weibo.com/1/2"), Ok(VideoSource::WeiBo));
}

#[test]
fn source_ids_round_trip() {
    for (source, _, _) in get_supported_platforms() {
        assert_eq!(VideoSource::from_str(source.as_str()), Some(source));
    }
}

#[test]
fn source_from_str_case_and_alias() {
    assert_eq!(VideoSource::from_str("DouYin"), Some(VideoSource::DouYin));
    assert_eq!(VideoSource::from_str("XIAOHONGSHU"), Some(VideoSource::RedBook));
    assert_eq!(VideoSource::from_str("redbook"), Some(VideoSource::RedBook));
    assert_eq!(VideoSource::from_str("meipai"), Some(VideoSource::MeiPai));
    assert_eq!(VideoSource::from_str("nosuch"), None);
}

#[test]
fn display_names() {
    assert_eq!(VideoSource::DouYin.display_name(), "抖音");
    assert_eq!(VideoSource::BiliBili.display_name(), "哔哩哔哩");
}

#[test]
fn registry_capabilities() {
    assert!(!has_parser(VideoSource::MeiPai));
    assert!(has_parser(VideoSource::DouYin));
    assert!(supports_video_id(VideoSource::DouYin));
    assert!(!supports_video_id(VideoSource::KuaiShou));
    assert!(!supports_video_id(VideoSource::RedBook));
}

#[test]
fn extract_json_between_anchors() {
    let html = "<script>window._ROUTER_DATA = {\"a\":1}</script>";
    let got = extract_json_from_html(html, "window._ROUTER_DATA", "</script>").unwrap();
    assert_eq!(got, "{\"a\":1}");
}

#[test]
fn extract_json_missing_anchor() {
    assert_eq!(
        extract_json_from_html("<html></html>", "window._ROUTER_DATA", "</script>"),
        Err(ParseError::EmbeddedDataNotFound)
    );
}

#[test]
fn extract_json_is_deterministic() {
    let html = "<script>window.__DATA__ = {\"detail\":{\"content\":\"t\"}};</script>";
    let one = extract_json_from_html(html, "window.__DATA__", ";");
    let two = extract_json_from_html(html, "window.__DATA__", ";");
    assert_eq!(one, two);
}

#[test]
fn sanitize_undefined_example() {
    let got = sanitize_undefined("{\"a\":undefined,\"b\":[1,undefined]}");
    assert_eq!(got, "{\"a\":null,\"b\":[1,null]}");
}

#[test]
fn sanitize_undefined_leaves_words_alone() {
    assert_eq!(sanitize_undefined("{\"a\":undefinedX}"), "{\"a\":undefinedX}");
    assert_eq!(sanitize_undefined("say undefined here"), "say undefined here");
}

#[test]
fn sanitized_embedded_json_parses() {
    let html = "<script>window.__INITIAL_STATE__ = {\"a\":undefined,\"b\":[1,undefined]}</script>";
    let v = extract_embedded_json(html, "window.__INITIAL_STATE__", "</script>").unwrap();
    assert!(matches!(pointer(&v, "/a"), Some(JsonValue::Null)));
    assert_eq!(get_i64(&v, "/b/0"), Some(1));
    assert!(matches!(pointer(&v, "/b/1"), Some(JsonValue::Null)));
}

#[test]
fn embedded_json_malformed() {
    let html = "<script>window.__DATA__ = {broken</script>";
    assert!(matches!(
        extract_embedded_json(html, "window.__DATA__", "</script>"),
        Err(ParseError::MalformedEmbeddedJson)
    ));
}

#[test]
fn projection_absent_intermediate() {
    let v = obj(vec![("a", obj(vec![]))]);
    assert!(pointer(&v, "/a/b/c").is_none());
    assert!(pointer(&v, "/a").is_some());
}

#[test]
fn projection_array_indices() {
    let v = obj(vec![("arr", JsonValue::Arr(vec![s("x"), s("y")]))]);
    assert_eq!(get_str(&v, "/arr/0"), Some("x".to_string()));
    assert_eq!(get_str(&v, "/arr/1"), Some("y".to_string()));
    assert_eq!(get_str(&v, "/arr/2"), None);
    assert_eq!(get_str(&v, "/arr/01"), None);
}

#[test]
fn projection_root_and_shape() {
    let v = s("top");
    assert!(pointer(&v, "").is_some());
    assert!(pointer(&v, "x").is_none());
    assert!(pointer(&v, "/x").is_none());
}

#[test]
fn fallback_chain_second_tier_wins() {
    let tier2 = VideoParseInfo {
        author: Author::default(),
        title: "t".to_string(),
        video_url: Some("https://v/1.mp4".to_string()),
        music_url: None,
        cover_url: None,
        images: vec![],
    };
    let outcomes = vec![
        Err(ParseError::UpstreamBusinessError("removed".to_string())),
        Ok(tier2),
        Err(ParseError::UpstreamTransportError("never reached".to_string())),
    ];
    let (result, consulted) = run_fallback_tiers(outcomes);
    assert_eq!(consulted, 2, "the third tier is never consulted");
    assert_eq!(result.unwrap().video_url.as_deref(), Some("https://v/1.mp4"));
}

#[test]
fn fallback_chain_surfaces_last_error() {
    let outcomes: Vec<Result<VideoParseInfo, ParseError>> = vec![
        Err(ParseError::UpstreamTransportError("one".to_string())),
        Err(ParseError::UpstreamBusinessError("two".to_string())),
    ];
    let (result, consulted) = run_fallback_tiers(outcomes);
    assert_eq!(consulted, 2);
    match result {
        Err(ParseError::UpstreamBusinessError(m)) => assert_eq!(m, "two"),
        other => panic!("unexpected outcome: {:?}", other.map(|_| ())),
    }
}

#[test]
fn chain_step_decisions() {
    let ok = VideoParseInfo {
        author: Author::default(),
        title: String::new(),
        video_url: Some("u".to_string()),
        music_url: None,
        cover_url: None,
        images: vec![],
    };
    assert!(matches!(chain_step(Ok(ok), 2), ChainDecision::Accept(_)));
    assert!(matches!(
        chain_step(Err(ParseError::NoMediaFound), 1),
        ChainDecision::NextTier
    ));
    assert!(matches!(
        chain_step(Err(ParseError::NoMediaFound), 0),
        ChainDecision::Fail(ParseError::NoMediaFound)
    ));
}

#[test]
fn assemble_gallery_clears_video() {
    let imgs = vec![video_parser::models::ImgInfo {
        url: "https://img/1.jpg".to_string(),
        live_photo_url: None,
    }];
    let info = VideoParseInfo::assemble(
        Author::default(),
        String::new(),
        Some("https://v/1.mp4".to_string()),
        None,
        None,
        imgs,
    )
    .unwrap();
    assert!(info.video_url.is_none());
    assert_eq!(info.images.len(), 1);
}

#[test]
fn assemble_without_media_fails() {
    let r = VideoParseInfo::assemble(
        Author::default(),
        "title".to_string(),
        None,
        None,
        Some("cover".to_string()),
        vec![],
    );
    assert_eq!(r.err(), Some(ParseError::NoMediaFound));
}

#[test]
fn http_response_envelope() {
    let ok: HttpResponse<i32> = HttpResponse::success(7);
    assert_eq!(ok.code, 200);
    assert_eq!(ok.data, Some(7));
    let err: HttpResponse<i32> = HttpResponse::error("bad".to_string());
    assert_eq!(err.code, 201);
    assert_eq!(err.msg, "bad");
    assert!(err.data.is_none());
}

#[test]
fn error_messages() {
    assert_eq!(
        ParseError::UpstreamBusinessError("its own words".to_string()).message(),
        "its own words"
    );
    assert!(!ParseError::UrlNotFound.message().is_empty());
}

#[test]
fn number_rendering_and_parsing() {
    assert_eq!(u64_to_string(0), "0");
    assert_eq!(u64_to_string(90524), "90524");
    assert_eq!(i64_to_string(-37), "-37");
    assert_eq!(parse_i64_str("42"), Some(42));
    assert_eq!(parse_i64_str("007"), Some(7));
    assert_eq!(parse_i64_str("-7"), Some(-7));
    assert_eq!(parse_i64_str("abc"), None);
    assert_eq!(parse_i64_str(""), None);
    assert_eq!(parse_i64_str("99999999999999999999999"), None);
    assert_eq!(parse_i64_str("9223372036854775807"), Some(i64::MAX));
    assert_eq!(parse_i64_str("-9223372036854775808"), Some(i64::MIN));
}

#[test]
fn default_record_is_empty() {
    let info = VideoParseInfo::new();
    assert!(info.video_url.is_none());
    assert!(info.images.is_empty());
    assert_eq!(info.title, "");
    assert_eq!(info.author.uid, "");
}
