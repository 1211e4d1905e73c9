use pixiv_platform_backend::pixiv_api::next_bookmark_page;
use pixiv_platform_backend::domain::ImageCategory;
use pixiv_platform_backend::json::read_json;
use pixiv_platform_backend::pixiv_api::{
    merge_bookmark_refs, parse_author_work_refs, parse_bookmark_work_refs, parse_search_work_refs,
    parse_work,
};
use pixiv_platform_backend::domain::PixivWorkRef;
use pixiv_platform_backend::errors::ErrorCode;

#[test]
fn req_dl_002_parse_bookmarks_ignores_empty_strings_and_bookmark_record_ids() {
    let value = read_json(
        r#"{
            "error": false,
            "body": {
                "works": [
                    { "id": "123456", "title": "work one", "bookmarkData": { "id": "999999" }, "extra": "" },
                    { "illustId": "222222", "bookmarkData": { "id": "888888" } },
                    { "id": "", "title": "deleted or unavailable work", "bookmarkData": { "id": "777777" } }
                ],
                "irrelevant": ["", "333333"]
            }
        }"#,
    )
    .unwrap();

    let refs = parse_bookmark_work_refs(&value, 10).unwrap();
    let ids: Vec<_> = refs.into_iter().map(|work| work.pixiv_id).collect();

    assert_eq!(ids, vec!["123456", "222222"]);
}

#[test]
fn req_ai_002_parse_search_results_ignores_user_and_bookmark_ids() {
    let value = read_json(
        r#"{
            "error": false,
            "body": {
                "illustManga": {
                    "data": [
                        { "id": "123456", "title": "search result", "user": { "id": "999999" }, "bookmarkData": { "id": "888888" } },
                        { "illustId": "222222", "illustTitle": "alt search result" },
                        { "id": "", "title": "deleted result" }
                    ]
                }
            }
        }"#,
    )
    .unwrap();

    let refs = parse_search_work_refs(&value, 10).unwrap();
    let ids: Vec<_> = refs.into_iter().map(|work| work.pixiv_id).collect();

    assert_eq!(ids, vec!["123456", "222222"]);
}

#[test]
fn author_profile_lists_newest_first_and_respects_the_limit() {
    let value = read_json(
        r#"{"error": false, "body": {"illusts": {"100": null, "300": null}, "manga": ["200", "", "300"]}}"#,
    )
    .unwrap();
    let refs = parse_author_work_refs(&value, 10).unwrap();
    let ids: Vec<_> = refs.into_iter().map(|work| work.pixiv_id).collect();
    assert_eq!(ids, vec!["300", "200", "100"]);
    let limited = parse_author_work_refs(&value, 2).unwrap();
    assert_eq!(limited.len(), 2);
}

#[test]
fn flagged_error_reply_is_a_parse_error() {
    let value = read_json(r#"{"error": true, "message": "work is gone"}"#).unwrap();
    let error = parse_work("1", &value).unwrap_err();
    assert_eq!(error.code, ErrorCode::PixivParseError);
    assert_eq!(error.message, "work is gone");
    let value = read_json(r#"{"error": false}"#).unwrap();
    assert_eq!(parse_work("1", &value).unwrap_err().message, "Pixiv response missing body");
}

#[test]
fn work_with_several_pages_derives_each_original() {
    let value = read_json(
        r#"{"error": false, "body": {
            "title": "t", "userId": 42, "userName": "n", "xRestrict": 0, "sl": 6, "pageCount": 2,
            "tags": {"tags": [{"tag": "a"}, {"tag": "b"}]},
            "urls": {"regular": "https://i.pximg.net/img-master/img/1_p0_master1200.jpg"}
        }}"#,
    )
    .unwrap();
    let work = parse_work("1", &value).unwrap();
    assert_eq!(work.author_uid.as_deref(), Some("42"));
    assert_eq!(work.category, ImageCategory::Nsfw);
    assert_eq!(work.tags, vec!["a", "b"]);
    assert_eq!(work.pages.len(), 2);
    assert_eq!(work.pages[0].original_url, "https://i.pximg.net/img-original/img/1_p0.jpg");
    assert_eq!(work.pages[1].original_url, "https://i.pximg.net/img-original/img/1_p1.jpg");
    assert_eq!(work.pages[1].page_index, 1);
    assert_eq!(work.pages[1].extension.as_deref(), Some("jpg"));
}

#[test]
fn work_with_original_url_has_one_page_with_size() {
    let value = read_json(
        r#"{"error": false, "body": {"xRestrict": 1, "width": 10, "height": 20,
            "urls": {"original": "https://i.pximg.net/img-original/img/9_p0.png"}}}"#,
    )
    .unwrap();
    let work = parse_work("9", &value).unwrap();
    assert_eq!(work.category, ImageCategory::R18);
    assert_eq!(work.pages.len(), 1);
    assert_eq!(work.pages[0].width, Some(10));
    assert_eq!(work.pages[0].extension.as_deref(), Some("png"));
}

#[test]
fn merged_bookmarks_are_newest_first_without_repeats() {
    let refs = vec![
        PixivWorkRef { pixiv_id: "5".to_owned() },
        PixivWorkRef { pixiv_id: "9".to_owned() },
        PixivWorkRef { pixiv_id: "5".to_owned() },
        PixivWorkRef { pixiv_id: "7".to_owned() },
    ];
    let merged = merge_bookmark_refs(refs, 3);
    let ids: Vec<_> = merged.into_iter().map(|work| work.pixiv_id).collect();
    assert_eq!(ids, vec!["9", "7", "5"]);
}

#[test]
fn bookmark_pages_ask_public_then_private_for_what_is_missing() {
    assert_eq!(next_bookmark_page(0, 10, 0), Some((10, "show")));
    assert_eq!(next_bookmark_page(4, 10, 1), Some((6, "hide")));
    assert_eq!(next_bookmark_page(10, 10, 1), None);
    assert_eq!(next_bookmark_page(3, 10, 2), None);
}

#[test]
fn reply_text_that_is_not_json_is_a_network_error() {
    let error = pixiv_platform_backend::pixiv_api::reply_document("<html>").unwrap_err();
    assert_eq!(error.code, ErrorCode::PixivNetworkError);
    assert!(pixiv_platform_backend::pixiv_api::reply_document("{\"body\":{}}").is_ok());
}

#[test]
fn work_tags_are_the_tag_texts_in_order() {
    let value = read_json(r#"{"tags":{"tags":[{"tag":"a"},{"other":1},{"tag":"b"}]}}"#).unwrap();
    assert_eq!(pixiv_platform_backend::pixiv_api::parse_tags(&value), vec!["a".to_owned(), "b".to_owned()]);
}

#[test]
fn replies_that_flag_an_error_or_lack_a_body_are_refused() {
    let flagged = read_json(r#"{"error": true, "message": "rate limited", "body": {"works": []}}"#).unwrap();
    let error = parse_bookmark_work_refs(&flagged, 10).unwrap_err();
    assert_eq!(error.code, ErrorCode::PixivParseError);
    assert_eq!(error.message, "rate limited");
    let bodiless = read_json(r#"{"error": false}"#).unwrap();
    assert_eq!(parse_search_work_refs(&bodiless, 10).unwrap_err().code, ErrorCode::PixivParseError);
    assert_eq!(parse_author_work_refs(&bodiless, 10).unwrap_err().code, ErrorCode::PixivParseError);
}

#[test]
fn search_falls_back_to_the_whole_body_and_collapses_runs() {
    let value = read_json(
        r#"{"error": false, "body": {"popular": {"recent": [{"illustType": 0, "id": "5"}, {"illustType": 0, "id": 5}, {"workId": "7"}]}, "tags": [{"id": "9", "title": "x"}]}}"#,
    )
    .unwrap();
    let refs = parse_search_work_refs(&value, 10).unwrap();
    let ids: Vec<_> = refs.into_iter().map(|work| work.pixiv_id).collect();
    assert_eq!(ids, vec!["5", "7"]);
    let limited = parse_search_work_refs(&value, 1).unwrap();
    assert_eq!(limited.len(), 1);
    assert_eq!(limited[0].pixiv_id, "5");
}
