use pixiv_platform_backend::ai::connection_status_from_reply;
use pixiv_platform_backend::ai::{
    chat_request_json, connection_status, deepseek_url, parse_smart_plan_json,
    smart_parse_user_prompt, SmartParseInput,
};
use pixiv_platform_backend::domain::R18Policy;
use pixiv_platform_backend::errors::ErrorCode;

#[test]
fn req_ai_001_parses_and_normalizes_deepseek_json_plan() {
    let input = SmartParseInput {
        prompt: "blue cyberpunk girl".to_owned(),
        count_hint: 20,
        max_count: 100,
        r18_policy: R18Policy::Exclude,
    };

    let plan = parse_smart_plan_json(
        r#"{
          "tags": [" blue hair ", "cyberpunk", "girl", "cyberpunk"],
          "negative_tags": ["low quality", ""],
          "count_recommend": 120,
          "r18_policy": "include_blurred",
          "confidence": 0.82
        }"#,
        &input,
        "deepseek-v4-flash",
    )
    .unwrap();

    assert_eq!(plan.tags, vec!["blue hair", "cyberpunk", "girl"]);
    assert_eq!(plan.negative_tags, vec!["low quality"]);
    assert_eq!(plan.count_recommend, 100);
    assert_eq!(plan.r18_policy, R18Policy::Exclude);
    assert_eq!(plan.model, "deepseek-v4-flash");
}

#[test]
fn req_ai_001_accepts_single_string_tags_from_deepseek() {
    let input = SmartParseInput {
        prompt: "一些白丝的图片".to_owned(),
        count_hint: 20,
        max_count: 100,
        r18_policy: R18Policy::Exclude,
    };

    let plan = parse_smart_plan_json(
        r#"{
          "tags": "白タイツ",
          "negative_tags": "low quality",
          "count_recommend": 8,
          "r18_policy": "exclude",
          "confidence": 0.74
        }"#,
        &input,
        "deepseek-v4-flash",
    )
    .unwrap();

    assert_eq!(plan.tags, vec!["白タイツ"]);
    assert_eq!(plan.negative_tags, vec!["low quality"]);
    assert_eq!(plan.count_recommend, 8);
}

#[test]
fn req_ai_005_rejects_empty_deepseek_tag_plan() {
    let input = SmartParseInput {
        prompt: "anything".to_owned(),
        count_hint: 20,
        max_count: 100,
        r18_policy: R18Policy::Exclude,
    };

    let error = parse_smart_plan_json(
        r#"{"tags":[],"negative_tags":[],"confidence":0.5}"#,
        &input,
        "deepseek-v4-flash",
    )
    .unwrap_err();

    assert_eq!(error.code, ErrorCode::AiParseFailed);
}

#[test]
fn missing_count_uses_the_hint_and_zero_becomes_one() {
    let input = SmartParseInput { prompt: "x".to_owned(), count_hint: 7, max_count: 10, r18_policy: R18Policy::OnlyR18 };
    let plan = parse_smart_plan_json(r#"{"tags":["a"]}"#, &input, "m").unwrap();
    assert_eq!(plan.count_recommend, 7);
    assert_eq!(plan.r18_policy, R18Policy::OnlyR18);
    assert!(plan.negative_tags.is_empty());
    let plan = parse_smart_plan_json(r#"{"tags":["a"],"count_recommend":0}"#, &input, "m").unwrap();
    assert_eq!(plan.count_recommend, 1);
}

#[test]
fn reply_that_is_not_json_is_a_parse_failure() {
    let input = SmartParseInput { prompt: "x".to_owned(), count_hint: 7, max_count: 10, r18_policy: R18Policy::Exclude };
    let error = parse_smart_plan_json("not json", &input, "m").unwrap_err();
    assert_eq!(error.code, ErrorCode::AiParseFailed);
    let error = parse_smart_plan_json(r#"{"tags":[1,2]}"#, &input, "m").unwrap_err();
    assert_eq!(error.code, ErrorCode::AiParseFailed);
}

#[test]
fn user_prompt_and_request_body_carry_the_input() {
    let input = SmartParseInput { prompt: "cats".to_owned(), count_hint: 5, max_count: 9, r18_policy: R18Policy::Exclude };
    assert_eq!(
        smart_parse_user_prompt(&input),
        "Prompt: cats\nDefault count: 5\nMax count: 9\nDefault r18_policy: exclude\nReturn strict JSON."
    );
    let body: serde_json::Value = serde_json::from_str(&chat_request_json("deepseek-v4-flash", &input)).unwrap();
    assert_eq!(body["model"], "deepseek-v4-flash");
    assert_eq!(body["messages"][1]["content"], smart_parse_user_prompt(&input).as_str());
    assert_eq!(body["response_format"]["type"], "json_object");
}

#[test]
fn endpoints_drop_trailing_slashes() {
    assert_eq!(deepseek_url("https://api.deepseek.com//", "/models"), "https://api.deepseek.com/models");
    assert_eq!(deepseek_url("https://x", "/chat/completions"), "https://x/chat/completions");
}

#[test]
fn connection_is_ok_only_when_the_model_is_listed() {
    let ids = vec!["a".to_owned(), "deepseek-v4-flash".to_owned()];
    assert_eq!(connection_status(&ids, "deepseek-v4-flash").status, "ok");
    assert_eq!(connection_status(&ids, "other").status, "model_not_listed");
}

#[test]
fn failing_parse_reply_status_is_refused() {
    let input = pixiv_platform_backend::ai::SmartParseInput {
        prompt: "blue".to_owned(),
        count_hint: 5,
        max_count: 10,
        r18_policy: pixiv_platform_backend::domain::R18Policy::Exclude,
    };
    let error = pixiv_platform_backend::ai::smart_plan_from_reply(500, "500 Internal Server Error", "{}", &input, "m")
        .unwrap_err();
    assert_eq!(error.code, pixiv_platform_backend::errors::ErrorCode::AiParseFailed);
    assert_eq!(error.message, "DeepSeek parse failed with status 500 Internal Server Error");
}

#[test]
fn parse_reply_content_becomes_the_plan() {
    let input = pixiv_platform_backend::ai::SmartParseInput {
        prompt: "blue".to_owned(),
        count_hint: 5,
        max_count: 10,
        r18_policy: pixiv_platform_backend::domain::R18Policy::Exclude,
    };
    let body = r#"{"choices":[{"message":{"content":"{\"tags\":[\"blue hair\",\" \",\"blue hair\"],\"count_recommend\":50}"}}]}"#;
    let plan = pixiv_platform_backend::ai::smart_plan_from_reply(200, "200 OK", body, &input, "m").unwrap();
    assert_eq!(plan.tags, vec!["blue hair".to_owned()]);
    assert_eq!(plan.count_recommend, 10);
    assert_eq!(plan.model, "m");
    let empty = pixiv_platform_backend::ai::smart_plan_from_reply(200, "200 OK", r#"{"choices":[]}"#, &input, "m");
    assert!(empty.is_err());
}

#[test]
fn model_list_reply_tells_whether_the_model_is_listed() {
    let body = r#"{"data":[{"id":"deepseek-chat"},{"id":"deepseek-v4-flash"}]}"#;
    let listed = connection_status_from_reply(200, "200 OK", body, "deepseek-v4-flash").unwrap();
    assert_eq!(listed.status, "ok");
    let unlisted = connection_status_from_reply(200, "200 OK", body, "other").unwrap();
    assert_eq!(unlisted.status, "model_not_listed");
    let refused = connection_status_from_reply(401, "401 Unauthorized", body, "other").unwrap_err();
    assert_eq!(refused.code, pixiv_platform_backend::errors::ErrorCode::AiConfigMissing);
    assert_eq!(refused.message, "DeepSeek connection failed with status 401 Unauthorized");
    let broken = connection_status_from_reply(200, "200 OK", r#"{"data":[{"name":"x"}]}"#, "other");
    assert!(broken.is_err());
}

#[test]
fn malformed_plan_members_are_refused_in_order() {
    let input = SmartParseInput { prompt: "x".to_owned(), count_hint: 7, max_count: 10, r18_policy: R18Policy::Exclude };
    let cases = [
        ("[1]", "DeepSeek plan is not a JSON object"),
        (r#"{"negative_tags":[]}"#, "DeepSeek plan is missing tags"),
        (r#"{"tags":"a","negative_tags":5}"#, "DeepSeek plan negative_tags must be a string or a list of strings"),
        (r#"{"tags":"a","count_recommend":5000000000}"#, "DeepSeek plan count_recommend is out of range"),
        (r#"{"tags":"a","count_recommend":"3"}"#, "DeepSeek plan count_recommend must be a whole number"),
        (r#"{"tags":"a","r18_policy":1}"#, "DeepSeek plan r18_policy must be a string"),
        (r#"{"tags":"a","confidence":"high"}"#, "DeepSeek plan confidence must be a number"),
    ];
    for (content, message) in cases {
        let error = parse_smart_plan_json(content, &input, "m").unwrap_err();
        assert_eq!(error.code, ErrorCode::AiParseFailed);
        assert_eq!(error.message, message);
    }
    let plan = parse_smart_plan_json(r#"{"tags":" blue ","negative_tags":null,"count_recommend":null,"r18_policy":null,"confidence":0.5}"#, &input, "m").unwrap();
    assert_eq!(plan.tags, vec!["blue".to_owned()]);
    assert_eq!(plan.count_recommend, 7);
}
