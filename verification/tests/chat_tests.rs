use novelseek::chat::{
    build_messages, chat_completions_url, chat_request_body, clean_json_fences, validate_text_config,
    extract_character_appearance, extract_chapter_promo, extract_illustration_prompt,
    extract_portrait_prompt, first_choice_content, normalized_api_base_url, ChatCompletionResponse,
    ChatMessage, Choice,
};
use novelseek::relay::GenError;

#[test]
fn messages_put_the_system_prompt_first() {
    let msgs = build_messages(Some("sys"), "user text");
    assert_eq!(msgs.len(), 2);
    assert_eq!(msgs[0].role, "system");
    assert_eq!(msgs[0].content, "sys");
    assert_eq!(msgs[1].role, "user");
    assert_eq!(msgs[1].content, "user text");

    let bare = build_messages(None, "only");
    assert_eq!(bare.len(), 1);
    assert_eq!(bare[0].role, "user");
}

#[test]
fn first_choice_is_extracted() {
    let resp = ChatCompletionResponse {
        id: "r1".to_string(),
        choices: vec![Choice {
            index: 0,
            message: ChatMessage { role: "assistant".to_string(), content: "答复".to_string() },
            finish_reason: Some("stop".to_string()),
        }],
        usage: None,
    };
    assert_eq!(first_choice_content(&resp).unwrap(), "答复");

    let empty = ChatCompletionResponse { id: "r2".to_string(), choices: vec![], usage: None };
    match first_choice_content(&empty) {
        Err(GenError::Upstream(m)) => assert_eq!(m, "No choices in response"),
        _ => panic!("expected an upstream error"),
    }
}

#[test]
fn request_body_is_valid_json_with_the_right_fields() {
    let body = chat_request_body(
        "deepseek-chat",
        "系统\n\"提示\"",
        "用户\t内容\\",
        8,
        8000,
        true,
    );
    let v: serde_json::Value = serde_json::from_str(&body).expect("body must parse");
    assert_eq!(v["model"], "deepseek-chat");
    assert_eq!(v["messages"][0]["role"], "system");
    assert_eq!(v["messages"][0]["content"], "系统\n\"提示\"");
    assert_eq!(v["messages"][1]["role"], "user");
    assert_eq!(v["messages"][1]["content"], "用户\t内容\\");
    assert_eq!(v["temperature"].as_f64().unwrap(), 0.8);
    assert_eq!(v["max_tokens"], 8000);
    assert_eq!(v["stream"], true);
}

#[test]
fn non_streaming_body_omits_the_stream_flag() {
    let body = chat_request_body("m", "s", "u", 15, 400, false);
    let v: serde_json::Value = serde_json::from_str(&body).expect("body must parse");
    assert!(v.get("stream").is_none());
    assert_eq!(v["temperature"].as_f64().unwrap(), 1.5);
}

#[test]
fn base_url_normalization() {
    assert_eq!(normalized_api_base_url("  https://api.example.com/v1/  "), "https://api.example.com/v1");
    assert_eq!(chat_completions_url("https://api.example.com/v1/"), "https://api.example.com/v1/chat/completions");
    assert_eq!(
        chat_completions_url("https://api.example.com/v1/chat/completions"),
        "https://api.example.com/v1/chat/completions"
    );
}

#[test]
fn fences_are_peeled() {
    assert_eq!(clean_json_fences("```json\n{\"a\":1}\n```"), "{\"a\":1}");
    assert_eq!(clean_json_fences("  {\"a\":1}  "), "{\"a\":1}");
    assert_eq!(clean_json_fences("```{\"a\":1}```"), "{\"a\":1}");
}

#[test]
fn illustration_prompt_is_extracted() {
    let got = extract_illustration_prompt("```json\n{\"image_prompt\": \"a lone ship\"}\n```");
    assert_eq!(got.unwrap(), "a lone ship");
}

#[test]
fn illustration_prompt_falls_back_when_missing() {
    let got = extract_illustration_prompt("{\"other\": 1}");
    assert_eq!(
        got.unwrap(),
        "A cinematic book illustration, dramatic lighting, highly detailed"
    );
}

#[test]
fn illustration_prompt_rejects_garbage() {
    let got = extract_illustration_prompt("not json at all");
    let msg = got.unwrap_err();
    assert!(msg.starts_with("解析AI返回的JSON失败。原始内容: not json at all"));
}

#[test]
fn promo_extraction_with_fallbacks() {
    let full = extract_chapter_promo("{\"summary\": \"看点\", \"image_prompt\": \"a scene\"}").unwrap();
    assert_eq!(full.summary, "看点");
    assert_eq!(full.image_prompt, "a scene");
    assert!(full.image_base64.is_none());

    let partial = extract_chapter_promo("{\"summary\": \"只有摘要\"}").unwrap();
    assert_eq!(partial.summary, "只有摘要");
    assert_eq!(
        partial.image_prompt,
        "A dramatic scene from a novel, cinematic lighting, high quality illustration"
    );

    let none = extract_chapter_promo("{}").unwrap();
    assert_eq!(none.summary, "摘要生成失败");

    assert!(extract_chapter_promo("oops").is_err());
}

#[test]
fn character_appearance_extraction() {
    let ok = extract_character_appearance(
        "{\"appearance\": \" 高瘦，黑发 \", \"image_prompt\": \" studio shot \"}",
    )
    .unwrap();
    assert_eq!(ok.appearance, "高瘦，黑发");
    assert_eq!(ok.image_prompt, "studio shot");

    let empty = extract_character_appearance("{\"appearance\": \"  \"}");
    assert_eq!(empty.unwrap_err(), "AI 未返回有效的人物形象文本");

    let garbage = extract_character_appearance("nope");
    assert!(garbage.unwrap_err().starts_with("解析 AI 返回 JSON 失败。原始内容: nope"));

    let defaulted = extract_character_appearance("{\"appearance\": \"甲\"}").unwrap();
    assert_eq!(
        defaulted.image_prompt,
        "studio portrait, one-inch ID photo, clean background, realistic, high detail"
    );
}

#[test]
fn portrait_prompt_extraction() {
    let ok = extract_portrait_prompt("{\"image_prompt\": \"close portrait\"}").unwrap();
    assert_eq!(ok.image_prompt, "close portrait");

    let fallback = extract_portrait_prompt("{}").unwrap();
    assert_eq!(
        fallback.image_prompt,
        "studio portrait, one-inch ID photo, clean background, realistic, high detail"
    );

    let blank = extract_portrait_prompt("{\"image_prompt\": \"  \"}");
    assert_eq!(blank.unwrap_err(), "AI 未返回有效的人像提示词");

    assert!(extract_portrait_prompt("x").is_err());
}

#[test]
fn text_config_validation_names_the_first_missing_field() {
    assert_eq!(validate_text_config("  ", "url", "m").unwrap_err().message(), "API Key 不能为空");
    assert_eq!(validate_text_config("k", " ", "m").unwrap_err().message(), "API URL 不能为空");
    assert_eq!(validate_text_config("k", "u", "\t").unwrap_err().message(), "模型名称不能为空");
    assert!(validate_text_config("k", "u", "m").is_ok());
    assert!(matches!(
        validate_text_config("", "u", "m"),
        Err(GenError::Config(_))
    ));
    assert_eq!(GenError::Transport("网络断开".to_string()).message(), "网络断开");
}
