use novelseek::models::{
    count_words, normalize_project_language, ApiConfig, ChapterService, CreateChapterInput,
    CreateProjectInput, ProjectService,
};
use novelseek::relay::check_status;

#[test]
fn language_normalization() {
    assert_eq!(normalize_project_language(Some(" EN ")), "en");
    assert_eq!(normalize_project_language(Some("\u{3000}en")), "en");
    assert_eq!(normalize_project_language(Some("En")), "en");
    assert_eq!(normalize_project_language(Some("zh")), "zh");
    assert_eq!(normalize_project_language(Some("fr")), "zh");
    assert_eq!(normalize_project_language(None), "zh");
}

#[test]
fn new_project_record() {
    let p = ProjectService::new_project(CreateProjectInput {
        title: "星海".to_string(),
        author: Some("作者".to_string()),
        genre: None,
        description: Some("简介".to_string()),
        language: Some("EN".to_string()),
        target_word_count: Some(100000),
        cover_images: None,
        default_cover_id: None,
    });
    assert_eq!(p.id.len(), 36);
    assert_eq!(p.title, "星海");
    assert_eq!(p.language, "en");
    assert_eq!(p.current_word_count, 0);
    assert_eq!(p.status, "draft");
    assert_eq!(p.created_at, p.updated_at);
    assert_eq!(p.target_word_count, Some(100000));
}

#[test]
fn new_chapter_record() {
    let c = ChapterService::new_chapter(CreateChapterInput {
        project_id: "pid".to_string(),
        title: "第一章".to_string(),
        order_index: 1,
        outline_goal: Some("引入".to_string()),
        conflict: None,
    });
    assert_eq!(c.id.len(), 36);
    assert_eq!(c.project_id, "pid");
    assert_eq!(c.order_index, 1);
    assert!(c.draft_text.is_none());
    assert!(c.final_text.is_none());
    assert!(c.illustrations.is_none());
    assert_eq!(c.word_count, 0);
    assert_eq!(c.status, "draft");
    assert_eq!(c.created_at, c.updated_at);
}

#[test]
fn word_counting_skips_whitespace() {
    assert_eq!(count_words(""), 0);
    assert_eq!(count_words("你好 世界\n"), 4);
    assert_eq!(count_words("你\u{3000}好"), 2);
    assert_eq!(count_words("a b\tc"), 3);
}

#[test]
fn updated_word_count_prefers_the_final_text() {
    assert_eq!(ChapterService::updated_word_count(Some("one two"), Some("最终稿")), 3);
    assert_eq!(ChapterService::updated_word_count(Some("草稿四字"), None), 4);
    assert_eq!(ChapterService::updated_word_count(None, None), 0);
}

#[test]
fn api_config_defaults() {
    let c = ApiConfig::default();
    assert!(c.deepseek_api_key.is_none());
    assert_eq!(c.deepseek_base_url, "https://api.deepseek.com/v1");
    assert_eq!(c.deepseek_model, "deepseek-chat");
    assert!(c.pollinations_api_key.is_none());
    assert_eq!(c.pollinations_base_url, "https://image.pollinations.ai");
}

#[test]
fn status_check_accepts_exactly_the_success_range() {
    assert!(check_status(200, String::new()).is_ok());
    assert!(check_status(299, String::new()).is_ok());
    for status in [199u16, 300, 302, 404, 500] {
        match check_status(status, "body text".to_string()) {
            Err(e) => assert_eq!(e.message(), "API错误: body text"),
            Ok(()) => panic!("status {} must be rejected", status),
        }
    }
}
