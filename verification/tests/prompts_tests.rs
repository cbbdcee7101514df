use novelseek::prompts::{
    chapter_promo_request_prompt, chapter_request_prompt, chapter_stream_prompt,
    chapter_stream_system_prompt, chapter_system_prompt, character_appearance_request_prompt,
    character_portrait_request_prompt, default_revision_goals, illustration_request_prompt,
    outline_request_prompt, outline_system_prompt, prologue_request_prompt,
    revision_request_prompt, revision_system_prompt, tweet_request_prompt, tweet_system_prompt,
};

#[test]
fn predefined_system_prompts_have_their_openings() {
    assert!(outline_system_prompt().starts_with("你是一位专业的小说策划师和编剧。"));
    assert!(chapter_system_prompt().starts_with("你是一位优秀的小说作者。"));
    assert!(revision_system_prompt().starts_with("你是一位专业的文学编辑。"));
    assert!(tweet_system_prompt().starts_with("你是一位擅长内容营销的编辑。"));
    assert!(chapter_stream_system_prompt().contains("【最重要的规则 - 必须严格遵守】"));
}

#[test]
fn outline_request_shape() {
    let p = outline_request_prompt("书", "体", "介", 20);
    let expected = format!(
        r#"请为以下小说创建详细大纲：

书名：{}
题材：{}
简介：{}
目标章节数：{}

请生成包含以下内容的大纲：
1. 故事梗概（200字左右）
2. 核心冲突
3. 主要角色（3-5个，含简介和动机）
4. 三幕结构规划
5. 每章大纲（包含章节标题、目标、冲突点、信息增量）

请以结构化的方式输出，便于后续处理。"#,
        "书", "体", "介", 20
    );
    assert_eq!(p, expected);
}

#[test]
fn chapter_request_shape_with_all_context() {
    let p = chapter_request_prompt("标题", "目标", "冲突", Some("前情"), Some("人物"), Some("世界"));
    let mut expected = format!(
        r#"请撰写以下章节：

章节标题：{}
本章目标：{}
核心冲突：{}
"#,
        "标题", "目标", "冲突"
    );
    expected.push_str(&format!("\n前情提要：\n{}\n", "前情"));
    expected.push_str(&format!("\n人物信息：\n{}\n", "人物"));
    expected.push_str(&format!("\n世界观：\n{}\n", "世界"));
    expected.push_str("\n请撰写完整章节内容（3000-5000字），注意：\n");
    expected.push_str("1. 保持人物性格一致\n");
    expected.push_str("2. 场景描写要有画面感\n");
    expected.push_str("3. 对话要自然生动\n");
    expected.push_str("4. 章节结尾留悬念\n");
    assert_eq!(p, expected);
}

#[test]
fn chapter_request_shape_without_context() {
    let p = chapter_request_prompt("t", "g", "c", None, None, None);
    assert!(!p.contains("前情提要"));
    assert!(!p.contains("人物信息"));
    assert!(!p.contains("世界观"));
    assert!(p.contains("章节标题：t\n本章目标：g\n核心冲突：c\n"));
}

#[test]
fn prologue_request_shape() {
    let p = prologue_request_prompt("书", "体", "大纲全文");
    let expected = format!(
        r#"请根据以下小说大纲生成一篇序章（引子），要求：
1. 与整体故事风格一致，能快速建立世界观与氛围
2. 为后续主线埋下伏笔或引出核心冲突
3. 输出中文小说正文，不使用任何 Markdown
4. 字数约 800-1500 字

书名：{}
题材：{}

小说大纲：
{}"#,
        "书", "体", "大纲全文"
    );
    assert_eq!(p, expected);
}

#[test]
fn revision_request_shape() {
    let p = revision_request_prompt("原文内容", "更紧凑");
    let expected = format!(
        r#"请润色以下文本：

修订目标：
{}

原文：
{}

请输出改进后的版本。"#,
        "更紧凑", "原文内容"
    );
    assert_eq!(p, expected);
    assert_eq!(default_revision_goals(), "润色并保持原意，使表达更自然流畅");
}

#[test]
fn tweet_request_shape() {
    let p = tweet_request_prompt("章节全文");
    let expected = format!(
        r#"请为以下章节创建推文内容：

章节内容：
{}

请输出：
1. 标题（吸引眼球）
2. 摘要（50-100字）
3. 金句（可引用的片段）
4. 悬念钩子（引导读者继续）"#,
        "章节全文"
    );
    assert_eq!(p, expected);
}

#[test]
fn fresh_chapter_stream_prompt_shape() {
    let p = chapter_stream_prompt(
        "标题",
        "目标",
        "冲突",
        Some("上一章结尾"),
        None,
        Some("角色表"),
        Some("世界观设定"),
        Some("时间线"),
        Some(3000),
        Some(false),
    );
    // The binding context comes first, in world / timeline / characters order.
    let world_at = p.find("世界观设定，生成内容时必须保持一致").unwrap();
    let timeline_at = p.find("时间线，生成内容时必须保持时间顺序一致").unwrap();
    let chars_at = p.find("角色设定，生成内容时必须保持角色身份").unwrap();
    assert!(world_at < timeline_at && timeline_at < chars_at);
    assert!(p.contains("请撰写以下章节：\n\n章节标题：标题\n本章目标：目标\n核心冲突：冲突\n"));
    assert!(p.contains("\n【前一章结尾内容】（请自然衔接，不要重复）\n上一章结尾\n\n"));
    assert!(p.contains("1. 本次生成约3000字"));
    assert!(p.ends_with("请直接开始撰写章节内容："));
}

#[test]
fn continuation_chapter_stream_prompt_shape() {
    let p = chapter_stream_prompt(
        "标题",
        "目标",
        "冲突",
        None,
        Some("已有正文结尾"),
        None,
        None,
        None,
        None,
        Some(true),
    );
    assert!(p.starts_with("请续写以下小说章节内容。\n\n章节标题：标题\n本章目标：目标\n\n【已有内容结尾】\n已有正文结尾"));
    // The word target falls back to its stock value.
    assert!(p.contains("3. 本次续写约2500字"));
    assert!(p.ends_with("请直接续写内容，不要添加任何说明或标记："));
    // A continuation without existing content marks it as absent.
    let empty = chapter_stream_prompt("t", "g", "c", None, None, None, None, None, None, Some(true));
    assert!(empty.contains("【已有内容结尾】\n（无）"));
}

#[test]
fn illustration_request_shape() {
    let p = illustration_request_prompt("一段小说文字", Some("水墨"));
    assert!(p.starts_with("你是专业的AI绘图提示词工程师。"));
    assert!(p.contains("\n用户指定的图片风格（可能包含中文，请先翻译为英文再使用）：\n水墨"));
    assert!(p.contains("段落内容：\n一段小说文字"));
    assert!(p.ends_with("请严格按JSON格式输出：\n{\"image_prompt\": \"your English prompt here\"}"));

    let no_style = illustration_request_prompt("文字", Some("  "));
    assert!(!no_style.contains("用户指定的图片风格"));

    let long_text = "字".repeat(3005);
    let clipped = illustration_request_prompt(&long_text, None);
    assert!(clipped.contains(&format!("{}...", "字".repeat(3000))));
}

#[test]
fn promo_request_shape() {
    let p = chapter_promo_request_prompt("第十章", "章节正文");
    assert!(p.starts_with("你是一位专业的小说营销专家。请根据以下章节内容，完成两项任务：\n\n## 章节标题\n第十章\n\n## 章节内容\n章节正文"));
    assert!(p.contains("### 任务1：生成摘要"));
    assert!(p.contains("### 任务2：生成图片提示词"));
    assert!(p.ends_with("{\"summary\": \"中文摘要内容\", \"image_prompt\": \"English image prompt here\"}"));
}

#[test]
fn character_appearance_request_shape() {
    let p = character_appearance_request_prompt(
        " 李雷 ",
        Some(" 主角 "),
        Some("坚毅"),
        None,
        Some("寻亲"),
        Some(" 写实 "),
    );
    assert!(p.contains("角色名称：李雷\n身份：主角\n性格：坚毅\n背景：\n动机：寻亲\n"));
    assert!(p.contains("用户偏好风格（可能是中文，请先理解再转成英文风格词）：写实"));
    assert!(p.ends_with("{\"appearance\":\"中文形象文本\",\"image_prompt\":\"English prompt\"}\n"));
}

#[test]
fn character_portrait_request_shape() {
    let p = character_portrait_request_prompt(
        "韩梅梅",
        Some("短发"),
        None,
        None,
        None,
        None,
        None,
    );
    assert!(p.contains("角色名称：韩梅梅\n形象描述：短发\n身份：\n性格：\n背景：\n动机：\n"));
    assert!(p.ends_with("- 严格输出 JSON：{\"image_prompt\":\"English prompt\"}\n"));
}
