//! Prompt assembly for the non-streaming generation operations.
//!
//! Chapter prose, prologue, revision and tweet generation are single
//! request/response calls without a continuation loop: their token ceiling is
//! set generously and a truncated reply is accepted as a known limitation,
//! surfaced as returned text that may be incomplete. That asymmetry with
//! outline generation (which does converge by continuation rounds) is
//! deliberate.

use vstd::prelude::*;
use crate::text::{clip_spec, trim_spec};

verus! {

/// The system prompt of outline generation (non-streaming path).
pub fn outline_system_prompt() -> (r: String)
    ensures
        r@ == "你是一位专业的小说策划师和编剧。你的任务是根据用户提供的题材、风格和要求，创建详细的小说大纲。

大纲应该包含：
1. 故事主线和核心冲突
2. 主要角色及其动机
3. 三幕式结构（起因、发展、高潮、结局）
4. 关键转折点和悬念设置
5. 每一章的目标和冲突点

请确保大纲具有：
- 清晰的故事线
- 角色成长弧线
- 节奏控制
- 情感张力"@,
{
    String::from_str(
        "你是一位专业的小说策划师和编剧。你的任务是根据用户提供的题材、风格和要求，创建详细的小说大纲。

大纲应该包含：
1. 故事主线和核心冲突
2. 主要角色及其动机
3. 三幕式结构（起因、发展、高潮、结局）
4. 关键转折点和悬念设置
5. 每一章的目标和冲突点

请确保大纲具有：
- 清晰的故事线
- 角色成长弧线
- 节奏控制
- 情感张力",
    )
}

/// The system prompt of chapter prose generation.
pub fn chapter_system_prompt() -> (r: String)
    ensures
        r@ == "你是一位优秀的小说作者。你的任务是根据大纲和章节目标，撰写引人入胜的章节内容。

写作要求：
1. 保持人物性格一致
2. 遵循既定的世界观设定
3. 注重场景描写和画面感
4. 对话要符合人物口吻
5. 保持叙述节奏，张弛有度
6. 每章结尾留下悬念或钩子

写作风格：
- 避免AI痕迹（减少\"然而\"、\"不禁\"等词汇）
- 使用具体细节而非笼统描述
- 展示而非告知（Show, don't tell）
- 保持语言简洁有力"@,
{
    String::from_str(
        "你是一位优秀的小说作者。你的任务是根据大纲和章节目标，撰写引人入胜的章节内容。

写作要求：
1. 保持人物性格一致
2. 遵循既定的世界观设定
3. 注重场景描写和画面感
4. 对话要符合人物口吻
5. 保持叙述节奏，张弛有度
6. 每章结尾留下悬念或钩子

写作风格：
- 避免AI痕迹（减少\"然而\"、\"不禁\"等词汇）
- 使用具体细节而非笼统描述
- 展示而非告知（Show, don't tell）
- 保持语言简洁有力",
    )
}

/// The system prompt of text revision.
pub fn revision_system_prompt() -> (r: String)
    ensures
        r@ == "你是一位专业的文学编辑。你的任务是润色和改进文本，使其更加精炼和有感染力。

润色重点：
1. 消除重复和冗余
2. 增强画面感和代入感
3. 优化对话的真实性
4. 统一叙述风格
5. 修复逻辑漏洞和设定冲突
6. 去除AI写作痕迹

保持原文的：
- 核心情节和人物
- 整体风格和语气
- 关键信息点"@,
{
    String::from_str(
        "你是一位专业的文学编辑。你的任务是润色和改进文本，使其更加精炼和有感染力。

润色重点：
1. 消除重复和冗余
2. 增强画面感和代入感
3. 优化对话的真实性
4. 统一叙述风格
5. 修复逻辑漏洞和设定冲突
6. 去除AI写作痕迹

保持原文的：
- 核心情节和人物
- 整体风格和语气
- 关键信息点",
    )
}

/// The system prompt of tweet generation.
pub fn tweet_system_prompt() -> (r: String)
    ensures
        r@ == "你是一位擅长内容营销的编辑。你的任务是为小说章节创建吸引人的推文内容。

推文要求：
1. 提炼章节核心看点
2. 制造悬念和好奇心
3. 突出情感冲突或反转
4. 适合社交媒体传播
5. 不剧透关键情节

输出格式：
- 标题（吸睛）
- 摘要（50-100字）
- 金句（可引用的精彩片段）
- 悬念钩子（引导读者继续阅读）"@,
{
    String::from_str(
        "你是一位擅长内容营销的编辑。你的任务是为小说章节创建吸引人的推文内容。

推文要求：
1. 提炼章节核心看点
2. 制造悬念和好奇心
3. 突出情感冲突或反转
4. 适合社交媒体传播
5. 不剧透关键情节

输出格式：
- 标题（吸睛）
- 摘要（50-100字）
- 金句（可引用的精彩片段）
- 悬念钩子（引导读者继续阅读）",
    )
}

/// The user prompt of non-streaming outline generation.
pub open spec fn outline_request_spec(
    title: Seq<char>,
    genre: Seq<char>,
    description: Seq<char>,
    target: nat,
) -> Seq<char> {
    "请为以下小说创建详细大纲：\n\n书名："@ + title + "\n题材："@ + genre + "\n简介："@
        + description + "\n目标章节数："@ + crate::text::dec_str(target)
        + "

请生成包含以下内容的大纲：
1. 故事梗概（200字左右）
2. 核心冲突
3. 主要角色（3-5个，含简介和动机）
4. 三幕结构规划
5. 每章大纲（包含章节标题、目标、冲突点、信息增量）

请以结构化的方式输出，便于后续处理。"@
}

/// Build the user prompt of non-streaming outline generation.
pub fn outline_request_prompt(
    title: &str,
    genre: &str,
    description: &str,
    target_chapters: u32,
) -> (r: String)
    ensures
        r@ == outline_request_spec(title@, genre@, description@, target_chapters as nat),
{
    let target = crate::text::u32_string(target_chapters);
    let mut r = String::new();
    r.append("请为以下小说创建详细大纲：\n\n书名：");
    r.append(title);
    r.append("\n题材：");
    r.append(genre);
    r.append("\n简介：");
    r.append(description);
    r.append("\n目标章节数：");
    r.append(target.as_str());
    r.append(
        "

请生成包含以下内容的大纲：
1. 故事梗概（200字左右）
2. 核心冲突
3. 主要角色（3-5个，含简介和动机）
4. 三幕结构规划
5. 每章大纲（包含章节标题、目标、冲突点、信息增量）

请以结构化的方式输出，便于后续处理。",
    );
    proof {
        assert(r@ =~= outline_request_spec(title@, genre@, description@, target_chapters as nat));
    }
    r
}

/// The user prompt of chapter prose generation: title, goal and conflict,
/// then whatever context is known, then the writing instructions.
pub open spec fn chapter_request_spec(
    chapter_title: Seq<char>,
    outline_goal: Seq<char>,
    conflict: Seq<char>,
    previous_summary: Option<Seq<char>>,
    character_info: Option<Seq<char>>,
    world_info: Option<Seq<char>>,
) -> Seq<char> {
    "请撰写以下章节：\n\n章节标题："@ + chapter_title + "\n本章目标："@ + outline_goal
        + "\n核心冲突："@ + conflict + "\n"@ + (match previous_summary {
        Some(s) => "\n前情提要：\n"@ + s + "\n"@,
        None => Seq::<char>::empty(),
    }) + (match character_info {
        Some(s) => "\n人物信息：\n"@ + s + "\n"@,
        None => Seq::<char>::empty(),
    }) + (match world_info {
        Some(s) => "\n世界观：\n"@ + s + "\n"@,
        None => Seq::<char>::empty(),
    })
        + "\n请撰写完整章节内容（3000-5000字），注意：\n1. 保持人物性格一致\n2. 场景描写要有画面感\n3. 对话要自然生动\n4. 章节结尾留悬念\n"@
}

/// Build the user prompt of chapter prose generation.
pub fn chapter_request_prompt(
    chapter_title: &str,
    outline_goal: &str,
    conflict: &str,
    previous_summary: Option<&str>,
    character_info: Option<&str>,
    world_info: Option<&str>,
) -> (r: String)
    ensures
        r@ == chapter_request_spec(
            chapter_title@,
            outline_goal@,
            conflict@,
            match previous_summary {
                Some(s) => Some(s@),
                None => None,
            },
            match character_info {
                Some(s) => Some(s@),
                None => None,
            },
            match world_info {
                Some(s) => Some(s@),
                None => None,
            },
        ),
{
    let mut r = String::new();
    r.append("请撰写以下章节：\n\n章节标题：");
    r.append(chapter_title);
    r.append("\n本章目标：");
    r.append(outline_goal);
    r.append("\n核心冲突：");
    r.append(conflict);
    r.append("\n");
    match previous_summary {
        Some(s) => {
            r.append("\n前情提要：\n");
            r.append(s);
            r.append("\n");
        },
        None => {},
    }
    match character_info {
        Some(s) => {
            r.append("\n人物信息：\n");
            r.append(s);
            r.append("\n");
        },
        None => {},
    }
    match world_info {
        Some(s) => {
            r.append("\n世界观：\n");
            r.append(s);
            r.append("\n");
        },
        None => {},
    }
    r.append(
        "\n请撰写完整章节内容（3000-5000字），注意：\n1. 保持人物性格一致\n2. 场景描写要有画面感\n3. 对话要自然生动\n4. 章节结尾留悬念\n",
    );
    proof {
        assert(r@ =~= chapter_request_spec(
            chapter_title@,
            outline_goal@,
            conflict@,
            match previous_summary {
                Some(s) => Some(s@),
                None => None::<Seq<char>>,
            },
            match character_info {
                Some(s) => Some(s@),
                None => None::<Seq<char>>,
            },
            match world_info {
                Some(s) => Some(s@),
                None => None::<Seq<char>>,
            },
        ));
    }
    r
}

/// The user prompt of prologue generation.
pub open spec fn prologue_request_spec(
    title: Seq<char>,
    genre: Seq<char>,
    outline: Seq<char>,
) -> Seq<char> {
    "请根据以下小说大纲生成一篇序章（引子），要求：
1. 与整体故事风格一致，能快速建立世界观与氛围
2. 为后续主线埋下伏笔或引出核心冲突
3. 输出中文小说正文，不使用任何 Markdown
4. 字数约 800-1500 字

书名："@ + title + "\n题材："@ + genre + "\n\n小说大纲：\n"@ + outline
}

/// Build the user prompt of prologue generation.
pub fn prologue_request_prompt(title: &str, genre: &str, outline: &str) -> (r: String)
    ensures
        r@ == prologue_request_spec(title@, genre@, outline@),
{
    let mut r = String::new();
    r.append(
        "请根据以下小说大纲生成一篇序章（引子），要求：
1. 与整体故事风格一致，能快速建立世界观与氛围
2. 为后续主线埋下伏笔或引出核心冲突
3. 输出中文小说正文，不使用任何 Markdown
4. 字数约 800-1500 字

书名：",
    );
    r.append(title);
    r.append("\n题材：");
    r.append(genre);
    r.append("\n\n小说大纲：\n");
    r.append(outline);
    proof {
        assert(r@ =~= prologue_request_spec(title@, genre@, outline@));
    }
    r
}

/// The user prompt of text revision.
pub open spec fn revision_request_spec(original_text: Seq<char>, goals: Seq<char>) -> Seq<char> {
    "请润色以下文本：\n\n修订目标：\n"@ + goals + "\n\n原文：\n"@ + original_text
        + "\n\n请输出改进后的版本。"@
}

/// Build the user prompt of text revision.
pub fn revision_request_prompt(original_text: &str, revision_goals: &str) -> (r: String)
    ensures
        r@ == revision_request_spec(original_text@, revision_goals@),
{
    let mut r = String::new();
    r.append("请润色以下文本：\n\n修订目标：\n");
    r.append(revision_goals);
    r.append("\n\n原文：\n");
    r.append(original_text);
    r.append("\n\n请输出改进后的版本。");
    proof {
        assert(r@ =~= revision_request_spec(original_text@, revision_goals@));
    }
    r
}

/// The revision goals used when the caller states none.
pub fn default_revision_goals() -> (r: String)
    ensures
        r@ == "润色并保持原意，使表达更自然流畅"@,
{
    String::from_str("润色并保持原意，使表达更自然流畅")
}

/// The user prompt of tweet generation.
pub open spec fn tweet_request_spec(chapter_content: Seq<char>) -> Seq<char> {
    "请为以下章节创建推文内容：\n\n章节内容：\n"@ + chapter_content
        + "

请输出：
1. 标题（吸引眼球）
2. 摘要（50-100字）
3. 金句（可引用的片段）
4. 悬念钩子（引导读者继续）"@
}

/// Build the user prompt of tweet generation.
pub fn tweet_request_prompt(chapter_content: &str) -> (r: String)
    ensures
        r@ == tweet_request_spec(chapter_content@),
{
    let mut r = String::new();
    r.append("请为以下章节创建推文内容：\n\n章节内容：\n");
    r.append(chapter_content);
    r.append(
        "

请输出：
1. 标题（吸引眼球）
2. 摘要（50-100字）
3. 金句（可引用的片段）
4. 悬念钩子（引导读者继续）",
    );
    proof {
        assert(r@ =~= tweet_request_spec(chapter_content@));
    }
    r
}


/// The system prompt of streaming chapter generation.
pub fn chapter_stream_system_prompt() -> (r: String)
    ensures
        r@ == r#"你是一位优秀的小说作者。你的任务是根据大纲和章节目标，撰写引人入胜的章节内容。

【最重要的规则 - 必须严格遵守】
1. 世界观一致性：如果用户提供了世界观设定（时代背景、地理环境、社会结构、特殊规则、势力分布），你必须严格遵守，不得创造与设定矛盾的内容。
2. 时间线一致性：如果用户提供了时间线事件，你必须保持时间顺序一致，不得与已发生的历史事件冲突。
3. 角色一致性：如果用户提供了角色设定，你必须严格遵守每个角色的身份、性格、背景和动机，不得擅自更改。

核心原则：
1. 严格按照提供的世界观、时间线、角色设定创作，保持全书一致
2. 叙事连贯性 - 如果提供了前一章内容，必须自然衔接
3. 注重场景描写和画面感
4. 对话要符合人物口吻和性格设定
5. 保持叙述节奏，张弛有度

写作风格：
- 避免AI痕迹（减少"然而"、"不禁"、"心中暗想"等词汇）
- 使用具体细节而非笼统描述
- 展示而非告知（Show, don't tell）
- 保持语言简洁有力
- 不要使用任何markdown格式，输出纯小说正文"#@,
{
    String::from_str(
        r#"你是一位优秀的小说作者。你的任务是根据大纲和章节目标，撰写引人入胜的章节内容。

【最重要的规则 - 必须严格遵守】
1. 世界观一致性：如果用户提供了世界观设定（时代背景、地理环境、社会结构、特殊规则、势力分布），你必须严格遵守，不得创造与设定矛盾的内容。
2. 时间线一致性：如果用户提供了时间线事件，你必须保持时间顺序一致，不得与已发生的历史事件冲突。
3. 角色一致性：如果用户提供了角色设定，你必须严格遵守每个角色的身份、性格、背景和动机，不得擅自更改。

核心原则：
1. 严格按照提供的世界观、时间线、角色设定创作，保持全书一致
2. 叙事连贯性 - 如果提供了前一章内容，必须自然衔接
3. 注重场景描写和画面感
4. 对话要符合人物口吻和性格设定
5. 保持叙述节奏，张弛有度

写作风格：
- 避免AI痕迹（减少"然而"、"不禁"、"心中暗想"等词汇）
- 使用具体细节而非笼统描述
- 展示而非告知（Show, don't tell）
- 保持语言简洁有力
- 不要使用任何markdown格式，输出纯小说正文"#,
    )
}

/// The word target of a streaming chapter round when the caller names none.
pub const DEFAULT_CHAPTER_WORDS: u32 = 2500;

/// The context sections of a streaming chapter prompt: whatever of the world
/// setting, the timeline and the character sheets is known, each marked as
/// binding.
pub open spec fn chapter_context_spec(
    characters_info: Option<Seq<char>>,
    world_setting: Option<Seq<char>>,
    timeline: Option<Seq<char>>,
) -> Seq<char> {
    (match world_setting {
        Some(w) =>
            "【重要：世界观设定 - 必须严格遵守】\n以下是本小说的世界观设定，生成内容时必须保持一致，不得与设定冲突：\n\n"@
            + w + "\n\n"@,
        None => Seq::<char>::empty(),
    }) + (match timeline {
        Some(t) =>
            "【重要：时间线事件 - 必须严格遵守】\n以下是本小说的时间线，生成内容时必须保持时间顺序一致，不得与已发生的事件冲突：\n\n"@
            + t + "\n\n"@,
        None => Seq::<char>::empty(),
    }) + (match characters_info {
        Some(c) =>
            "【重要：角色设定 - 必须严格遵守】\n以下是本小说的角色设定，生成内容时必须保持角色身份、性格、背景完全一致，不得擅自更改：\n\n"@
            + c + "\n\n"@,
        None => Seq::<char>::empty(),
    })
}

/// Build the context sections of a streaming chapter prompt.
fn chapter_context(
    characters_info: Option<&str>,
    world_setting: Option<&str>,
    timeline: Option<&str>,
) -> (r: String)
    ensures
        r@ == chapter_context_spec(
            match characters_info {
                Some(s) => Some(s@),
                None => None,
            },
            match world_setting {
                Some(s) => Some(s@),
                None => None,
            },
            match timeline {
                Some(s) => Some(s@),
                None => None,
            },
        ),
{
    let mut r = String::new();
    match world_setting {
        Some(w) => {
            r.append(
                "【重要：世界观设定 - 必须严格遵守】\n以下是本小说的世界观设定，生成内容时必须保持一致，不得与设定冲突：\n\n",
            );
            r.append(w);
            r.append("\n\n");
        },
        None => {},
    }
    match timeline {
        Some(t) => {
            r.append(
                "【重要：时间线事件 - 必须严格遵守】\n以下是本小说的时间线，生成内容时必须保持时间顺序一致，不得与已发生的事件冲突：\n\n",
            );
            r.append(t);
            r.append("\n\n");
        },
        None => {},
    }
    match characters_info {
        Some(c) => {
            r.append(
                "【重要：角色设定 - 必须严格遵守】\n以下是本小说的角色设定，生成内容时必须保持角色身份、性格、背景完全一致，不得擅自更改：\n\n",
            );
            r.append(c);
            r.append("\n\n");
        },
        None => {},
    }
    proof {
        assert(r@ =~= chapter_context_spec(
            match characters_info {
                Some(s) => Some(s@),
                None => None::<Seq<char>>,
            },
            match world_setting {
                Some(s) => Some(s@),
                None => None::<Seq<char>>,
            },
            match timeline {
                Some(s) => Some(s@),
                None => None::<Seq<char>>,
            },
        ));
    }
    r
}

/// The continuation form of a streaming chapter round's user prompt.
pub open spec fn chapter_cont_body_spec(
    chapter_title: Seq<char>,
    outline_goal: Seq<char>,
    current_content: Option<Seq<char>>,
    words: nat,
) -> Seq<char> {
    "请续写以下小说章节内容。\n\n章节标题："@ + chapter_title + "\n本章目标："@
        + outline_goal + "\n\n【已有内容结尾】\n"@ + (match current_content {
        Some(c) => c,
        None => "（无）"@,
    })
        + "

请注意：
1. 自然衔接上文，不要重复已有内容
2. 继续推进剧情发展
3. 本次续写约"@ + crate::text::dec_str(words)
        + "字
4. 保持文风和节奏一致
5. 【重要】必须严格遵守上述世界观设定、时间线和角色设定，不得与之冲突
6. 不要使用markdown格式，直接输出小说正文

请直接续写内容，不要添加任何说明或标记："@
}

fn chapter_cont_body(
    chapter_title: &str,
    outline_goal: &str,
    current_content: Option<&str>,
    words: u32,
) -> (r: String)
    ensures
        r@ == chapter_cont_body_spec(
            chapter_title@,
            outline_goal@,
            match current_content {
                Some(s) => Some(s@),
                None => None,
            },
            words as nat,
        ),
{
    let words_s = crate::text::u32_string(words);
    let mut r = String::new();
    r.append("请续写以下小说章节内容。\n\n章节标题：");
    r.append(chapter_title);
    r.append("\n本章目标：");
    r.append(outline_goal);
    r.append("\n\n【已有内容结尾】\n");
    match current_content {
        Some(c) => {
            r.append(c);
        },
        None => {
            r.append("（无）");
        },
    }
    r.append(
        "

请注意：
1. 自然衔接上文，不要重复已有内容
2. 继续推进剧情发展
3. 本次续写约",
    );
    r.append(words_s.as_str());
    r.append(
        "字
4. 保持文风和节奏一致
5. 【重要】必须严格遵守上述世界观设定、时间线和角色设定，不得与之冲突
6. 不要使用markdown格式，直接输出小说正文

请直接续写内容，不要添加任何说明或标记：",
    );
    proof {
        assert(r@ =~= chapter_cont_body_spec(
            chapter_title@,
            outline_goal@,
            match current_content {
                Some(s) => Some(s@),
                None => None::<Seq<char>>,
            },
            words as nat,
        ));
    }
    r
}

/// The fresh-chapter form of a streaming chapter round's user prompt.
pub open spec fn chapter_fresh_body_spec(
    chapter_title: Seq<char>,
    outline_goal: Seq<char>,
    conflict: Seq<char>,
    previous_summary: Option<Seq<char>>,
    words: nat,
) -> Seq<char> {
    "请撰写以下章节：\n\n章节标题："@ + chapter_title + "\n本章目标："@ + outline_goal
        + "\n核心冲突："@ + conflict + "\n"@ + (match previous_summary {
        Some(s) => "\n【前一章结尾内容】（请自然衔接，不要重复）\n"@ + s + "\n\n"@,
        None => Seq::<char>::empty(),
    }) + "\n写作要求：\n1. 本次生成约"@ + crate::text::dec_str(words)
        + "字
2. 【重要】必须严格遵守世界观设定、时间线和角色设定，不得与之冲突
3. 场景描写要有画面感
4. 对话要自然生动，符合角色性格
5. 如果有前一章内容，请自然衔接，不要突兀
6. 不要使用markdown格式，直接输出小说正文

请直接开始撰写章节内容："@
}

fn chapter_fresh_body(
    chapter_title: &str,
    outline_goal: &str,
    conflict: &str,
    previous_summary: Option<&str>,
    words: u32,
) -> (r: String)
    ensures
        r@ == chapter_fresh_body_spec(
            chapter_title@,
            outline_goal@,
            conflict@,
            match previous_summary {
                Some(s) => Some(s@),
                None => None,
            },
            words as nat,
        ),
{
    let words_s = crate::text::u32_string(words);
    let mut r = String::new();
    r.append("请撰写以下章节：\n\n章节标题：");
    r.append(chapter_title);
    r.append("\n本章目标：");
    r.append(outline_goal);
    r.append("\n核心冲突：");
    r.append(conflict);
    r.append("\n");
    match previous_summary {
        Some(s) => {
            r.append("\n【前一章结尾内容】（请自然衔接，不要重复）\n");
            r.append(s);
            r.append("\n\n");
        },
        None => {},
    }
    r.append("\n写作要求：\n1. 本次生成约");
    r.append(words_s.as_str());
    r.append(
        "字
2. 【重要】必须严格遵守世界观设定、时间线和角色设定，不得与之冲突
3. 场景描写要有画面感
4. 对话要自然生动，符合角色性格
5. 如果有前一章内容，请自然衔接，不要突兀
6. 不要使用markdown格式，直接输出小说正文

请直接开始撰写章节内容：",
    );
    proof {
        assert(r@ =~= chapter_fresh_body_spec(
            chapter_title@,
            outline_goal@,
            conflict@,
            match previous_summary {
                Some(s) => Some(s@),
                None => None::<Seq<char>>,
            },
            words as nat,
        ));
    }
    r
}

/// The user prompt of one streaming chapter round: the binding context, then
/// either a continuation request over the existing tail or a fresh chapter
/// request with the previous chapter's ending, then the writing rules with
/// the word target.
pub open spec fn chapter_stream_prompt_spec(
    chapter_title: Seq<char>,
    outline_goal: Seq<char>,
    conflict: Seq<char>,
    previous_summary: Option<Seq<char>>,
    current_content: Option<Seq<char>>,
    characters_info: Option<Seq<char>>,
    world_setting: Option<Seq<char>>,
    timeline: Option<Seq<char>>,
    target_words: Option<u32>,
    is_continuation: Option<bool>,
) -> Seq<char> {
    let words = (match target_words {
        Some(w) => w,
        None => DEFAULT_CHAPTER_WORDS,
    }) as nat;
    let cont = match is_continuation {
        Some(b) => b,
        None => false,
    };
    chapter_context_spec(characters_info, world_setting, timeline) + (if cont {
        chapter_cont_body_spec(chapter_title, outline_goal, current_content, words)
    } else {
        chapter_fresh_body_spec(chapter_title, outline_goal, conflict, previous_summary, words)
    })
}

/// Build the user prompt of one streaming chapter round.
pub fn chapter_stream_prompt(
    chapter_title: &str,
    outline_goal: &str,
    conflict: &str,
    previous_summary: Option<&str>,
    current_content: Option<&str>,
    characters_info: Option<&str>,
    world_setting: Option<&str>,
    timeline: Option<&str>,
    target_words: Option<u32>,
    is_continuation: Option<bool>,
) -> (r: String)
    ensures
        r@ == chapter_stream_prompt_spec(
            chapter_title@,
            outline_goal@,
            conflict@,
            match previous_summary {
                Some(s) => Some(s@),
                None => None,
            },
            match current_content {
                Some(s) => Some(s@),
                None => None,
            },
            match characters_info {
                Some(s) => Some(s@),
                None => None,
            },
            match world_setting {
                Some(s) => Some(s@),
                None => None,
            },
            match timeline {
                Some(s) => Some(s@),
                None => None,
            },
            target_words,
            is_continuation,
        ),
{
    let words: u32 = match target_words {
        Some(w) => w,
        None => DEFAULT_CHAPTER_WORDS,
    };
    let cont: bool = match is_continuation {
        Some(b) => b,
        None => false,
    };
    let mut r = chapter_context(characters_info, world_setting, timeline);
    let body = if cont {
        chapter_cont_body(chapter_title, outline_goal, current_content, words)
    } else {
        chapter_fresh_body(chapter_title, outline_goal, conflict, previous_summary, words)
    };
    r.append(body.as_str());
    r
}


/// How many characters of source text an illustration or promo prompt keeps.
pub const PROMPT_TEXT_CLIP: usize = 3000;

/// The system prompt of illustration prompt generation.
pub fn illustration_system_prompt() -> (r: String)
    ensures
        r@ == "You are a professional image prompt engineer. Return only JSON with an English image_prompt."@,
{
    String::from_str(
        "You are a professional image prompt engineer. Return only JSON with an English image_prompt.",
    )
}

/// The style section of an illustration request: empty when the caller named
/// no style (or only whitespace).
pub open spec fn style_section_spec(style: Option<Seq<char>>) -> Seq<char> {
    let style_text = match style {
        Some(s) => s,
        None => Seq::<char>::empty(),
    };
    if trim_spec(style_text).len() == 0 {
        Seq::<char>::empty()
    } else {
        "\n用户指定的图片风格（可能包含中文，请先翻译为英文再使用）：\n"@ + style_text
    }
}

/// The user prompt of illustration prompt generation: the passage, clipped,
/// and the caller's style preference when there is one.
pub open spec fn illustration_request_spec(text: Seq<char>, style: Option<Seq<char>>) -> Seq<char> {
    r#"你是专业的AI绘图提示词工程师。请根据下面的小说段落，生成**一条高质量、专业、英文**的插图提示词（image prompt），用于书籍插图或章节配图。

要求：
- 必须是英文
- 包含场景、人物、氛围、构图、光线、风格等关键信息
- 语言精炼、专业，适合图像模型
- 不要输出任何解释

"#@ + style_section_spec(style) + "\n\n段落内容：\n"@ + clip_spec(text, PROMPT_TEXT_CLIP as int)
        + r#"

请严格按JSON格式输出：
{"image_prompt": "your English prompt here"}"#@
}

/// Build the user prompt of illustration prompt generation.
pub fn illustration_request_prompt(text: &str, style: Option<&str>) -> (r: String)
    ensures
        r@ == illustration_request_spec(
            text@,
            match style {
                Some(s) => Some(s@),
                None => None,
            },
        ),
{
    let clipped = crate::text::clip_chars(text, PROMPT_TEXT_CLIP);
    let mut r = String::new();
    r.append(
        r#"你是专业的AI绘图提示词工程师。请根据下面的小说段落，生成**一条高质量、专业、英文**的插图提示词（image prompt），用于书籍插图或章节配图。

要求：
- 必须是英文
- 包含场景、人物、氛围、构图、光线、风格等关键信息
- 语言精炼、专业，适合图像模型
- 不要输出任何解释

"#,
    );
    let style_text = match style {
        Some(s) => s,
        None => "",
    };
    if !crate::text::is_blank(style_text) {
        r.append("\n用户指定的图片风格（可能包含中文，请先翻译为英文再使用）：\n");
        r.append(style_text);
    }
    r.append("\n\n段落内容：\n");
    r.append(clipped.as_str());
    r.append(
        r#"

请严格按JSON格式输出：
{"image_prompt": "your English prompt here"}"#,
    );
    proof {
        reveal_strlit("");
        assert(r@ =~= illustration_request_spec(
            text@,
            match style {
                Some(s) => Some(s@),
                None => None::<Seq<char>>,
            },
        ));
    }
    r
}

/// The system prompt of chapter promotion generation.
pub fn chapter_promo_system_prompt() -> (r: String)
    ensures
        r@ == "你是一位专业的小说营销专家，擅长提炼故事亮点和创作吸引人的推广文案。请严格按JSON格式返回结果。"@,
{
    String::from_str(
        "你是一位专业的小说营销专家，擅长提炼故事亮点和创作吸引人的推广文案。请严格按JSON格式返回结果。",
    )
}

/// The user prompt of chapter promotion generation: title and clipped
/// content, then the two tasks (summary and image prompt).
pub open spec fn chapter_promo_request_spec(
    chapter_title: Seq<char>,
    chapter_content: Seq<char>,
) -> Seq<char> {
    "你是一位专业的小说营销专家。请根据以下章节内容，完成两项任务：\n\n## 章节标题\n"@
        + chapter_title + "\n\n## 章节内容\n"@ + clip_spec(chapter_content, PROMPT_TEXT_CLIP as int)
        + r#"

---

请完成以下任务：

### 任务1：生成摘要
为这一章生成一段精炼的中文摘要，用于社交媒体推广。要求：
- 字数不超过100字
- 抓住本章最吸引人的看点
- 语言生动有悬念感

### 任务2：生成图片提示词
根据章节内容，生成一段英文图片提示词(image prompt)，用于AI生图。要求：
- 必须是英文
- 描述本章最具代表性的场景或氛围
- 包含画面风格描述（如 cinematic, dramatic lighting, anime style 等）
- 适合作为章节封面使用

请严格按照以下JSON格式返回，不要添加任何其他内容：
{"summary": "中文摘要内容", "image_prompt": "English image prompt here"}"#@
}

/// Build the user prompt of chapter promotion generation.
pub fn chapter_promo_request_prompt(chapter_title: &str, chapter_content: &str) -> (r: String)
    ensures
        r@ == chapter_promo_request_spec(chapter_title@, chapter_content@),
{
    let clipped = crate::text::clip_chars(chapter_content, PROMPT_TEXT_CLIP);
    let mut r = String::new();
    r.append(
        "你是一位专业的小说营销专家。请根据以下章节内容，完成两项任务：\n\n## 章节标题\n",
    );
    r.append(chapter_title);
    r.append("\n\n## 章节内容\n");
    r.append(clipped.as_str());
    r.append(
        r#"

---

请完成以下任务：

### 任务1：生成摘要
为这一章生成一段精炼的中文摘要，用于社交媒体推广。要求：
- 字数不超过100字
- 抓住本章最吸引人的看点
- 语言生动有悬念感

### 任务2：生成图片提示词
根据章节内容，生成一段英文图片提示词(image prompt)，用于AI生图。要求：
- 必须是英文
- 描述本章最具代表性的场景或氛围
- 包含画面风格描述（如 cinematic, dramatic lighting, anime style 等）
- 适合作为章节封面使用

请严格按照以下JSON格式返回，不要添加任何其他内容：
{"summary": "中文摘要内容", "image_prompt": "English image prompt here"}"#,
    );
    proof {
        assert(r@ =~= chapter_promo_request_spec(chapter_title@, chapter_content@));
    }
    r
}


/// The system prompt of character appearance generation.
pub fn character_appearance_system_prompt() -> (r: String)
    ensures
        r@ == "You are a character designer and image prompt engineer. Return JSON only."@,
{
    String::from_str("You are a character designer and image prompt engineer. Return JSON only.")
}

/// The user prompt of character appearance generation: every field trimmed,
/// absent ones written as empty.
pub open spec fn character_appearance_request_spec(
    name: Seq<char>,
    role: Option<Seq<char>>,
    personality: Option<Seq<char>>,
    background: Option<Seq<char>>,
    motivation: Option<Seq<char>>,
    style: Option<Seq<char>>,
) -> Seq<char> {
    r#"你是一位专业的小说人物设定师和 AI 生图提示词工程师。

请基于以下角色信息完成两项任务：
1) 生成中文“形象”描述（40~120字，具体，可用于小说人设）
2) 生成英文“一寸证件照风格”图像提示词（image_prompt）

角色名称："#@ + trim_spec(name) + "\n身份："@ + trim_spec(opt_text(role)) + "\n性格："@
        + trim_spec(opt_text(personality)) + "\n背景："@ + trim_spec(opt_text(background))
        + "\n动机："@ + trim_spec(opt_text(motivation))
        + "\n用户偏好风格（可能是中文，请先理解再转成英文风格词）："@ + trim_spec(
        opt_text(style),
    )
        + r#"

输出要求：
- 严格输出 JSON
- 不要输出任何额外解释
- JSON 结构如下：
{"appearance":"中文形象文本","image_prompt":"English prompt"}
"#@
}

/// An optional text, the absent case read as empty.
pub open spec fn opt_text(s: Option<Seq<char>>) -> Seq<char> {
    match s {
        Some(t) => t,
        None => Seq::<char>::empty(),
    }
}

fn trimmed_or_empty(s: Option<&str>) -> (r: &str)
    ensures
        r@ == trim_spec(
            opt_text(
                match s {
                    Some(t) => Some(t@),
                    None => None,
                },
            ),
        ),
{
    match s {
        Some(t) => crate::text::trim_str(t),
        None => {
            proof {
                reveal_strlit("");
            }
            ""
        },
    }
}

/// Build the user prompt of character appearance generation.
#[verifier::rlimit(100)]
#[verifier::spinoff_prover]
pub fn character_appearance_request_prompt(
    name: &str,
    role: Option<&str>,
    personality: Option<&str>,
    background: Option<&str>,
    motivation: Option<&str>,
    style: Option<&str>,
) -> (r: String)
    ensures
        r@ == character_appearance_request_spec(
            name@,
            match role {
                Some(s) => Some(s@),
                None => None,
            },
            match personality {
                Some(s) => Some(s@),
                None => None,
            },
            match background {
                Some(s) => Some(s@),
                None => None,
            },
            match motivation {
                Some(s) => Some(s@),
                None => None,
            },
            match style {
                Some(s) => Some(s@),
                None => None,
            },
        ),
{
    let mut r = String::new();
    r.append(
        r#"你是一位专业的小说人物设定师和 AI 生图提示词工程师。

请基于以下角色信息完成两项任务：
1) 生成中文“形象”描述（40~120字，具体，可用于小说人设）
2) 生成英文“一寸证件照风格”图像提示词（image_prompt）

角色名称："#,
    );
    r.append(crate::text::trim_str(name));
    r.append("\n身份：");
    r.append(trimmed_or_empty(role));
    r.append("\n性格：");
    r.append(trimmed_or_empty(personality));
    r.append("\n背景：");
    r.append(trimmed_or_empty(background));
    r.append("\n动机：");
    r.append(trimmed_or_empty(motivation));
    r.append("\n用户偏好风格（可能是中文，请先理解再转成英文风格词）：");
    r.append(trimmed_or_empty(style));
    r.append(
        r#"

输出要求：
- 严格输出 JSON
- 不要输出任何额外解释
- JSON 结构如下：
{"appearance":"中文形象文本","image_prompt":"English prompt"}
"#,
    );
    proof {
        assert(r@ =~= character_appearance_request_spec(
            name@,
            match role {
                Some(s) => Some(s@),
                None => None::<Seq<char>>,
            },
            match personality {
                Some(s) => Some(s@),
                None => None::<Seq<char>>,
            },
            match background {
                Some(s) => Some(s@),
                None => None::<Seq<char>>,
            },
            match motivation {
                Some(s) => Some(s@),
                None => None::<Seq<char>>,
            },
            match style {
                Some(s) => Some(s@),
                None => None::<Seq<char>>,
            },
        ));
    }
    r
}

/// The system prompt of character portrait prompt generation.
pub fn character_portrait_system_prompt() -> (r: String)
    ensures
        r@ == "You are a professional portrait prompt engineer. Return JSON only."@,
{
    String::from_str("You are a professional portrait prompt engineer. Return JSON only.")
}

/// The user prompt of character portrait prompt generation: every field
/// trimmed, absent ones written as empty.
pub open spec fn character_portrait_request_spec(
    name: Seq<char>,
    appearance: Option<Seq<char>>,
    role: Option<Seq<char>>,
    personality: Option<Seq<char>>,
    background: Option<Seq<char>>,
    motivation: Option<Seq<char>>,
    style: Option<Seq<char>>,
) -> Seq<char> {
    r#"你是专业的 AI 人像提示词工程师。请基于以下信息，生成一条用于人物“一寸证件照”风格的英文提示词。

角色名称："#@ + trim_spec(name) + "\n形象描述："@ + trim_spec(opt_text(appearance))
        + "\n身份："@ + trim_spec(opt_text(role)) + "\n性格："@ + trim_spec(opt_text(personality))
        + "\n背景："@ + trim_spec(opt_text(background)) + "\n动机："@ + trim_spec(
        opt_text(motivation),
    ) + "\n用户偏好风格（可能是中文，请先转换为英文风格词后再融合）："@ + trim_spec(
        opt_text(style),
    )
        + r#"

要求：
- 输出必须是英文提示词（image_prompt）
- 适合人像特写、一寸照构图、清晰面部细节
- 不要输出解释
- 严格输出 JSON：{"image_prompt":"English prompt"}
"#@
}

/// Build the user prompt of character portrait prompt generation.
#[verifier::rlimit(100)]
#[verifier::spinoff_prover]
pub fn character_portrait_request_prompt(
    name: &str,
    appearance: Option<&str>,
    role: Option<&str>,
    personality: Option<&str>,
    background: Option<&str>,
    motivation: Option<&str>,
    style: Option<&str>,
) -> (r: String)
    ensures
        r@ == character_portrait_request_spec(
            name@,
            match appearance {
                Some(s) => Some(s@),
                None => None,
            },
            match role {
                Some(s) => Some(s@),
                None => None,
            },
            match personality {
                Some(s) => Some(s@),
                None => None,
            },
            match background {
                Some(s) => Some(s@),
                None => None,
            },
            match motivation {
                Some(s) => Some(s@),
                None => None,
            },
            match style {
                Some(s) => Some(s@),
                None => None,
            },
        ),
{
    let mut r = String::new();
    r.append(
        r#"你是专业的 AI 人像提示词工程师。请基于以下信息，生成一条用于人物“一寸证件照”风格的英文提示词。

角色名称："#,
    );
    r.append(crate::text::trim_str(name));
    r.append("\n形象描述：");
    r.append(trimmed_or_empty(appearance));
    r.append("\n身份：");
    r.append(trimmed_or_empty(role));
    r.append("\n性格：");
    r.append(trimmed_or_empty(personality));
    r.append("\n背景：");
    r.append(trimmed_or_empty(background));
    r.append("\n动机：");
    r.append(trimmed_or_empty(motivation));
    r.append("\n用户偏好风格（可能是中文，请先转换为英文风格词后再融合）：");
    r.append(trimmed_or_empty(style));
    r.append(
        r#"

要求：
- 输出必须是英文提示词（image_prompt）
- 适合人像特写、一寸照构图、清晰面部细节
- 不要输出解释
- 严格输出 JSON：{"image_prompt":"English prompt"}
"#,
    );
    proof {
        assert(r@ =~= character_portrait_request_spec(
            name@,
            match appearance {
                Some(s) => Some(s@),
                None => None::<Seq<char>>,
            },
            match role {
                Some(s) => Some(s@),
                None => None::<Seq<char>>,
            },
            match personality {
                Some(s) => Some(s@),
                None => None::<Seq<char>>,
            },
            match background {
                Some(s) => Some(s@),
                None => None::<Seq<char>>,
            },
            match motivation {
                Some(s) => Some(s@),
                None => None::<Seq<char>>,
            },
            match style {
                Some(s) => Some(s@),
                None => None::<Seq<char>>,
            },
        ));
    }
    r
}

} // verus!
