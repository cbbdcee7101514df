//! Outline generation: prompt assembly and the continuation policy.
//!
//! A single streaming call frequently cannot emit an outline for the full
//! requested chapter count: the upstream model truncates at its token
//! ceiling. Convergence is therefore driven by content inspection — after
//! every round the transcript is scanned for the highest completed chapter
//! heading, and further bounded rounds are issued until the target count is
//! reached or the continuation budget is exhausted. Running out of budget is
//! a best-effort cutoff, not an error: the partial transcript is returned.

use vstd::prelude::*;
use crate::chapters::max_chapter;
use crate::text::{byte_tail_spec, dec_str};

verus! {

/// How many continuation rounds may follow the initial call.
pub const MAX_CONTINUATION_ROUNDS: u32 = 5;

/// Token budget of the initial outline call.
pub const OUTLINE_INITIAL_MAX_TOKENS: u32 = 8000;

/// Token budget of each continuation round: raised above the initial call's,
/// since a continuation must carry context and still have room for all the
/// remaining chapters.
pub const CONTINUATION_MAX_TOKENS: u32 = 10000;

/// How many bytes of the transcript tail a continuation prompt carries as
/// context (widened to a character boundary).
pub const CONTINUATION_TAIL_BYTES: usize = 1500;

/// The request that starts one outline generation.
#[derive(Debug)]
pub struct GenerateOutlineStreamInput {
    pub title: String,
    pub genre: String,
    pub description: String,
    pub target_chapters: u32,
    pub deepseek_key: String,
    pub requirements: Option<String>,
}

/// The user prompt of the initial outline call.
pub open spec fn outline_prompt_spec(
    title: Seq<char>,
    genre: Seq<char>,
    description: Seq<char>,
    target: nat,
    requirements: Option<Seq<char>>,
) -> Seq<char> {
    "请为以下小说创建详细大纲：\n\n书名："@ + title + "\n题材："@ + genre + "\n简介："@
        + description + "\n目标章节数："@ + dec_str(target)
        + "（必须严格按照这个数量生成章节大纲）\n\n"@ + (match requirements {
        Some(req) => "特殊要求："@ + req + "\n\n"@,
        None => Seq::<char>::empty(),
    }) + "【重要】请严格按照以下格式生成大纲，章节数必须恰好为"@ + dec_str(target)
        + outline_template_mid() + dec_str(target) + outline_template_tail() + dec_str(target)
        + "章）\n\n请确保：\n1. 章节数量严格等于"@ + dec_str(target) + outline_closing()
}

/// The structural template between the first and second chapter-count holes.
pub open spec fn outline_template_mid() -> Seq<char> {
    "章：

## 故事梗概
（200字左右的故事概述）

## 核心冲突
（主要矛盾和冲突描述）

## 世界观设定
（详细描述故事发生的世界背景、规则、势力分布、社会结构等，确保后续章节保持一致）

### 基础设定
- **时代背景**：故事发生的时代/纪元
- **地理环境**：主要地点、城市、国家等
- **社会结构**：权力体系、阶级划分、组织势力等
- **特殊规则**：如有魔法/科技/超能力等特殊元素的规则

### 重要势力
（列出3-5个重要势力/组织及其特点）

## 时间线事件
（按时间顺序列出影响剧情的重要历史事件和关键节点，便于各章节保持时间一致性）

### 历史事件（故事开始前）
1. 【时间点】事件描述及影响
2. ...

### 剧情时间线（故事进行中）
1. 【第X章时间点】关键事件
2. ...

## 主要角色

### 1. 角色名称
- **身份**：角色的身份定位
- **性格**：性格特点描述
- **背景**：背景故事简述
- **动机**：角色的目标和动机

### 2. 角色名称
（同上格式，3-5个主要角色）

## 三幕结构

### 第一幕：起始（约占全书20%）
（介绍主要人物、世界观，引出核心冲突）

### 第二幕：发展与高潮（约占全书60%）
（冲突升级、角色成长、多次转折）

### 第三幕：结局（约占全书20%）
（高潮对决、冲突解决、结局交代）

## 章节大纲

【必须生成恰好"@
}

/// The structural template between the second and third chapter-count holes.
pub open spec fn outline_template_tail() -> Seq<char> {
    "章，每章格式如下】

### 第1章：章节标题
- **时间**：本章发生的时间点
- **目标**：本章要完成的剧情目标
- **冲突**：本章的核心冲突或挑战
- **结尾钩子**：吸引读者继续阅读的悬念

### 第2章：章节标题
...

（以此类推，直到第"@
}

/// The closing requirements of the initial prompt, after the last
/// chapter-count hole.
pub open spec fn outline_closing() -> Seq<char> {
    "章
2. 每章都有明确的剧情推进
3. 章节之间逻辑连贯，时间线一致
4. 世界观设定详细完整，便于后续章节参考
5. 角色和势力格式便于系统解析
"@
}

/// Build the user prompt of the initial outline call.
pub fn build_outline_prompt(input: &GenerateOutlineStreamInput) -> (r: String)
    ensures
        r@ == outline_prompt_spec(
            input.title@,
            input.genre@,
            input.description@,
            input.target_chapters as nat,
            match input.requirements {
                Some(req) => Some(req@),
                None => None,
            },
        ),
{
    let target = crate::text::u32_string(input.target_chapters);
    let mut r = String::new();
    r.append("请为以下小说创建详细大纲：\n\n书名：");
    r.append(input.title.as_str());
    r.append("\n题材：");
    r.append(input.genre.as_str());
    r.append("\n简介：");
    r.append(input.description.as_str());
    r.append("\n目标章节数：");
    r.append(target.as_str());
    r.append("（必须严格按照这个数量生成章节大纲）\n\n");
    match &input.requirements {
        Some(req) => {
            r.append("特殊要求：");
            r.append(req.as_str());
            r.append("\n\n");
        },
        None => {},
    }
    r.append("【重要】请严格按照以下格式生成大纲，章节数必须恰好为");
    r.append(target.as_str());
    r.append(
        "章：

## 故事梗概
（200字左右的故事概述）

## 核心冲突
（主要矛盾和冲突描述）

## 世界观设定
（详细描述故事发生的世界背景、规则、势力分布、社会结构等，确保后续章节保持一致）

### 基础设定
- **时代背景**：故事发生的时代/纪元
- **地理环境**：主要地点、城市、国家等
- **社会结构**：权力体系、阶级划分、组织势力等
- **特殊规则**：如有魔法/科技/超能力等特殊元素的规则

### 重要势力
（列出3-5个重要势力/组织及其特点）

## 时间线事件
（按时间顺序列出影响剧情的重要历史事件和关键节点，便于各章节保持时间一致性）

### 历史事件（故事开始前）
1. 【时间点】事件描述及影响
2. ...

### 剧情时间线（故事进行中）
1. 【第X章时间点】关键事件
2. ...

## 主要角色

### 1. 角色名称
- **身份**：角色的身份定位
- **性格**：性格特点描述
- **背景**：背景故事简述
- **动机**：角色的目标和动机

### 2. 角色名称
（同上格式，3-5个主要角色）

## 三幕结构

### 第一幕：起始（约占全书20%）
（介绍主要人物、世界观，引出核心冲突）

### 第二幕：发展与高潮（约占全书60%）
（冲突升级、角色成长、多次转折）

### 第三幕：结局（约占全书20%）
（高潮对决、冲突解决、结局交代）

## 章节大纲

【必须生成恰好",
    );
    r.append(target.as_str());
    r.append(
        "章，每章格式如下】

### 第1章：章节标题
- **时间**：本章发生的时间点
- **目标**：本章要完成的剧情目标
- **冲突**：本章的核心冲突或挑战
- **结尾钩子**：吸引读者继续阅读的悬念

### 第2章：章节标题
...

（以此类推，直到第",
    );
    r.append(target.as_str());
    r.append("章）\n\n请确保：\n1. 章节数量严格等于");
    r.append(target.as_str());
    r.append(
        "章
2. 每章都有明确的剧情推进
3. 章节之间逻辑连贯，时间线一致
4. 世界观设定详细完整，便于后续章节参考
5. 角色和势力格式便于系统解析
",
    );
    proof {
        assert(r@ =~= outline_prompt_spec(
            input.title@,
            input.genre@,
            input.description@,
            input.target_chapters as nat,
            match input.requirements {
                Some(req) => Some(req@),
                None => None::<Seq<char>>,
            },
        ));
    }
    r
}

/// The system prompt of the initial outline call.
pub open spec fn outline_system_spec(target: nat) -> Seq<char> {
    "你是一位专业的小说策划师和编剧。你的任务是根据用户提供的题材、风格和要求，创建详细的小说大纲。

【核心要求】
1. 章节数量必须严格等于用户指定的"@ + dec_str(target)
        + "章，不能多也不能少
2. 使用标准Markdown格式输出
3. 角色、世界观、时间线信息必须按照指定格式，便于系统解析

【内容要求】
- 故事主线清晰，核心冲突明确
- 世界观设定完整详细（时代背景、地理环境、社会结构、特殊规则、重要势力）
- 时间线事件清晰（历史事件和剧情时间线），确保各章节时间一致
- 每个主要角色都有完整的设定（身份、性格、背景、动机）
- 三幕结构合理分配剧情节奏
- 每章都有明确的时间点、目标、冲突和悬念钩子
- 章节之间逻辑连贯，剧情层层递进

【格式要求】
- 使用 ## 作为一级标题（故事梗概、世界观设定、时间线事件、主要角色、章节大纲等）
- 使用 ### 作为二级标题（角色名、章节标题、势力名等）
- 使用 - **字段**：内容 格式列出详细信息
- 确保格式统一，便于程序解析"@
}

/// Build the system prompt of the initial outline call.
pub fn build_outline_system_prompt(target_chapters: u32) -> (r: String)
    ensures
        r@ == outline_system_spec(target_chapters as nat),
{
    let target = crate::text::u32_string(target_chapters);
    let mut r = String::new();
    r.append(
        "你是一位专业的小说策划师和编剧。你的任务是根据用户提供的题材、风格和要求，创建详细的小说大纲。

【核心要求】
1. 章节数量必须严格等于用户指定的",
    );
    r.append(target.as_str());
    r.append(
        "章，不能多也不能少
2. 使用标准Markdown格式输出
3. 角色、世界观、时间线信息必须按照指定格式，便于系统解析

【内容要求】
- 故事主线清晰，核心冲突明确
- 世界观设定完整详细（时代背景、地理环境、社会结构、特殊规则、重要势力）
- 时间线事件清晰（历史事件和剧情时间线），确保各章节时间一致
- 每个主要角色都有完整的设定（身份、性格、背景、动机）
- 三幕结构合理分配剧情节奏
- 每章都有明确的时间点、目标、冲突和悬念钩子
- 章节之间逻辑连贯，剧情层层递进

【格式要求】
- 使用 ## 作为一级标题（故事梗概、世界观设定、时间线事件、主要角色、章节大纲等）
- 使用 ### 作为二级标题（角色名、章节标题、势力名等）
- 使用 - **字段**：内容 格式列出详细信息
- 确保格式统一，便于程序解析",
    );
    proof {
        assert(r@ =~= outline_system_spec(target_chapters as nat));
    }
    r
}

/// The user prompt of one continuation round: the tail of what exists, and
/// the instruction to resume from the chapter after the highest one found,
/// through the target.
pub open spec fn continuation_prompt_spec(tail: Seq<char>, next: nat, target: nat) -> Seq<char> {
    "请继续完成大纲的章节部分。\n\n【已生成内容的结尾】\n"@ + tail
        + "\n\n【续写要求】\n1. 从第"@ + dec_str(next) + "章继续生成，直到第"@ + dec_str(
        target,
    )
        + "章
2. 保持与前面相同的格式
3. 每章格式：
### 第X章：章节标题
- **时间**：本章发生的时间点
- **目标**：本章要完成的剧情目标
- **冲突**：本章的核心冲突或挑战
- **结尾钩子**：吸引读者继续阅读的悬念

请直接从第"@ + dec_str(next) + "章开始续写，不要重复已有内容："@
}

/// Build the user prompt of one continuation round.
pub fn build_continuation_prompt(tail: &str, next: u32, target: u32) -> (r: String)
    ensures
        r@ == continuation_prompt_spec(tail@, next as nat, target as nat),
{
    let next_s = crate::text::u32_string(next);
    let target_s = crate::text::u32_string(target);
    let mut r = String::new();
    r.append("请继续完成大纲的章节部分。\n\n【已生成内容的结尾】\n");
    r.append(tail);
    r.append("\n\n【续写要求】\n1. 从第");
    r.append(next_s.as_str());
    r.append("章继续生成，直到第");
    r.append(target_s.as_str());
    r.append(
        "章
2. 保持与前面相同的格式
3. 每章格式：
### 第X章：章节标题
- **时间**：本章发生的时间点
- **目标**：本章要完成的剧情目标
- **冲突**：本章的核心冲突或挑战
- **结尾钩子**：吸引读者继续阅读的悬念

请直接从第",
    );
    r.append(next_s.as_str());
    r.append("章开始续写，不要重复已有内容：");
    proof {
        assert(r@ =~= continuation_prompt_spec(tail@, next as nat, target as nat));
    }
    r
}

/// The system prompt of one continuation round.
pub open spec fn continuation_system_spec(last: nat, target: nat) -> Seq<char> {
    "你正在续写一份小说大纲。前面的内容已经生成了第1章到第"@ + dec_str(last)
        + "章，现在需要继续生成剩余的章节（第"@ + dec_str((last + 1) as nat) + "章到第"@
        + dec_str(target)
        + "章）。\n\n请保持格式一致，直接续写章节内容，不要添加任何开头说明。"@
}

/// Build the system prompt of one continuation round.
pub fn build_continuation_system(last: u32, target: u32) -> (r: String)
    requires
        last < 0xffff_ffffu32,
    ensures
        r@ == continuation_system_spec(last as nat, target as nat),
{
    let last_s = crate::text::u32_string(last);
    let next_s = crate::text::u32_string(last + 1);
    let target_s = crate::text::u32_string(target);
    let mut r = String::new();
    r.append("你正在续写一份小说大纲。前面的内容已经生成了第1章到第");
    r.append(last_s.as_str());
    r.append("章，现在需要继续生成剩余的章节（第");
    r.append(next_s.as_str());
    r.append("章到第");
    r.append(target_s.as_str());
    r.append("章）。\n\n请保持格式一致，直接续写章节内容，不要添加任何开头说明。");
    proof {
        assert(r@ =~= continuation_system_spec(last as nat, target as nat));
    }
    r
}

/// The progress note shown to the listener before a continuation round. It
/// is not part of the returned transcript.
pub open spec fn continuation_notice_spec(last: nat, target: nat) -> Seq<char> {
    "\n\n【系统：检测到大纲未完成（已生成到第"@ + dec_str(last) + "章，目标"@ + dec_str(
        target,
    ) + "章），正在自动续写...】\n\n"@
}

/// Build the progress note shown before a continuation round.
pub fn build_continuation_notice(last: u32, target: u32) -> (r: String)
    ensures
        r@ == continuation_notice_spec(last as nat, target as nat),
{
    let last_s = crate::text::u32_string(last);
    let target_s = crate::text::u32_string(target);
    let mut r = String::new();
    r.append("\n\n【系统：检测到大纲未完成（已生成到第");
    r.append(last_s.as_str());
    r.append("章，目标");
    r.append(target_s.as_str());
    r.append("章），正在自动续写...】\n\n");
    proof {
        assert(r@ =~= continuation_notice_spec(last as nat, target as nat));
    }
    r
}


/// The states of one outline generation.
#[derive(Clone, Copy, Debug, PartialEq, Eq, Structural)]
pub enum OutlinePhase {
    /// Created, the initial call not yet issued.
    Initial,
    /// A streaming round is in flight.
    AwaitingRound,
    /// The target chapter count was reached.
    Satisfied,
    /// The continuation budget ran out; the partial transcript is returned
    /// as a best-effort result, not an error.
    Exhausted,
    /// Cancellation was requested and observed.
    Cancelled,
    /// A round failed; the whole operation is aborted.
    Failed,
}

/// What the policy asks its driver to do after a round.
#[derive(Debug)]
pub enum RoundDecision {
    /// Stop: the transcript covers the target chapter count.
    Satisfied,
    /// Stop and report cancellation.
    CancelledStop,
    /// Stop: the continuation budget is exhausted; return the partial
    /// transcript as a success.
    Exhausted,
    /// Issue one more streaming round with these prompts and budget, after
    /// showing the progress note to the listener.
    Continue { notice: String, system_prompt: String, user_prompt: String, max_tokens: u32 },
}

/// The continuation policy of one outline generation. The transcript only
/// ever grows: continuation output is appended, text already shown to the
/// listener is never retracted.
pub struct OutlineController {
    transcript: String,
    target: u32,
    rounds_done: u32,
    phase: OutlinePhase,
}

impl OutlineController {
    /// The accumulated transcript.
    pub closed spec fn transcript(self) -> Seq<char> {
        self.transcript@
    }

    /// The requested chapter count.
    pub closed spec fn target(self) -> u32 {
        self.target
    }

    /// How many continuation rounds have been issued.
    pub closed spec fn rounds_done(self) -> u32 {
        self.rounds_done
    }

    /// The state the policy is in.
    pub closed spec fn phase(self) -> OutlinePhase {
        self.phase
    }

    /// The continuation count never exceeds the budget.
    pub closed spec fn wf(self) -> bool {
        self.rounds_done <= MAX_CONTINUATION_ROUNDS
    }

    /// A fresh controller for one outline generation.
    pub fn new(target: u32) -> (c: OutlineController)
        ensures
            c.wf(),
            c.phase() is Initial,
            c.transcript() == Seq::<char>::empty(),
            c.target() == target,
            c.rounds_done() == 0,
    {
        OutlineController {
            transcript: String::new(),
            target,
            rounds_done: 0,
            phase: OutlinePhase::Initial,
        }
    }

    /// Issue the initial call: the system prompt, the user prompt, and the
    /// token budget of the first streaming round.
    pub fn start(&mut self, input: &GenerateOutlineStreamInput) -> (r: (String, String, u32))
        requires
            old(self).wf(),
            old(self).phase() is Initial,
            old(self).target() == input.target_chapters,
        ensures
            final(self).wf(),
            final(self).phase() is AwaitingRound,
            final(self).transcript() == old(self).transcript(),
            final(self).target() == old(self).target(),
            final(self).rounds_done() == old(self).rounds_done(),
            r.0@ == outline_system_spec(input.target_chapters as nat),
            r.1@ == outline_prompt_spec(
                input.title@,
                input.genre@,
                input.description@,
                input.target_chapters as nat,
                match input.requirements {
                    Some(req) => Some(req@),
                    None => None,
                },
            ),
            r.2 == OUTLINE_INITIAL_MAX_TOKENS,
    {
        self.phase = OutlinePhase::AwaitingRound;
        let system_prompt = build_outline_system_prompt(input.target_chapters);
        let user_prompt = build_outline_prompt(input);
        (system_prompt, user_prompt, OUTLINE_INITIAL_MAX_TOKENS)
    }

    /// Record the text one streaming round produced, append it to the
    /// transcript, and decide what follows: stop satisfied when the highest
    /// chapter heading reaches the target; stop cancelled when cancellation
    /// was requested; stop exhausted when the continuation budget is spent;
    /// otherwise ask for one continuation round that resumes from the chapter
    /// after the highest one found, through the target.
    pub fn record_round(&mut self, round_text: &str, cancelled: bool) -> (r: RoundDecision)
        requires
            old(self).wf(),
            old(self).phase() is AwaitingRound,
        ensures
            final(self).wf(),
            final(self).target() == old(self).target(),
            final(self).transcript() == old(self).transcript() + round_text@,
            ({
                let t = old(self).transcript() + round_text@;
                let maxc = max_chapter(t);
                let target = old(self).target();
                &&& (maxc >= target as nat) ==> (r is Satisfied && final(self).phase() is Satisfied
                    && final(self).rounds_done() == old(self).rounds_done())
                &&& (maxc < target as nat && cancelled) ==> (r is CancelledStop
                    && final(self).phase() is Cancelled)
                &&& (maxc < target as nat && !cancelled && old(self).rounds_done()
                    >= MAX_CONTINUATION_ROUNDS) ==> (r is Exhausted
                    && final(self).phase() is Exhausted)
                &&& (maxc < target as nat && !cancelled && old(self).rounds_done()
                    < MAX_CONTINUATION_ROUNDS) ==> ({
                    &&& final(self).phase() is AwaitingRound
                    &&& final(self).rounds_done() == old(self).rounds_done() + 1
                    &&& (r matches RoundDecision::Continue {
                        notice,
                        system_prompt,
                        user_prompt,
                        max_tokens,
                    } && notice@ == continuation_notice_spec(maxc, target as nat) && system_prompt@
                        == continuation_system_spec(maxc, target as nat) && user_prompt@
                        == continuation_prompt_spec(
                        byte_tail_spec(t, CONTINUATION_TAIL_BYTES as int),
                        (maxc + 1) as nat,
                        target as nat,
                    ) && max_tokens == CONTINUATION_MAX_TOKENS)
                })
            }),
    {
        self.transcript.append(round_text);
        let maxc = crate::chapters::find_last_chapter_number(self.transcript.as_str());
        if maxc >= self.target {
            self.phase = OutlinePhase::Satisfied;
            RoundDecision::Satisfied
        } else if cancelled {
            self.phase = OutlinePhase::Cancelled;
            RoundDecision::CancelledStop
        } else if self.rounds_done >= MAX_CONTINUATION_ROUNDS {
            self.phase = OutlinePhase::Exhausted;
            RoundDecision::Exhausted
        } else {
            let notice = build_continuation_notice(maxc, self.target);
            let system_prompt = build_continuation_system(maxc, self.target);
            let tail = crate::text::get_last_n_chars(
                self.transcript.as_str(),
                CONTINUATION_TAIL_BYTES,
            );
            let user_prompt = build_continuation_prompt(tail, maxc + 1, self.target);
            self.rounds_done = self.rounds_done + 1;
            self.phase = OutlinePhase::AwaitingRound;
            RoundDecision::Continue {
                notice,
                system_prompt,
                user_prompt,
                max_tokens: CONTINUATION_MAX_TOKENS,
            }
        }
    }

    /// Record that a round failed: the whole multi-round operation aborts.
    pub fn record_failure(&mut self)
        requires
            old(self).wf(),
        ensures
            final(self).wf(),
            final(self).phase() is Failed,
            final(self).transcript() == old(self).transcript(),
            final(self).target() == old(self).target(),
            final(self).rounds_done() == old(self).rounds_done(),
    {
        self.phase = OutlinePhase::Failed;
    }

    /// Observe the state the policy is in.
    pub fn current_phase(&self) -> (r: OutlinePhase)
        ensures
            r == self.phase(),
    {
        self.phase
    }

    /// Hand the accumulated transcript out.
    pub fn into_transcript(self) -> (r: String)
        ensures
            r@ == self.transcript(),
    {
        self.transcript
    }
}

/// The transcript after the first `k` round outputs have been appended.
pub open spec fn transcript_after(t: Seq<char>, rounds: Seq<Seq<char>>, k: int) -> Seq<char>
    recommends
        k <= rounds.len(),
    decreases k,
{
    if k <= 0 || rounds.len() == 0 {
        t
    } else {
        transcript_after(t + rounds[0], rounds.skip(1), k - 1)
    }
}

/// A run of the continuation policy, cancellation never requested: round
/// outputs are consumed until the transcript covers the target or the budget
/// runs out.
pub open spec fn spec_run(t: Seq<char>, rounds: Seq<Seq<char>>, target: u32, rounds_done: nat) -> (
    OutlinePhase,
    Seq<char>,
)
    decreases rounds.len(),
{
    if max_chapter(t) >= target as nat {
        (OutlinePhase::Satisfied, t)
    } else if rounds_done >= MAX_CONTINUATION_ROUNDS as nat {
        (OutlinePhase::Exhausted, t)
    } else if rounds.len() == 0 {
        (OutlinePhase::AwaitingRound, t)
    } else {
        spec_run(t + rounds[0], rounds.skip(1), target, rounds_done + 1)
    }
}

/// When the transcript never reaches the target and cancellation is never
/// requested, the policy stops after exactly the budgeted number of
/// continuation rounds, in state `Exhausted`, holding everything the rounds
/// produced: a successful partial result, not an error.
pub proof fn lemma_budget_exhausts(
    t: Seq<char>,
    rounds: Seq<Seq<char>>,
    target: u32,
    rounds_done: nat,
)
    requires
        rounds_done <= MAX_CONTINUATION_ROUNDS as nat,
        rounds.len() >= MAX_CONTINUATION_ROUNDS as nat - rounds_done,
        forall|k: int|
            0 <= k <= MAX_CONTINUATION_ROUNDS as nat - rounds_done ==> max_chapter(
                #[trigger] transcript_after(t, rounds, k),
            ) < target as nat,
    ensures
        spec_run(t, rounds, target, rounds_done) == (
            OutlinePhase::Exhausted,
            transcript_after(t, rounds, MAX_CONTINUATION_ROUNDS as int - rounds_done),
        ),
    decreases MAX_CONTINUATION_ROUNDS as nat - rounds_done,
{
    assert(transcript_after(t, rounds, 0) == t);
    assert(max_chapter(t) < target as nat);
    if rounds_done < MAX_CONTINUATION_ROUNDS as nat {
        let t1 = t + rounds[0];
        let rest = rounds.skip(1);
        assert forall|k: int|
            0 <= k <= MAX_CONTINUATION_ROUNDS as nat - (rounds_done + 1) implies max_chapter(
            #[trigger] transcript_after(t1, rest, k),
        ) < target as nat by {
            assert(transcript_after(t, rounds, k + 1) == transcript_after(t1, rest, k));
        }
        lemma_budget_exhausts(t1, rest, target, rounds_done + 1);
        assert(transcript_after(t, rounds, MAX_CONTINUATION_ROUNDS as int - rounds_done)
            == transcript_after(t1, rest, MAX_CONTINUATION_ROUNDS as int - rounds_done - 1));
    }
}

} // verus!

verus! {

/// However many round outputs stand ready and whatever they hold, a run
/// consumes at most the remaining continuation budget: its outcome is
/// already determined by the first `MAX_CONTINUATION_ROUNDS - rounds_done`
/// outputs, so no execution ever issues more rounds than that, and the
/// continuation loop always terminates.
pub proof fn lemma_rounds_are_bounded(
    t: Seq<char>,
    rounds: Seq<Seq<char>>,
    target: u32,
    rounds_done: nat,
)
    requires
        rounds_done <= MAX_CONTINUATION_ROUNDS as nat,
    ensures
        spec_run(t, rounds, target, rounds_done) == spec_run(
            t,
            rounds.take(
                if rounds.len() <= MAX_CONTINUATION_ROUNDS as nat - rounds_done {
                    rounds.len() as int
                } else {
                    MAX_CONTINUATION_ROUNDS as int - rounds_done
                },
            ),
            target,
            rounds_done,
        ),
    decreases rounds.len(),
{
    let k: int = if rounds.len() <= MAX_CONTINUATION_ROUNDS as nat - rounds_done {
        rounds.len() as int
    } else {
        MAX_CONTINUATION_ROUNDS as int - rounds_done
    };
    if max_chapter(t) >= target as nat {
    } else if rounds_done >= MAX_CONTINUATION_ROUNDS as nat {
        assert(rounds.take(0) =~= Seq::<Seq<char>>::empty());
    } else if rounds.len() == 0 {
        assert(rounds.take(0) =~= rounds);
    } else {
        assert(rounds.take(k)[0] == rounds[0]);
        assert(rounds.take(k).skip(1) =~= rounds.skip(1).take(k - 1));
        lemma_rounds_are_bounded(t + rounds[0], rounds.skip(1), target, rounds_done + 1);
    }
}

} // verus!
