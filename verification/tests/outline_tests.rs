use novelseek::outline::{
    build_continuation_notice, build_continuation_prompt, build_continuation_system,
    build_outline_prompt, build_outline_system_prompt, GenerateOutlineStreamInput,
    OutlineController, OutlinePhase, RoundDecision,
};

fn sample_input(target: u32, requirements: Option<&str>) -> GenerateOutlineStreamInput {
    GenerateOutlineStreamInput {
        title: "星海".to_string(),
        genre: "科幻".to_string(),
        description: "一段旅程".to_string(),
        target_chapters: target,
        deepseek_key: "test-key".to_string(),
        requirements: requirements.map(|s| s.to_string()),
    }
}

fn chapters_text(from: u32, to: u32) -> String {
    let mut t = String::new();
    for n in from..=to {
        t.push_str(&format!("### 第{}章：标题\n- **目标**：推进\n", n));
    }
    t
}

#[test]
fn outline_prompt_carries_inputs_and_target() {
    let p = build_outline_prompt(&sample_input(12, None));
    assert!(p.starts_with("请为以下小说创建详细大纲：\n\n书名：星海\n题材：科幻\n简介：一段旅程\n目标章节数：12（必须严格按照这个数量生成章节大纲）\n\n【重要】"));
    assert!(p.contains("章节数必须恰好为12章"));
    assert!(p.contains("【必须生成恰好12章，每章格式如下】"));
    assert!(p.contains("（以此类推，直到第12章）"));
    assert!(p.contains("1. 章节数量严格等于12章"));
    assert!(!p.contains("特殊要求"));
}

#[test]
fn outline_prompt_includes_requirements_when_given() {
    let p = build_outline_prompt(&sample_input(5, Some("轻松幽默")));
    assert!(p.contains("特殊要求：轻松幽默\n\n【重要】"));
}

#[test]
fn outline_system_prompt_names_the_target() {
    let s = build_outline_system_prompt(10);
    assert!(s.starts_with("你是一位专业的小说策划师和编剧。"));
    assert!(s.contains("1. 章节数量必须严格等于用户指定的10章，不能多也不能少"));
}

#[test]
fn continuation_prompt_requests_the_missing_range() {
    let p = build_continuation_prompt("……结尾……", 8, 10);
    let expected = format!(
        r#"请继续完成大纲的章节部分。

【已生成内容的结尾】
{}

【续写要求】
1. 从第{}章继续生成，直到第{}章
2. 保持与前面相同的格式
3. 每章格式：
### 第X章：章节标题
- **时间**：本章发生的时间点
- **目标**：本章要完成的剧情目标
- **冲突**：本章的核心冲突或挑战
- **结尾钩子**：吸引读者继续阅读的悬念

请直接从第{}章开始续写，不要重复已有内容："#,
        "……结尾……", 8, 10, 8
    );
    assert_eq!(p, expected);
}

#[test]
fn continuation_system_names_the_ranges() {
    let s = build_continuation_system(7, 10);
    let expected = format!(
        r#"你正在续写一份小说大纲。前面的内容已经生成了第1章到第{}章，现在需要继续生成剩余的章节（第{}章到第{}章）。

请保持格式一致，直接续写章节内容，不要添加任何开头说明。"#,
        7, 8, 10
    );
    assert_eq!(s, expected);
}

#[test]
fn continuation_notice_names_progress() {
    let n = build_continuation_notice(7, 10);
    assert_eq!(
        n,
        "\n\n【系统：检测到大纲未完成（已生成到第7章，目标10章），正在自动续写...】\n\n"
    );
}

#[test]
fn controller_requests_chapters_eight_through_ten() {
    let input = sample_input(10, None);
    let mut ctl = OutlineController::new(10);
    let (_system, _user, tokens) = ctl.start(&input);
    assert_eq!(tokens, 8000);

    let round = chapters_text(1, 7);
    match ctl.record_round(&round, false) {
        RoundDecision::Continue { notice, system_prompt, user_prompt, max_tokens } => {
            assert!(user_prompt.contains("1. 从第8章继续生成，直到第10章"));
            assert!(user_prompt.contains("请直接从第8章开始续写"));
            assert!(system_prompt.contains("第1章到第7章"));
            assert!(system_prompt.contains("（第8章到第10章）"));
            assert!(notice.contains("已生成到第7章，目标10章"));
            assert_eq!(max_tokens, 10000);
        }
        _ => panic!("expected a continuation round"),
    }
}

#[test]
fn five_fruitless_continuations_end_exhausted_with_partial_content() {
    let input = sample_input(10, None);
    let mut ctl = OutlineController::new(10);
    let _ = ctl.start(&input);

    // The initial round and five continuation rounds never reach chapter 10.
    let round = chapters_text(1, 3);
    for _ in 0..5 {
        match ctl.record_round(&round, false) {
            RoundDecision::Continue { .. } => {}
            _ => panic!("expected a continuation while budget remains"),
        }
    }
    match ctl.record_round(&round, false) {
        RoundDecision::Exhausted => {}
        _ => panic!("expected exhaustion after five continuation rounds"),
    }
    // A successful partial result: all six rounds of text, nothing lost.
    let transcript = ctl.into_transcript();
    assert_eq!(transcript, round.repeat(6));
}

#[test]
fn reaching_the_target_satisfies() {
    let input = sample_input(4, None);
    let mut ctl = OutlineController::new(4);
    let _ = ctl.start(&input);
    match ctl.record_round(&chapters_text(1, 4), false) {
        RoundDecision::Satisfied => {}
        _ => panic!("expected satisfaction at the target"),
    }
}

#[test]
fn cancellation_after_a_round_stops_the_operation() {
    let input = sample_input(9, None);
    let mut ctl = OutlineController::new(9);
    let _ = ctl.start(&input);
    match ctl.record_round(&chapters_text(1, 2), true) {
        RoundDecision::CancelledStop => {}
        _ => panic!("expected a cancelled stop"),
    }
}

#[test]
fn phases_follow_the_decisions() {
    let mut ctl = OutlineController::new(3);
    assert_eq!(ctl.current_phase(), OutlinePhase::Initial);
    let _ = ctl.start(&sample_input(3, None));
    assert_eq!(ctl.current_phase(), OutlinePhase::AwaitingRound);
    let _ = ctl.record_round(&chapters_text(1, 1), false);
    assert_eq!(ctl.current_phase(), OutlinePhase::AwaitingRound);
    ctl.record_failure();
    assert_eq!(ctl.current_phase(), OutlinePhase::Failed);

    let mut done = OutlineController::new(2);
    let _ = done.start(&sample_input(2, None));
    let _ = done.record_round(&chapters_text(1, 2), false);
    assert_eq!(done.current_phase(), OutlinePhase::Satisfied);

    let mut stopped = OutlineController::new(2);
    let _ = stopped.start(&sample_input(2, None));
    let _ = stopped.record_round("", true);
    assert_eq!(stopped.current_phase(), OutlinePhase::Cancelled);
}
