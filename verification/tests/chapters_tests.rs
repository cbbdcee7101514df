use novelseek::chapters::find_last_chapter_number;

#[test]
fn no_marker_means_zero() {
    assert_eq!(find_last_chapter_number(""), 0);
    assert_eq!(find_last_chapter_number("一段没有标题的文本"), 0);
}

#[test]
fn highest_marker_wins_regardless_of_order() {
    assert_eq!(find_last_chapter_number("### 第3章：开端\n### 第10章：高潮\n### 第7章：转折"), 10);
}

#[test]
fn markers_one_through_seven_give_seven() {
    let mut t = String::new();
    for n in 1..=7 {
        t.push_str(&format!("### 第{}章：标题\n", n));
    }
    assert_eq!(find_last_chapter_number(&t), 7);
}

#[test]
fn marker_without_digits_is_no_marker() {
    assert_eq!(find_last_chapter_number("第X章"), 0);
    assert_eq!(find_last_chapter_number("第章"), 0);
}

#[test]
fn digits_without_closing_character_are_no_marker() {
    assert_eq!(find_last_chapter_number("第12回"), 0);
}

#[test]
fn marker_embedded_in_prose_counts() {
    assert_eq!(find_last_chapter_number("正如第5章所说，故事继续。"), 5);
}

#[test]
fn oversized_numbers_are_skipped() {
    assert_eq!(find_last_chapter_number("第99999999999999章"), 0);
    assert_eq!(find_last_chapter_number("第99999999999999章 第6章"), 6);
}

#[test]
fn number_at_the_32_bit_boundary() {
    assert_eq!(find_last_chapter_number("第4294967295章"), 4294967295);
    assert_eq!(find_last_chapter_number("第4294967296章"), 0);
}

#[test]
fn adjacent_markers_parse_independently() {
    assert_eq!(find_last_chapter_number("第1第2章"), 2);
    assert_eq!(find_last_chapter_number("第第9章"), 9);
}
