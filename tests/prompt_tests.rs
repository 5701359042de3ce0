use discussion_gateway::history::split_messages_heuristic;
use discussion_gateway::prompts::{
    build_ai_profiles_prompt, build_ai_response_prompt, build_discussion_analysis_prompt,
    build_discussion_start_prompt, build_lightweight_discussion_analysis_prompt, build_discussion_summary_prompt, build_incremental_summary_prompt,
    decimal_string, optimize_conversation_for_analysis,
};
use discussion_gateway::logmask::mask_prompt_for_log;
use discussion_gateway::session::SavedSession;
use discussion_gateway::text::{escaped_list_of, xml_escape};

fn names(v: &[&str]) -> Vec<String> {
    v.iter().map(|s| s.to_string()).collect()
}

#[test]
fn escape_replaces_the_five_special_characters() {
    assert_eq!(xml_escape("a & b < c > d \"e\" 'f'"), "a &amp; b &lt; c &gt; d &quot;e&quot; &apos;f&apos;");
    assert_eq!(xml_escape(""), "");
    assert_eq!(xml_escape("議論"), "議論");
    assert_eq!(xml_escape("&amp;"), "&amp;amp;");
}

#[test]
fn participant_list_is_escaped_and_comma_joined() {
    assert_eq!(escaped_list_of(&names(&["A", "B<x>", "C"])), "A, B&lt;x&gt;, C");
    assert_eq!(escaped_list_of(&names(&["solo"])), "solo");
    assert_eq!(escaped_list_of(&[]), "");
}

#[test]
fn start_prompt_fills_topic_and_participants() {
    let p = build_discussion_start_prompt("AI & 社会", &names(&["佐藤", "鈴木"]));
    assert!(p.starts_with("<discussion_start>\n<topic>AI &amp; 社会</topic>\n<participants>佐藤, 鈴木</participants>\n"));
    assert!(p.contains("議論のテーマは「AI &amp; 社会」です。\n参加者は佐藤, 鈴木です。"));
    assert!(p.ends_with("</instructions>\n</discussion_start>"));
    assert!(!p.contains("{topic}"));
}

#[test]
fn analysis_prompt_fills_each_slot() {
    let p = build_discussion_analysis_prompt("T", "佐藤: <はい>", &names(&["佐藤"]));
    assert!(p.starts_with("<discussion_analysis>\n<topic>T</topic>\n<participants>佐藤</participants>\n\n<current_conversation>\n佐藤: &lt;はい&gt;\n</current_conversation>"));
    assert!(p.contains("\"mainPoints\": ["));
    assert!(p.ends_with("</discussion_analysis>"));
}

#[test]
fn summary_prompt_repeats_the_topic() {
    let p = build_discussion_summary_prompt("税制", "A: x", &names(&["A", "B"]));
    assert!(p.starts_with("<discussion_summary>\n<topic>税制</topic>\n<participants>A, B</participants>\n\n<conversation_to_summarize>\nA: x\n</conversation_to_summarize>"));
    assert!(p.contains("テーマは「税制」です。"));
    assert!(p.ends_with("</discussion_summary>"));
}

#[test]
fn incremental_prompt_holds_both_parts() {
    let p = build_incremental_summary_prompt("T", "前の要約", "B: 新しい'発言'", &names(&["A"]));
    assert!(p.contains("<previous_summary>\n前の要約\n</previous_summary>"));
    assert!(p.contains("<new_messages>\nB: 新しい&apos;発言&apos;\n</new_messages>"));
    assert!(p.starts_with("<incremental_discussion_summary>\n<topic>T</topic>\n<participants>A</participants>"));
}

#[test]
fn response_prompt_for_empty_history() {
    let p = build_ai_response_prompt("佐藤", "教師", "穏やか", "", "教育");
    assert!(p.contains("<conversation_history>\nまだ発言はありません。議論を開始してください。\n</conversation_history>"));
    assert!(p.contains("<name>佐藤</name>\n<role>教師</role>\n<description>穏やか</description>"));
    assert!(p.contains("あなたは佐藤で、役職または職業が教師です。穏やか"));
    assert!(p.contains("回答は佐藤の発言内容のみを返してください。"));
}

#[test]
fn response_prompt_keeps_last_fifteen_messages() {
    let history: Vec<String> = (1..=20).map(|i| format!("話者{}: 発言{}", i, i)).collect();
    let p = build_ai_response_prompt("A", "R", "D", &history.join("\n"), "T");
    assert!(!p.contains("話者5: 発言5\n"));
    assert!(p.contains("話者6: 発言6\n話者7: 発言7"));
    assert!(p.contains("話者20: 発言20[...以前の発言は省略...]\n</conversation_history>"));
}

#[test]
fn optimize_short_history_is_unchanged() {
    let h = "A: 一\nB: 二\n";
    assert_eq!(optimize_conversation_for_analysis(h, 15), h);
}

#[test]
fn optimize_empty_history() {
    assert_eq!(optimize_conversation_for_analysis("", 15), "まだ発言はありません。");
    assert_eq!(
        optimize_conversation_for_analysis("まだ発言はありません。議論を開始してください。", 3),
        "まだ発言はありません。"
    );
}

#[test]
fn optimize_keeps_the_tail() {
    let h = "  A: 1  \nshort\nB: 2\nC: 3\n";
    assert_eq!(optimize_conversation_for_analysis(h, 2), "B: 2\nC: 3[...以前の発言は省略...]");
    assert_eq!(optimize_conversation_for_analysis(h, 0), "[...以前の発言は省略...]");
}

#[test]
fn split_keeps_labelled_or_long_lines() {
    let v = split_messages_heuristic("  A: hi \n\nok\nthis line is long\n\u{3000}B:x\u{3000}");
    assert_eq!(v, vec!["A: hi", "this line is long", "B:x"]);
}

#[test]
fn split_falls_back_to_whole_history() {
    assert_eq!(split_messages_heuristic("  はい  "), vec!["はい"]);
    assert_eq!(split_messages_heuristic("a\nb"), vec!["a\nb"]);
    assert!(split_messages_heuristic("   \n  ").is_empty());
    assert!(split_messages_heuristic("").is_empty());
}

#[test]
fn split_counts_characters_not_bytes() {
    // eight characters, more than eight bytes
    assert_eq!(split_messages_heuristic("ああああああああ\n一二三四五六七八九"), vec!["一二三四五六七八九"]);
}

#[test]
fn profiles_prompt_count_is_held_between_one_and_ten() {
    let p0 = build_ai_profiles_prompt("T", 0, "");
    assert!(p0.contains("<count>1</count>"));
    assert!(p0.contains("AI参加者プロフィールを1名分"));
    let p4 = build_ai_profiles_prompt("T", 4, "");
    assert!(p4.contains("<count>4</count>"));
    let p20 = build_ai_profiles_prompt("T", 20, "");
    assert!(p20.contains("<count>10</count>"));
    assert!(p20.contains("プロフィールを10名分"));
}

#[test]
fn profiles_prompt_hint_line() {
    let plain = build_ai_profiles_prompt("T", 3, "");
    assert!(plain.contains("<hints>（特別な指定はありません）</hints>"));
    let hinted = build_ai_profiles_prompt("A&B", 3, "<明るく>");
    assert!(hinted.contains("<hints>ヒント: &lt;明るく&gt;</hints>"));
    assert!(hinted.contains("<topic>A&amp;B</topic>"));
}

#[test]
fn decimal_digits() {
    assert_eq!(decimal_string(0), "0");
    assert_eq!(decimal_string(7), "7");
    assert_eq!(decimal_string(10), "10");
    assert_eq!(decimal_string(1234567890), "1234567890");
    assert_eq!(decimal_string(usize::MAX), usize::MAX.to_string());
}

#[test]
fn session_from_columns_defaults_missing_ones() {
    let s = SavedSession::from_columns(Some(7), Some("T".to_string()), None, Some("[]".to_string()), None, Some("2024-01-01 00:00:00".to_string()));
    assert_eq!(s.id, 7);
    assert_eq!(s.topic, "T");
    assert_eq!(s.participants, "");
    assert_eq!(s.messages, "[]");
    assert_eq!(s.created_at, "");
    assert_eq!(s.updated_at, "2024-01-01 00:00:00");
    let e = SavedSession::from_columns(None, None, None, None, None, None);
    assert_eq!(e.id, 0);
}

#[test]
fn short_prompt_is_logged_whole() {
    assert_eq!(mask_prompt_for_log("hello"), "hello");
    let hundred = "a".repeat(100);
    assert_eq!(mask_prompt_for_log(&hundred), hundred);
    assert_eq!(mask_prompt_for_log(""), "");
}

#[test]
fn long_ascii_prompt_is_cut_at_fifty_bytes() {
    let p = "b".repeat(101);
    assert_eq!(mask_prompt_for_log(&p), format!("<{}>...[51文字省略]", "b".repeat(50)));
}

#[test]
fn long_prompt_is_cut_at_a_character_boundary() {
    // three bytes per character: 48 bytes fit, 50 would split the seventeenth
    let p = "あ".repeat(40);
    assert_eq!(mask_prompt_for_log(&p), format!("<{}>...[24文字省略]", "あ".repeat(16)));
}

#[test]
fn lightweight_analysis_uses_recent_messages() {
    let history: Vec<String> = (1..=20).map(|i| format!("話者{}: 発言{}", i, i)).collect();
    let history = history.join("\n");
    let p = build_lightweight_discussion_analysis_prompt("T", &history, &names(&["A"]));
    assert!(p.contains("<current_conversation>\n話者6: 発言6\n"));
    assert!(p.contains("話者20: 発言20[...以前の発言は省略...]\n</current_conversation>"));
    assert!(!p.contains("話者5: 発言5\n"));
    let short = build_lightweight_discussion_analysis_prompt("T", "A: x", &names(&["A"]));
    assert_eq!(short, build_discussion_analysis_prompt("T", "A: x", &names(&["A"])));
}
