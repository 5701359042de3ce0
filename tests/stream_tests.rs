use discussion_gateway::framer::{frame_stream, StreamEvent, StreamFramer};
use discussion_gateway::json::{buffered_reply_text, reply_fields};
use discussion_gateway::models::{available_models, permitted_models};
use discussion_gateway::gateway::buffered_attempt;
use discussion_gateway::retry::AttemptResult;

fn texts(events: &[StreamEvent]) -> Vec<String> {
    events
        .iter()
        .map(|e| match e {
            StreamEvent::Token(t) => format!("token:{}", t),
            StreamEvent::Done(t) => format!("done:{}", t),
        })
        .collect()
}

fn chunks(parts: &[&str]) -> Vec<Vec<u8>> {
    parts.iter().map(|p| p.as_bytes().to_vec()).collect()
}

#[test]
fn scenario_buffered_reply() {
    let body = "{\"response\":\"こんにちは\"}".as_bytes();
    assert_eq!(buffered_reply_text(body), Some("こんにちは".to_string()));
}

#[test]
fn buffered_reply_without_field_is_malformed() {
    assert_eq!(buffered_reply_text(b"{\"error\":\"model not found\"}"), None);
    assert_eq!(buffered_reply_text(b"not json"), None);
    assert_eq!(buffered_reply_text(b"{\"response\":42}"), None);
    assert_eq!(buffered_reply_text(b""), None);
}

#[test]
fn reply_fields_reads_done() {
    let f = reply_fields(b"{\"response\":\"\",\"done\":true}");
    assert_eq!(f.response, Some(String::new()));
    assert_eq!(f.done, Some(true));
    let g = reply_fields(b"{\"response\":\"x\"}");
    assert_eq!(g.done, None);
}

#[test]
fn scenario_stream_with_done_marker() {
    let (events, text) = frame_stream(&chunks(&["{\"response\":\"A\"}\n{\"response\":\"B\"}\n{\"done\":true}\n"]));
    assert_eq!(texts(&events), vec!["token:A", "token:B", "done:AB"]);
    assert_eq!(text, "AB");
}

#[test]
fn scenario_stream_closed_without_done() {
    let (events, text) = frame_stream(&chunks(&["{\"response\":\"A\"}\n"]));
    assert_eq!(texts(&events), vec!["token:A", "done:A"]);
    assert_eq!(text, "A");
}

#[test]
fn lines_split_across_chunks() {
    let (events, text) = frame_stream(&chunks(&["{\"resp", "onse\":\"こん", "にちは\"}\n{\"response\":", "\"!\"}\n", "{\"done\":true}"]));
    // the last line has no newline before the stream ends: it is not read
    assert_eq!(texts(&events), vec!["token:こんにちは", "token:!", "done:こんにちは!"]);
    assert_eq!(text, "こんにちは!");
}

#[test]
fn multibyte_character_split_across_chunks() {
    let whole = "{\"response\":\"議論\"}\n".as_bytes().to_vec();
    let (a, b) = whole.split_at(15);
    let (events, text) = frame_stream(&vec![a.to_vec(), b.to_vec()]);
    assert_eq!(texts(&events), vec!["token:議論", "done:議論"]);
    assert_eq!(text, "議論");
}

#[test]
fn malformed_and_blank_lines_are_skipped() {
    let (events, text) = frame_stream(&chunks(&["\n  \r\n{oops\n{\"response\":\"x\"}\r\n{\"response\":\"\"}\n{\"other\":1}\n{\"done\":true}\n"]));
    assert_eq!(texts(&events), vec!["token:x", "done:x"]);
    assert_eq!(text, "x");
}

#[test]
fn token_and_done_on_one_line() {
    let (events, text) = frame_stream(&chunks(&["{\"response\":\"A\"}\n{\"response\":\"B\",\"done\":true}\n"]));
    assert_eq!(texts(&events), vec!["token:A", "token:B", "done:AB"]);
    assert_eq!(text, "AB");
}

#[test]
fn nothing_after_done() {
    let (events, text) = frame_stream(&chunks(&["{\"done\":true}\n{\"response\":\"late\"}\n", "{\"response\":\"later\"}\n"]));
    assert_eq!(texts(&events), vec!["done:"]);
    assert_eq!(text, "");
}

#[test]
fn empty_stream_completes_with_empty_text() {
    let (events, text) = frame_stream(&Vec::new());
    assert_eq!(texts(&events), vec!["done:"]);
    assert_eq!(text, "");
}

#[test]
fn tokens_join_to_final_text_for_any_chunking() {
    let stream = "{\"response\":\"今日\"}\n{\"response\":\"は\"}\n\n{\"response\":\" 晴れ\"}\n{\"done\":false}\n{\"response\":\"です\"}\n";
    let bytes = stream.as_bytes();
    for size in 1..bytes.len() {
        let parts: Vec<Vec<u8>> = bytes.chunks(size).map(|c| c.to_vec()).collect();
        let (events, text) = frame_stream(&parts);
        let mut joined = String::new();
        let mut done = Vec::new();
        for (i, e) in events.iter().enumerate() {
            match e {
                StreamEvent::Token(t) => joined.push_str(t),
                StreamEvent::Done(t) => done.push((i, t.clone())),
            }
        }
        assert_eq!(done, vec![(events.len() - 1, joined.clone())]);
        assert_eq!(joined, "今日は 晴れです");
        assert_eq!(text, joined);
    }
}

#[test]
fn framer_reports_each_chunk() {
    let mut f = StreamFramer::new();
    assert!(texts(&f.push_chunk(b"{\"response\":\"a")).is_empty());
    assert_eq!(texts(&f.push_chunk(b"b\"}\n")), vec!["token:ab"]);
    assert_eq!(f.text(), "ab");
    assert!(!f.is_finished());
    let end = f.end_of_stream();
    assert!(matches!(end, Some(StreamEvent::Done(t)) if t == "ab"));
    assert!(f.is_finished());
    assert!(f.end_of_stream().is_none());
}

#[test]
fn model_list_keeps_permitted_names() {
    let body = br#"{"models":[{"name":"gemma3:4b"},{"name":"llama3:8b"},{"size":1},{"name":"gemma3:1b-it"}]}"#;
    assert_eq!(available_models(body), Ok(vec!["gemma3:4b".to_string(), "gemma3:1b-it".to_string()]));
}

#[test]
fn model_list_without_models_key_gives_defaults() {
    assert_eq!(available_models(b"{}"), Ok(vec!["gemma3:4b".to_string(), "gemma3:1b".to_string()]));
    assert_eq!(available_models(b"{\"models\":{}}"), Ok(vec!["gemma3:4b".to_string(), "gemma3:1b".to_string()]));
}

#[test]
fn model_list_empty_array() {
    assert_eq!(available_models(b"{\"models\":[]}"), Ok(Vec::new()));
}

#[test]
fn model_list_unparsable() {
    match available_models(b"<html>") {
        Err(m) => {
            assert!(m.starts_with("JSONパース失敗: "));
            assert!(m.len() > "JSONパース失敗: ".len());
            assert!(m.contains("line 1 column 1"));
        }
        Ok(_) => panic!("unparsable list accepted"),
    }
}

#[test]
fn permitted_models_filters_in_order() {
    let entries = vec![Some("gemma3:1b".to_string()), None, Some("phi".to_string()), Some("gemma3:4b".to_string())];
    assert_eq!(permitted_models(&entries), vec!["gemma3:1b".to_string(), "gemma3:4b".to_string()]);
}

#[test]
fn surrounding_whitespace_is_trimmed() {
    let (events, text) = frame_stream(&chunks(&["   {\"response\":\"x\"}\t \r\n \t{\"done\":true}  \n"]));
    assert_eq!(texts(&events), vec!["token:x", "done:x"]);
    assert_eq!(text, "x");
}

#[test]
fn parse_error_is_reported_with_its_message() {
    let f = reply_fields(b"{\"response\":");
    assert!(!f.parsed);
    assert!(f.error.is_some());
    assert!(f.response.is_none());
    let g = reply_fields(b"{}");
    assert!(g.parsed);
    assert!(g.error.is_none());
}

#[test]
fn buffered_body_classifies_the_attempt() {
    match buffered_attempt("{\"response\":\"こんにちは\"}".as_bytes()) {
        AttemptResult::Replied(t) => assert_eq!(t, "こんにちは"),
        AttemptResult::Failed(_) => panic!("reply not recognised"),
    }
    match buffered_attempt(b"{\"error\":\"busy\"}") {
        AttemptResult::Failed(e) => assert_eq!(e, "応答なし"),
        AttemptResult::Replied(_) => panic!("malformed reply accepted"),
    }
    assert!(matches!(buffered_attempt(b"garbage"), AttemptResult::Failed(_)));
}
