use vstd::prelude::*;
use crate::history::{split_messages, split_messages_heuristic, string_views};
use crate::templates::{
    ai_profiles_text, ai_response_text, discussion_analysis_text, discussion_start_text,
    discussion_summary_text, fill_ai_profiles, fill_ai_response, fill_discussion_analysis,
    fill_discussion_start, fill_discussion_summary, fill_incremental_summary,
    incremental_summary_text,
};
use crate::text::{chars_of, escaped_list, escaped_list_of, xml_escape, xml_escaped};

verus! {

/// What the front end shows for a discussion with no message yet.
pub const NO_MESSAGES_PLACEHOLDER: &'static str = "まだ発言はありません。議論を開始してください。";

/// What an empty history becomes once trimmed for analysis.
pub const NO_MESSAGES: &'static str = "まだ発言はありません。";

/// Appended after the recent messages when older ones were left out.
pub const OMITTED_MARK: &'static str = "[...以前の発言は省略...]";

/// The most recent messages a participant's prompt keeps.
pub const RESPONSE_HISTORY_MESSAGES: usize = 15;

/// The hint line when the caller gave no style hint.
pub const NO_HINT: &'static str = "（特別な指定はありません）";

/// What precedes a caller's style hint.
pub const HINT_PREFIX: &'static str = "ヒント: ";

/// The most profiles one prompt asks for.
pub const MAX_PROFILES: usize = 10;

/// `lines` joined by `'\n'`.
pub open spec fn joined_lines(lines: Seq<Seq<char>>) -> Seq<char>
    decreases lines.len(),
{
    if lines.len() == 0 {
        Seq::empty()
    } else if lines.len() == 1 {
        lines[0]
    } else {
        joined_lines(lines.drop_last()) + seq!['\n'] + lines.last()
    }
}

/// A history cut down to its last `max` messages, for a prompt.
pub open spec fn optimized_history(h: Seq<char>, max: nat) -> Seq<char> {
    if h.len() == 0 || h == NO_MESSAGES_PLACEHOLDER@ {
        NO_MESSAGES@
    } else {
        let m = split_messages(h);
        if m.len() <= max {
            h
        } else {
            joined_lines(m.subrange(m.len() - max, m.len() as int)) + OMITTED_MARK@
        }
    }
}

fn same_chars(a: &Vec<char>, b: &Vec<char>) -> (r: bool)
    ensures
        r == (a@ == b@),
{
    if a.len() != b.len() {
        return false;
    }
    let mut i: usize = 0;
    while i < a.len()
        invariant
            a@.len() == b@.len(),
            i <= a@.len(),
            forall|j: int| 0 <= j < i ==> a@[j] == b@[j],
        decreases a@.len() - i,
    {
        if a[i] != b[i] {
            return false;
        }
        i = i + 1;
    }
    assert(a@ =~= b@);
    true
}

/// Keeps the last `max_messages` messages of a conversation history, marking
/// that earlier ones were left out; a history with no more messages than that
/// is returned as it is, and an empty one becomes a short placeholder.
pub fn optimize_conversation_for_analysis(conversation_history: &str, max_messages: usize) -> (r: String)
    ensures
        r@ == optimized_history(conversation_history@, max_messages as nat),
{
    let h = chars_of(conversation_history);
    let placeholder = chars_of(NO_MESSAGES_PLACEHOLDER);
    if h.len() == 0 || same_chars(&h, &placeholder) {
        return String::from_str(NO_MESSAGES);
    }
    let msgs = split_messages_heuristic(conversation_history);
    let ghost m = string_views(msgs@);
    if msgs.len() <= max_messages {
        return String::from_str(conversation_history);
    }
    let start = msgs.len() - max_messages;
    let mut r = String::new();
    let mut i = start;
    while i < msgs.len()
        invariant
            m == string_views(msgs@),
            start <= i <= msgs@.len(),
            r@ == joined_lines(m.subrange(start as int, i as int)),
        decreases msgs@.len() - i,
    {
        proof {
            let sub = m.subrange(start as int, i + 1);
            assert(sub.drop_last() =~= m.subrange(start as int, i as int));
            assert(sub.last() == msgs@[i as int]@);
            if i == start {
                assert(sub[0] == msgs@[i as int]@);
            }
        }
        if i > start {
            r.append("\n");
            proof {
                reveal_strlit("\n");
            }
        }
        r.append(msgs[i].as_str());
        i = i + 1;
    }
    r.append(OMITTED_MARK);
    r
}

/// The history a participant's prompt shows.
pub open spec fn response_history(h: Seq<char>) -> Seq<char> {
    if h.len() == 0 {
        NO_MESSAGES_PLACEHOLDER@
    } else {
        optimized_history(h, RESPONSE_HISTORY_MESSAGES as nat)
    }
}

/// Builds the prompt for one participant's next turn: the topic, the
/// participant's name, role and description, and the last messages of the
/// history, each escaped for XML.
pub fn build_ai_response_prompt(
    participant_name: &str,
    role: &str,
    description: &str,
    conversation_history: &str,
    discussion_topic: &str,
) -> (r: String)
    ensures
        r@ == ai_response_text(
            xml_escaped(discussion_topic@),
            xml_escaped(participant_name@),
            xml_escaped(role@),
            xml_escaped(description@),
            xml_escaped(response_history(conversation_history@)),
        ),
{
    let formatted_history = if conversation_history.is_empty() {
        String::from_str(NO_MESSAGES_PLACEHOLDER)
    } else {
        optimize_conversation_for_analysis(conversation_history, RESPONSE_HISTORY_MESSAGES)
    };
    let topic_e = xml_escape(discussion_topic);
    let name_e = xml_escape(participant_name);
    let role_e = xml_escape(role);
    let desc_e = xml_escape(description);
    let hist_e = xml_escape(formatted_history.as_str());
    fill_ai_response(topic_e.as_str(), name_e.as_str(), role_e.as_str(), desc_e.as_str(), hist_e.as_str())
}

/// Builds the prompt that opens a discussion of `topic` among `participants`.
pub fn build_discussion_start_prompt(topic: &str, participants: &[String]) -> (r: String)
    ensures
        r@ == discussion_start_text(xml_escaped(topic@), escaped_list(participants@)),
{
    let participants_list = escaped_list_of(participants);
    let topic_e = xml_escape(topic);
    fill_discussion_start(topic_e.as_str(), participants_list.as_str())
}

/// Builds the prompt that asks for the points, stances, conflicts and common
/// ground of a discussion, as JSON.
pub fn build_discussion_analysis_prompt(
    discussion_topic: &str,
    conversation_history: &str,
    participants: &[String],
) -> (r: String)
    ensures
        r@ == discussion_analysis_text(
            xml_escaped(discussion_topic@),
            escaped_list(participants@),
            xml_escaped(conversation_history@),
        ),
{
    let participants_list = escaped_list_of(participants);
    let topic_e = xml_escape(discussion_topic);
    let hist_e = xml_escape(conversation_history);
    fill_discussion_analysis(topic_e.as_str(), participants_list.as_str(), hist_e.as_str())
}

/// The most recent messages the lightweight analysis looks at.
pub const RECENT_ANALYSIS_MESSAGES: usize = 15;

/// Builds the analysis prompt over the most recent messages only: the same
/// prompt as the full analysis, with the history cut down first.
pub fn build_lightweight_discussion_analysis_prompt(
    discussion_topic: &str,
    conversation_history: &str,
    participants: &[String],
) -> (r: String)
    ensures
        r@ == discussion_analysis_text(
            xml_escaped(discussion_topic@),
            escaped_list(participants@),
            xml_escaped(optimized_history(conversation_history@, RECENT_ANALYSIS_MESSAGES as nat)),
        ),
{
    let recent = optimize_conversation_for_analysis(conversation_history, RECENT_ANALYSIS_MESSAGES);
    build_discussion_analysis_prompt(discussion_topic, recent.as_str(), participants)
}

/// Builds the prompt that asks for a summary of a whole discussion.
pub fn build_discussion_summary_prompt(
    discussion_topic: &str,
    conversation_history: &str,
    participants: &[String],
) -> (r: String)
    ensures
        r@ == discussion_summary_text(
            xml_escaped(discussion_topic@),
            escaped_list(participants@),
            xml_escaped(conversation_history@),
        ),
{
    let participants_list = escaped_list_of(participants);
    let topic_e = xml_escape(discussion_topic);
    let hist_e = xml_escape(conversation_history);
    fill_discussion_summary(topic_e.as_str(), participants_list.as_str(), hist_e.as_str())
}

/// Builds the prompt that folds the messages since the last summary into it.
pub fn build_incremental_summary_prompt(
    discussion_topic: &str,
    previous_summary: &str,
    new_messages: &str,
    participants: &[String],
) -> (r: String)
    ensures
        r@ == incremental_summary_text(
            xml_escaped(discussion_topic@),
            escaped_list(participants@),
            xml_escaped(previous_summary@),
            xml_escaped(new_messages@),
        ),
{
    let topic_e = xml_escape(discussion_topic);
    let prev_e = xml_escape(previous_summary);
    let diff_e = xml_escape(new_messages);
    let participants_list = escaped_list_of(participants);
    fill_incremental_summary(topic_e.as_str(), participants_list.as_str(), prev_e.as_str(), diff_e.as_str())
}

/// How many profiles a prompt asks for: at least one, at most ten.
pub open spec fn profile_count(desired: nat) -> nat {
    if desired == 0 {
        1
    } else if desired > MAX_PROFILES {
        MAX_PROFILES as nat
    } else {
        desired
    }
}

/// The character of the decimal digit `d`.
pub open spec fn digit_char(d: nat) -> char {
    if d == 0 {
        '0'
    } else if d == 1 {
        '1'
    } else if d == 2 {
        '2'
    } else if d == 3 {
        '3'
    } else if d == 4 {
        '4'
    } else if d == 5 {
        '5'
    } else if d == 6 {
        '6'
    } else if d == 7 {
        '7'
    } else if d == 8 {
        '8'
    } else {
        '9'
    }
}

/// The decimal digits of `n`.
pub open spec fn decimal_text(n: nat) -> Seq<char>
    decreases n,
{
    if n < 10 {
        seq![digit_char(n)]
    } else {
        decimal_text(n / 10).push(digit_char(n % 10))
    }
}

fn digit(d: usize) -> (c: char)
    requires
        d < 10,
    ensures
        c == digit_char(d as nat),
{
    if d == 0 {
        '0'
    } else if d == 1 {
        '1'
    } else if d == 2 {
        '2'
    } else if d == 3 {
        '3'
    } else if d == 4 {
        '4'
    } else if d == 5 {
        '5'
    } else if d == 6 {
        '6'
    } else if d == 7 {
        '7'
    } else if d == 8 {
        '8'
    } else {
        '9'
    }
}

/// The decimal digits of `n`.
pub fn decimal_string(n: usize) -> (r: String)
    ensures
        r@ == decimal_text(n as nat),
{
    let mut digits: Vec<char> = Vec::new();
    let mut m = n;
    // digits holds the digits of n % 10^k, least significant first
    while m >= 10
        invariant
            decimal_text(n as nat) == decimal_text(m as nat) + digits@.reverse(),
        decreases m,
    {
        let ghost before = digits@;
        digits.push(digit(m % 10));
        proof {
            assert(digits@.reverse() =~= seq![digit_char((m % 10) as nat)] + before.reverse());
            assert(decimal_text(m as nat) == decimal_text((m / 10) as nat).push(digit_char((m % 10) as nat)));
            assert(decimal_text((m / 10) as nat).push(digit_char((m % 10) as nat)) + before.reverse()
                =~= decimal_text((m / 10) as nat) + digits@.reverse());
        }
        m = m / 10;
    }
    let mut r = String::new();
    r.push(digit(m));
    let mut i = digits.len();
    while i > 0
        invariant
            i <= digits@.len(),
            decimal_text(n as nat) == decimal_text(m as nat) + digits@.reverse(),
            m < 10,
            r@ == decimal_text(m as nat) + digits@.reverse().subrange(0, (digits@.len() - i) as int),
        decreases i,
    {
        i = i - 1;
        r.push(digits[i]);
        assert(r@ =~= decimal_text(m as nat) + digits@.reverse().subrange(0, (digits@.len() - i) as int));
    }
    assert(digits@.reverse().subrange(0, digits@.len() as int) =~= digits@.reverse());
    r
}

/// The hint line of a profiles prompt.
pub open spec fn hint_line(hint: Seq<char>) -> Seq<char> {
    if hint.len() == 0 {
        NO_HINT@
    } else {
        HINT_PREFIX@ + xml_escaped(hint)
    }
}

/// Builds the prompt that asks for participant profiles (name, role,
/// description) for a topic, as a JSON array; the count asked for is held
/// between one and ten.
pub fn build_ai_profiles_prompt(discussion_topic: &str, desired_count: usize, style_hint: &str) -> (r: String)
    ensures
        r@ == ai_profiles_text(
            xml_escaped(discussion_topic@),
            decimal_text(profile_count(desired_count as nat)),
            hint_line(style_hint@),
        ),
{
    let count = if desired_count == 0 {
        1
    } else if desired_count > MAX_PROFILES {
        MAX_PROFILES
    } else {
        desired_count
    };
    let hint = if style_hint.is_empty() {
        String::from_str(NO_HINT)
    } else {
        let mut h = String::from_str(HINT_PREFIX);
        let e = xml_escape(style_hint);
        h.append(e.as_str());
        h
    };
    let topic_e = xml_escape(discussion_topic);
    let count_text = decimal_string(count);
    fill_ai_profiles(topic_e.as_str(), count_text.as_str(), hint.as_str())
}

} // verus!
