use vstd::prelude::*;

verus! {
// The fixed text of the prompt that opens a discussion, between its slots.
pub const DISCUSSION_START_0: &'static str = r#"<discussion_start>
<topic>"#;

pub const DISCUSSION_START_1: &'static str = r#"</topic>
<participants>"#;

pub const DISCUSSION_START_2: &'static str = r#"</participants>

<instructions>
議論のテーマは「"#;

pub const DISCUSSION_START_3: &'static str = r#"」です。
参加者は"#;

pub const DISCUSSION_START_4: &'static str = r#"です。

議論を開始するための導入的な発言をしてください。以下の要素を含めてください：
- 主張の提示
- 主張の根拠
- 参加者への問いかけ

自然で建設的な議論の開始を促すような発言をお願いします。
</instructions>
</discussion_start>"#;

/// The text of the prompt that opens a discussion, with each slot filled.
pub open spec fn discussion_start_text(topic: Seq<char>, participants_list: Seq<char>) -> Seq<char> {
    DISCUSSION_START_0@
        + topic
        + DISCUSSION_START_1@
        + participants_list
        + DISCUSSION_START_2@
        + topic
        + DISCUSSION_START_3@
        + participants_list
        + DISCUSSION_START_4@
}

pub(crate) fn fill_discussion_start(topic: &str, participants_list: &str) -> (r: String)
    ensures
        r@ == discussion_start_text(topic@, participants_list@),
{
    let mut r = String::from_str(DISCUSSION_START_0);
    r.append(topic);
    r.append(DISCUSSION_START_1);
    r.append(participants_list);
    r.append(DISCUSSION_START_2);
    r.append(topic);
    r.append(DISCUSSION_START_3);
    r.append(participants_list);
    r.append(DISCUSSION_START_4);
    r
}

// The fixed text of the prompt that asks for an analysis of a discussion as JSON, between its slots.
pub const DISCUSSION_ANALYSIS_0: &'static str = r#"<discussion_analysis>
<topic>"#;

pub const DISCUSSION_ANALYSIS_1: &'static str = r#"</topic>
<participants>"#;

pub const DISCUSSION_ANALYSIS_2: &'static str = r#"</participants>

<current_conversation>
"#;

pub const DISCUSSION_ANALYSIS_3: &'static str = r#"
</current_conversation>

<instructions>
この議論を分析し、以下の要素を抽出してください：

1. **主要論点** - 議論の中心となっている具体的な争点
2. **各参加者の立場** - 参加者ごとの現在の見解や主張
3. **対立点** - 参加者間で意見が分かれている具体的なポイント
4. **共通認識** - 参加者が共有している認識や合意点
5. **未探索領域** - まだ十分に議論されていない関連トピック

JSON形式で以下の構造で出力してください：

{
  "mainPoints": [
    {
      "point": "論点の具体的な内容",
      "description": "論点の詳細説明"
    }
  ],
  "participantStances": [
    {
      "participant": "参加者名",
      "stance": "その参加者の立場・主張",
      "keyArguments": ["主要な論拠1", "主要な論拠2"]
    }
  ],
  "conflicts": [
    {
      "issue": "対立している具体的な問題",
      "sides": ["立場A", "立場B"],
      "description": "対立の詳細"
    }
  ],
  "commonGround": [
    "共通認識1",
    "共通認識2"
  ],
  "unexploredAreas": [
    "未探索トピック1",
    "未探索トピック2"
  ]
}

重要：
- 必ず有効なJSON形式で応答すること
</instructions>
</discussion_analysis>"#;

/// The text of the prompt that asks for an analysis of a discussion as JSON, with each slot filled.
pub open spec fn discussion_analysis_text(discussion_topic: Seq<char>, participants_list: Seq<char>, conversation_history: Seq<char>) -> Seq<char> {
    DISCUSSION_ANALYSIS_0@
        + discussion_topic
        + DISCUSSION_ANALYSIS_1@
        + participants_list
        + DISCUSSION_ANALYSIS_2@
        + conversation_history
        + DISCUSSION_ANALYSIS_3@
}

pub(crate) fn fill_discussion_analysis(discussion_topic: &str, participants_list: &str, conversation_history: &str) -> (r: String)
    ensures
        r@ == discussion_analysis_text(discussion_topic@, participants_list@, conversation_history@),
{
    let mut r = String::from_str(DISCUSSION_ANALYSIS_0);
    r.append(discussion_topic);
    r.append(DISCUSSION_ANALYSIS_1);
    r.append(participants_list);
    r.append(DISCUSSION_ANALYSIS_2);
    r.append(conversation_history);
    r.append(DISCUSSION_ANALYSIS_3);
    r
}

// The fixed text of the prompt that asks for a summary of a whole discussion, between its slots.
pub const DISCUSSION_SUMMARY_0: &'static str = r#"<discussion_summary>
<topic>"#;

pub const DISCUSSION_SUMMARY_1: &'static str = r#"</topic>
<participants>"#;

pub const DISCUSSION_SUMMARY_2: &'static str = r#"</participants>

<conversation_to_summarize>
"#;

pub const DISCUSSION_SUMMARY_3: &'static str = r#"
</conversation_to_summarize>

<instructions>
以下の議論を要約してください。テーマは「"#;

pub const DISCUSSION_SUMMARY_4: &'static str = r#"」です。

重要：各参加者の「立場」を固定化せず、「議論の争点」を中心に要約してください。

要約に含めるべき要素：
1. 議論で浮上した主要な争点・論点
2. 提起された具体例や事例
3. 検証が必要な仮定や課題
4. 参加者間で生まれた疑問や質問
5. 未解決の問題や深掘りが必要な点

要約は以下の形式で出力してください：

【議論の争点】
- 争点1: [具体的な論点]
- 争点2: [具体的な論点]

【提起された具体例・事例】
- [具体例1]
- [具体例2]

【検証が必要な仮定】
- [仮定1]: [検証ポイント]
- [仮定2]: [検証ポイント]

【未解決の課題】
- [課題1]: [深掘りの必要性]
- [課題2]: [検討が必要な理由]

【次の議論の方向性】
- [継続すべき論点]
- [新たに検討すべき視点]

この要約により、議論が深化し続けるようにしてください。
</instructions>
</discussion_summary>"#;

/// The text of the prompt that asks for a summary of a whole discussion, with each slot filled.
pub open spec fn discussion_summary_text(discussion_topic: Seq<char>, participants_list: Seq<char>, conversation_history: Seq<char>) -> Seq<char> {
    DISCUSSION_SUMMARY_0@
        + discussion_topic
        + DISCUSSION_SUMMARY_1@
        + participants_list
        + DISCUSSION_SUMMARY_2@
        + conversation_history
        + DISCUSSION_SUMMARY_3@
        + discussion_topic
        + DISCUSSION_SUMMARY_4@
}

pub(crate) fn fill_discussion_summary(discussion_topic: &str, participants_list: &str, conversation_history: &str) -> (r: String)
    ensures
        r@ == discussion_summary_text(discussion_topic@, participants_list@, conversation_history@),
{
    let mut r = String::from_str(DISCUSSION_SUMMARY_0);
    r.append(discussion_topic);
    r.append(DISCUSSION_SUMMARY_1);
    r.append(participants_list);
    r.append(DISCUSSION_SUMMARY_2);
    r.append(conversation_history);
    r.append(DISCUSSION_SUMMARY_3);
    r.append(discussion_topic);
    r.append(DISCUSSION_SUMMARY_4);
    r
}

// The fixed text of the prompt that folds new messages into an earlier summary, between its slots.
pub const INCREMENTAL_SUMMARY_0: &'static str = r#"<incremental_discussion_summary>
<topic>"#;

pub const INCREMENTAL_SUMMARY_1: &'static str = r#"</topic>
<participants>"#;

pub const INCREMENTAL_SUMMARY_2: &'static str = r#"</participants>

<previous_summary>
"#;

pub const INCREMENTAL_SUMMARY_3: &'static str = r#"
</previous_summary>

<new_messages>
"#;

pub const INCREMENTAL_SUMMARY_4: &'static str = r#"
</new_messages>

<instructions>
上記の previous_summary はこれまでの議論の要約です。new_messages は今回新たに追加された発言のみです。
これらを統合し、同じフォーマット/粒度で最新の包括的要約を再生成してください。

要件:
- 既存の重要論点/未解決事項を維持しつつ、新規発言で追加/修正/解決された点を反映
- 重複は統合し簡潔化
- 以前の要約から削除すべき内容が明確な場合のみ削除（根拠のなく失われた情報は削除しない）
- 形式は従来の【議論の争点】【提起された具体例・事例】... 等の見出し構造をそのまま踏襲
- 追加された具体例/仮定/未解決課題を適切なセクションに組み込む
- 出力は完全な最新要約のみ（差分表示や説明文を含めない）
</instructions>
</incremental_discussion_summary>"#;

/// The text of the prompt that folds new messages into an earlier summary, with each slot filled.
pub open spec fn incremental_summary_text(topic: Seq<char>, participants: Seq<char>, previous_summary: Seq<char>, new_messages: Seq<char>) -> Seq<char> {
    INCREMENTAL_SUMMARY_0@
        + topic
        + INCREMENTAL_SUMMARY_1@
        + participants
        + INCREMENTAL_SUMMARY_2@
        + previous_summary
        + INCREMENTAL_SUMMARY_3@
        + new_messages
        + INCREMENTAL_SUMMARY_4@
}

pub(crate) fn fill_incremental_summary(topic: &str, participants: &str, previous_summary: &str, new_messages: &str) -> (r: String)
    ensures
        r@ == incremental_summary_text(topic@, participants@, previous_summary@, new_messages@),
{
    let mut r = String::from_str(INCREMENTAL_SUMMARY_0);
    r.append(topic);
    r.append(INCREMENTAL_SUMMARY_1);
    r.append(participants);
    r.append(INCREMENTAL_SUMMARY_2);
    r.append(previous_summary);
    r.append(INCREMENTAL_SUMMARY_3);
    r.append(new_messages);
    r.append(INCREMENTAL_SUMMARY_4);
    r
}

// The fixed text of the prompt for one participant's next turn, between its slots.
pub const AI_RESPONSE_0: &'static str = r#"<discussion_context>
<discussion_topic>"#;

pub const AI_RESPONSE_1: &'static str = r#"</discussion_topic>

<participant>
<name>"#;

pub const AI_RESPONSE_2: &'static str = r#"</name>
<role>"#;

pub const AI_RESPONSE_3: &'static str = r#"</role>
<description>"#;

pub const AI_RESPONSE_4: &'static str = r#"</description>
</participant>

<conversation_history>
"#;

pub const AI_RESPONSE_5: &'static str = r#"
</conversation_history>

<discussion_guidelines>
議論を深めるために、以下のいずれかの要素を含めてください：

1. 深掘りの要素
2. 新しい視点の提供
3. 建設的な対話

</discussion_guidelines>

<instructions>
あなたは"#;

pub const AI_RESPONSE_6: &'static str = r#"で、役職または職業が"#;

pub const AI_RESPONSE_7: &'static str = r#"です。"#;

pub const AI_RESPONSE_8: &'static str = r#"

議論のテーマは「"#;

pub const AI_RESPONSE_9: &'static str = r#"」です。
上記のdiscussion_guidelinesに従い、議論を深める発言をしてください。

重要：会話履歴で「ユーザー」と表示されているのは参加者の一人です。そして、あなたはあくまで"#;

pub const AI_RESPONSE_10: &'static str = r#"であり、"#;

pub const AI_RESPONSE_11: &'static str = r#"として発言してください。

必須要件：
- 前の発言者に具体的に反応する（質問に対しては意見を、意見に対しては反応を）
- 「ユーザー」が質問をしている場合は、質問に対する自分の立場を明確に表明する
- 「ユーザー」が意見を述べている場合は、その意見に対して賛成・反対・補足などの反応をする
- 具体例、疑問、仮定、検証のいずれかを含める
- "#;

pub const AI_RESPONSE_12: &'static str = r#"らしい視点と口調を維持
- 議論を前進させる内容にする
- 人間の参加者（ユーザー）の意見を尊重し、適切に応答する
- 発言は一言二言程度で、短くすることを心がけてください


回答は"#;

pub const AI_RESPONSE_13: &'static str = r#"の発言内容のみを返してください。説明や注釈は不要です。
日本語で口語の文章で発言してください。
</instructions>
</discussion_context>"#;

/// The text of the prompt for one participant's next turn, with each slot filled.
pub open spec fn ai_response_text(discussion_topic: Seq<char>, participant_name: Seq<char>, role: Seq<char>, description: Seq<char>, conversation_history: Seq<char>) -> Seq<char> {
    AI_RESPONSE_0@
        + discussion_topic
        + AI_RESPONSE_1@
        + participant_name
        + AI_RESPONSE_2@
        + role
        + AI_RESPONSE_3@
        + description
        + AI_RESPONSE_4@
        + conversation_history
        + AI_RESPONSE_5@
        + participant_name
        + AI_RESPONSE_6@
        + role
        + AI_RESPONSE_7@
        + description
        + AI_RESPONSE_8@
        + discussion_topic
        + AI_RESPONSE_9@
        + participant_name
        + AI_RESPONSE_10@
        + participant_name
        + AI_RESPONSE_11@
        + participant_name
        + AI_RESPONSE_12@
        + participant_name
        + AI_RESPONSE_13@
}

pub(crate) fn fill_ai_response(discussion_topic: &str, participant_name: &str, role: &str, description: &str, conversation_history: &str) -> (r: String)
    ensures
        r@ == ai_response_text(discussion_topic@, participant_name@, role@, description@, conversation_history@),
{
    let mut r = String::from_str(AI_RESPONSE_0);
    r.append(discussion_topic);
    r.append(AI_RESPONSE_1);
    r.append(participant_name);
    r.append(AI_RESPONSE_2);
    r.append(role);
    r.append(AI_RESPONSE_3);
    r.append(description);
    r.append(AI_RESPONSE_4);
    r.append(conversation_history);
    r.append(AI_RESPONSE_5);
    r.append(participant_name);
    r.append(AI_RESPONSE_6);
    r.append(role);
    r.append(AI_RESPONSE_7);
    r.append(description);
    r.append(AI_RESPONSE_8);
    r.append(discussion_topic);
    r.append(AI_RESPONSE_9);
    r.append(participant_name);
    r.append(AI_RESPONSE_10);
    r.append(participant_name);
    r.append(AI_RESPONSE_11);
    r.append(participant_name);
    r.append(AI_RESPONSE_12);
    r.append(participant_name);
    r.append(AI_RESPONSE_13);
    r
}

// The fixed text of the prompt that asks for participant profiles as JSON, between its slots.
pub const AI_PROFILES_0: &'static str = r#"<ai_profiles_generation>
<topic>"#;

pub const AI_PROFILES_1: &'static str = r#"</topic>
<count>"#;

pub const AI_PROFILES_2: &'static str = r#"</count>
<hints>"#;

pub const AI_PROFILES_3: &'static str = r#"</hints>

<instructions>
次の議論テーマに適したAI参加者プロフィールを"#;

pub const AI_PROFILES_4: &'static str = r#"名分、JSON配列のみで生成してください。
各要素は必ず次のキーを含めてください： name, role, description。

要件：
- name: 参加者の短い日本語の名前（一般的な人名）。　テーマにそぐわなくてよいから、多様な名前を使用してください。
- role: テーマに関連する役職/立場/専門領域。
- description: 100文字前後で、その人物の視点・価値観・発言スタイルを簡潔に説明。　テーマにそぐわなくてよいから、個性的な視点を持たせてください。
- 視点がバラけるように、賛成・反対・懐疑・中立・実務など多様性を持たせる。テーマにそぐわなくてよいから、個性的な視点を持たせてください。
- 参加者同士で名前・役割の重複は避ける。

出力フォーマット（必ず純粋なJSONのみにしてください。）：

[
  { "name": "", "role": "", "description": "" }
]
</instructions>
</ai_profiles_generation>"#;

/// The text of the prompt that asks for participant profiles as JSON, with each slot filled.
pub open spec fn ai_profiles_text(discussion_topic: Seq<char>, count: Seq<char>, hint_line: Seq<char>) -> Seq<char> {
    AI_PROFILES_0@
        + discussion_topic
        + AI_PROFILES_1@
        + count
        + AI_PROFILES_2@
        + hint_line
        + AI_PROFILES_3@
        + count
        + AI_PROFILES_4@
}

pub(crate) fn fill_ai_profiles(discussion_topic: &str, count: &str, hint_line: &str) -> (r: String)
    ensures
        r@ == ai_profiles_text(discussion_topic@, count@, hint_line@),
{
    let mut r = String::from_str(AI_PROFILES_0);
    r.append(discussion_topic);
    r.append(AI_PROFILES_1);
    r.append(count);
    r.append(AI_PROFILES_2);
    r.append(hint_line);
    r.append(AI_PROFILES_3);
    r.append(count);
    r.append(AI_PROFILES_4);
    r
}

} // verus!
