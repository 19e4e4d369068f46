use chatbot_core::assembler::assemble_question;
use chatbot_core::assembler::get_attachments;
use chatbot_core::assembler::message_is_empty;
use chatbot_core::assembler::strip_mention;
use chatbot_core::assembler::summarize_url;
use chatbot_core::assembler::truncate_chars;
use chatbot_core::assembler::AttachmentInfo;
use chatbot_core::chunker::format_reply_chunks;
use chatbot_core::chunker::sub_strings;
use chatbot_core::text::trim_blank;
use chatbot_core::topic::parse_topic_change_from_json;

fn att(url: &str, content_type: Option<&str>) -> AttachmentInfo {
    AttachmentInfo { url: url.to_string(), content_type: content_type.map(|t| t.to_string()) }
}

#[test]
fn chunks_concatenate_back_to_the_input() {
    let text = "The quick brown fox jumps over the lazy dog, twice over.";
    for n in [1, 2, 3, 5, 7, 1800] {
        let chunks = sub_strings(text, n);
        assert!(chunks.iter().all(|c| c.chars().count() <= n));
        assert_eq!(chunks.concat(), text);
    }
}

#[test]
fn chunk_boundary_never_splits_a_character() {
    // A two-byte character sits exactly at every second character boundary.
    let text = "aébécédé";
    let chunks = sub_strings(text, 2);
    assert_eq!(chunks, vec!["aé", "bé", "cé", "dé"]);
    // A boundary in the middle of the multi-byte characters themselves.
    let text = "ééééé";
    let chunks = sub_strings(text, 3);
    assert_eq!(chunks, vec!["ééé", "éé"]);
    assert_eq!(chunks.concat(), text);
}

#[test]
fn empty_string_yields_no_chunk() {
    assert_eq!(sub_strings("", 1800).len(), 0);
}

#[test]
fn string_of_exactly_the_budget_yields_one_chunk() {
    let text = "x".repeat(1800);
    let chunks = sub_strings(&text, 1800);
    assert_eq!(chunks.len(), 1);
    assert_eq!(chunks[0], text);
    let chunks = sub_strings(&text, 600);
    assert_eq!(chunks.len(), 3);
}

#[test]
fn chunk_count_is_the_ceiling() {
    assert_eq!(sub_strings("abcdef", 4).len(), 2);
    assert_eq!(sub_strings("abcdef", 4), vec!["abcd", "ef"]);
    assert_eq!(sub_strings("abcdef", 6).len(), 1);
    assert_eq!(sub_strings("abcdef", 7).len(), 1);
}

#[test]
fn reply_prefix_on_first_chunk_only_by_default() {
    let chunks = vec!["one".to_string(), "two".to_string(), "three".to_string()];
    let msgs = format_reply_chunks(&chunks, false);
    assert_eq!(msgs, vec!["Answer: one", "two", "three"]);
    let msgs = format_reply_chunks(&chunks, true);
    assert_eq!(msgs, vec!["Answer: one", "Answer: two", "Answer: three"]);
}

#[test]
fn attachments_are_kept_by_declared_type_prefix() {
    let atts = vec![
        att("https://cdn.example.com/a.png", Some("image/png")),
        att("https://cdn.example.com/b.txt", Some("text/plain")),
        att("https://cdn.example.com/c.pdf", Some("application/pdf")),
        att("https://cdn.example.com/d.bin", None),
    ];
    let sources = get_attachments(&atts);
    assert_eq!(
        sources,
        vec![
            ("https://cdn.example.com/a.png".to_string(), false),
            ("https://cdn.example.com/b.txt".to_string(), true),
        ]
    );
}

#[test]
fn mention_token_is_stripped() {
    assert_eq!(strip_mention("@bot what is this?"), "what is this?");
    assert_eq!(strip_mention("@bot"), "");
    assert_eq!(strip_mention("plain question"), "plain question");
    assert_eq!(strip_mention(""), "");
}

#[test]
fn failed_attachment_is_skipped_and_the_rest_still_count() {
    let parts = vec![
        Some("text read from an image".to_string()),
        None,
        Some("text of a file".to_string()),
    ];
    assert_eq!(assemble_question(&parts), "text read from an image\ntext of a file\n");
    let all_failed: Vec<Option<String>> = vec![None, None];
    assert_eq!(assemble_question(&all_failed), "");
}

#[test]
fn summarize_mode_with_a_url_takes_the_fetch_path() {
    assert_eq!(
        summarize_url("summarize", "https://example.com/a"),
        Some("https://example.com/a".to_string())
    );
    assert_eq!(
        summarize_url("summarize", "  https://example.com/a \n"),
        Some("https://example.com/a".to_string())
    );
    // The URI parser takes any colon-free text as a bare scheme, so even
    // plain words go down the fetch path, where the fetch fails and the
    // caller falls back to the message text; text that starts with a colon
    // has no scheme and is never fetched.
    assert_eq!(
        summarize_url("summarize", "just some words"),
        Some("just some words".to_string())
    );
    assert_eq!(summarize_url("summarize", ": not a url"), None);
    assert_eq!(summarize_url("qa", "https://example.com/a"), None);
}

#[test]
fn fetched_page_text_is_cut_to_the_budget() {
    let page: String = "p".repeat(50_000);
    let q = truncate_chars(&page, 36_000);
    assert_eq!(q.chars().count(), 36_000);
    assert_eq!(q, "p".repeat(36_000));
    let short = "a short page";
    assert_eq!(truncate_chars(short, 36_000), short);
}

#[test]
fn blank_edges_are_trimmed() {
    assert_eq!(trim_blank("  spaced out \t\r\n"), "spaced out");
    assert_eq!(trim_blank("\n\n"), "");
    assert_eq!(trim_blank("tight"), "tight");
}

#[test]
fn empty_messages_are_recognised() {
    assert!(message_is_empty(0, "   \n"));
    assert!(message_is_empty(0, ""));
    assert!(!message_is_empty(0, "hi"));
    assert!(!message_is_empty(2, ""));
}

#[test]
fn topic_change_verdict_is_read_from_json() {
    assert!(parse_topic_change_from_json(r#"{"topic_changed": "Y"}"#));
    assert!(!parse_topic_change_from_json(r#"{"topic_changed": "N"}"#));
    assert!(!parse_topic_change_from_json(r#"{"topic_changed": "maybe"}"#));
    assert!(!parse_topic_change_from_json(r#"{"other_field": "Y"}"#));
    assert!(!parse_topic_change_from_json(r#"{"topic_changed": true}"#));
}

#[test]
fn malformed_json_falls_back_to_the_pattern_search() {
    assert!(parse_topic_change_from_json(r#"answer: {"topic_changed": "Y""#));
    assert!(!parse_topic_change_from_json(r#"answer: {"topic_changed": "N""#));
    assert!(!parse_topic_change_from_json("no verdict here at all"));
}
