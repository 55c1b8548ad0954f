use rina_bot::agent::{Agent, ResponseDecision};
use rina_bot::agent::{finalize_model_text, should_relay};
use rina_bot::image::{parse_image_url, u64_to_dec, ImageJobRequest};
use rina_bot::text::{contains_str, contains_str_ci, trim_quotes};

#[test]
fn marked_answer_is_respond() {
    let agent = Agent::new("persona");
    assert_eq!(agent.classify_response("great weather today [RESPOND]"), ResponseDecision::Respond);
}

#[test]
fn unmarked_answer_is_ignore() {
    let agent = Agent::new("persona");
    assert_eq!(agent.classify_response("not sure what you mean"), ResponseDecision::Ignore);
}

#[test]
fn empty_answer_is_ignore() {
    let agent = Agent::new("persona");
    assert_eq!(agent.classify_response(""), ResponseDecision::Ignore);
}

#[test]
fn marker_is_matched_case_insensitively() {
    let agent = Agent::new("persona");
    assert_eq!(agent.classify_response("sure, [respond] to that"), ResponseDecision::Respond);
    assert_eq!(agent.classify_response("[Respond]"), ResponseDecision::Respond);
}

#[test]
fn truncated_marker_is_ignore() {
    let agent = Agent::new("persona");
    assert_eq!(agent.classify_response("[RESPON"), ResponseDecision::Ignore);
    assert_eq!(agent.classify_response("RESPOND"), ResponseDecision::Ignore);
}

#[test]
fn ignore_marker_is_ignore() {
    let agent = Agent::new("persona");
    assert_eq!(agent.classify_response("[IGNORE]"), ResponseDecision::Ignore);
}

#[test]
fn substring_search_exact() {
    assert!(contains_str("hello @rina_rig_bot how are you", "@rina_rig_bot"));
    assert!(!contains_str("hello @RINA_RIG_BOT", "@rina_rig_bot"));
    assert!(!contains_str("short", "a much longer pattern"));
    assert!(contains_str("anything", ""));
}

#[test]
fn substring_search_folded() {
    assert!(contains_str_ci("abC", "ABc"));
    assert!(!contains_str_ci("abC", "ABd"));
}

#[test]
fn relay_decision() {
    assert!(should_relay(true, "anything at all"));
    assert!(should_relay(false, "hey @rina_rig_bot hello"));
    assert!(!should_relay(false, "hey there"));
}

#[test]
fn classification_prompt_text() {
    let agent = Agent::new("persona");
    let expected = "Tweet: nice day\nTask: Reply [RESPOND] or [IGNORE] based on:\n[RESPOND] if:\n- Direct mention/address\n- Contains question\n- Contains command/request\n[IGNORE] if:\n- Unrelated content\n- Spam/nonsensical\nAnswer:";
    assert_eq!(agent.classification_prompt("nice day"), expected);
}

#[test]
fn reply_prompt_text() {
    let agent = Agent::new("persona");
    let expected = "Task: Generate a post/reply in your voice, style and perspective while using this as context:\nCurrent Post: 'nice day'\nGenerate a brief, single response that:\n- Uses all lowercase\n- Avoids punctuation\n- Is direct and possibly sarcastic\n- Stays under 280 characters\nWrite only the response text, nothing else:";
    assert_eq!(agent.reply_prompt("nice day"), expected);
}

#[test]
fn post_prompt_text() {
    let agent = Agent::new("persona");
    let p = agent.post_prompt();
    assert!(p.starts_with("# Task: Write a Social Media Post\n"));
    assert!(p.ends_with("- Focus on personal experiences, observations, or thoughts"));
}

#[test]
fn chat_prompt_text() {
    let agent = Agent::new("persona");
    let p = agent.chat_prompt("hi there");
    assert!(p.starts_with(
        "Task: Generate a conversational reply to this Telegram message while using this as context:\nMessage: 'hi there'\n"
    ));
    assert!(p.ends_with("Write only the response text, nothing else:"));
}

#[test]
fn model_text_is_trimmed() {
    assert_eq!(finalize_model_text("  a quiet post\n"), "a quiet post");
    assert_eq!(finalize_model_text("already clean"), "already clean");
    assert_eq!(finalize_model_text("   "), "");
}

#[test]
fn image_url_quotes_are_stripped() {
    assert_eq!(parse_image_url("\"http://img/x.png\""), "http://img/x.png");
}

#[test]
fn image_url_without_quotes_is_kept() {
    assert_eq!(parse_image_url("http://img/x.png"), "http://img/x.png");
}

#[test]
fn image_url_quote_edge_cases() {
    assert_eq!(trim_quotes("\"\"\"abc\"\""), "abc");
    assert_eq!(trim_quotes("\"\"\""), "");
    assert_eq!(trim_quotes(""), "");
    assert_eq!(trim_quotes("a\"b"), "a\"b");
}

#[test]
fn decimal_rendering() {
    assert_eq!(u64_to_dec(0), "0");
    assert_eq!(u64_to_dec(7), "7");
    assert_eq!(u64_to_dec(1234567890), "1234567890");
    assert_eq!(u64_to_dec(u64::MAX), format!("{}", u64::MAX));
}

#[test]
fn image_job_fields() {
    let job = ImageJobRequest::new("a misty forest", 1_000, 1_731_000_000_123);
    assert_eq!(job.width, 1024);
    assert_eq!(job.height, 1024);
    assert_eq!(job.prompt, "a misty forest");
    assert_eq!(
        job.neg_prompt,
        "worst quality, bad quality, umbrella, blurry face, anime, illustration"
    );
    assert_eq!(job.num_iterations, 22);
    assert_eq!(job.guidance_scale_tenths, 75);
    assert_eq!(job.model_id, "BluePencilRealistic");
    assert_eq!(job.deadline, 1_300);
    assert_eq!(job.priority, 1);
    assert_eq!(job.job_id, "job_1731000000123");
}
