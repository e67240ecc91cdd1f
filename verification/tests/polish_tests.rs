use diy_typeless_core::polish::{build_context_section, build_prompt};

#[test]
fn build_context_section_should_include_guidelines_when_context_provided() {
    let context = Some("email");
    let formatted = build_context_section(context);
    assert!(formatted.contains("email"));
    assert!(formatted.contains("Context about where this text will be used"));
    assert!(formatted.contains("Gmail, Outlook"));
}

#[test]
fn build_context_section_should_return_empty_when_empty_string() {
    let context: Option<&str> = Some("");
    let formatted = build_context_section(context);
    assert!(formatted.is_empty());
}

#[test]
fn build_context_section_should_return_empty_when_whitespace_only() {
    let context: Option<&str> = Some("   ");
    let formatted = build_context_section(context);
    assert!(formatted.is_empty());
}

#[test]
fn build_context_section_should_return_empty_when_none() {
    let context: Option<&str> = None;
    let formatted = build_context_section(context);
    assert!(formatted.is_empty());
}

#[test]
fn build_prompt_should_contain_all_rules() {
    let raw_text = "Hello world";
    let prompt = build_prompt(raw_text, None);

    assert!(prompt.contains("You are a professional text editor"));
    assert!(prompt.contains("Rules:"));
    assert!(prompt.contains("Keep the SAME language"));
    assert!(prompt.contains("Original transcript:"));
    assert!(prompt.contains("Hello world"));
    assert!(prompt.contains("Output the polished text directly"));
}

#[test]
fn build_prompt_should_include_context_when_provided() {
    let raw_text = "Meeting notes";
    let context = Some("email");
    let prompt = build_prompt(raw_text, context);

    assert!(prompt.contains("Context about where this text will be used"));
    assert!(prompt.contains("email"));
}

#[test]
fn build_prompt_should_preserve_all_substantive_content_instruction() {
    let raw_text = "The quick brown fox jumps over the lazy dog";
    let prompt = build_prompt(raw_text, None);

    assert!(prompt.contains("Preserve ALL substantive information"));
    assert!(prompt.contains(raw_text));
}

#[test]
fn build_prompt_should_include_rules_section_before_transcript() {
    let raw_text = "Test content";
    let prompt = build_prompt(raw_text, None);

    let rules_pos = prompt.find("Rules:").expect("Rules section should exist");
    let transcript_pos = prompt
        .find("Original transcript:")
        .expect("Transcript section should exist");

    assert!(
        rules_pos < transcript_pos,
        "Rules should appear before transcript"
    );
}

#[test]
fn polish_test_exponential_backoff_calculation() {
    // Test that backoff increases exponentially: 2^0, 2^1, 2^2
    assert_eq!(2u64.pow(0), 1);
    assert_eq!(2u64.pow(1), 2);
    assert_eq!(2u64.pow(2), 4);
}
