use langra::chunking::{chunk_by_paragraphs, estimate_tokens, split_paragraphs};
use langra::language::{detect_language_fallback, lang_display_name, target_lang_of};
use langra::settings::{token_is_expired, Settings, TOKEN_LIFETIME_S};
use langra::strutil::{contains_char, contains_sub, find_sub, str_eq};

#[test]
fn estimate_tokens_rounds_bytes_up_to_quarters() {
    assert_eq!(estimate_tokens(""), 0);
    assert_eq!(estimate_tokens("a"), 1);
    assert_eq!(estimate_tokens("abcd"), 1);
    assert_eq!(estimate_tokens("abcde"), 2);
    assert_eq!(estimate_tokens("abcdefgh"), 2);
    // Counts bytes, not characters: one umlaut is two UTF-8 bytes.
    assert_eq!(estimate_tokens("äää"), 2);
}

#[test]
fn split_paragraphs_cuts_on_blank_lines() {
    let to_vec = |parts: Vec<String>| parts;
    assert_eq!(to_vec(split_paragraphs("a\n\nb")), vec!["a", "b"]);
    assert_eq!(to_vec(split_paragraphs("a\n\n\nb")), vec!["a", "\nb"]);
    assert_eq!(to_vec(split_paragraphs("")), vec![""]);
    assert_eq!(to_vec(split_paragraphs("a\n\n")), vec!["a", ""]);
    assert_eq!(to_vec(split_paragraphs("no blanks\nhere")), vec!["no blanks\nhere"]);
}

#[test]
fn chunking_keeps_short_text_whole() {
    let r = chunk_by_paragraphs("short text", 100);
    assert_eq!(r, vec!["short text"]);
}

#[test]
fn chunking_packs_paragraphs_greedily() {
    // 16 bytes in all, budget of two tokens: every join would burst it, so
    // each paragraph stands alone.
    let r = chunk_by_paragraphs("aaaa\n\nbbbb\n\ncccc", 2);
    assert_eq!(r, vec!["aaaa", "bbbb", "cccc"]);
    // A budget of three lets the first two share a chunk.
    let r = chunk_by_paragraphs("aaaa\n\nbbbb\n\ncccc", 3);
    assert_eq!(r, vec!["aaaa\n\nbbbb", "cccc"]);
}

#[test]
fn chunking_oversized_paragraph_stands_alone() {
    let r = chunk_by_paragraphs("aaaaaaaa\n\nbb", 1);
    assert_eq!(r, vec!["aaaaaaaa", "bb"]);
}

#[test]
fn fallback_detects_german_by_special_characters() {
    assert_eq!(detect_language_fallback("Grüße aus Berlin"), "de");
    assert_eq!(detect_language_fallback("Straße"), "de");
    assert_eq!(detect_language_fallback("ÄRGER"), "de");
    assert_eq!(detect_language_fallback("hello world"), "en");
    assert_eq!(detect_language_fallback(""), "en");
    assert_eq!(detect_language_fallback("übung"), "de");
}

#[test]
fn translation_direction_flips_between_german_and_english() {
    assert_eq!(target_lang_of("de"), "en");
    assert_eq!(target_lang_of("en"), "de");
    assert_eq!(target_lang_of("other"), "de");
    assert_eq!(lang_display_name("de"), "German");
    assert_eq!(lang_display_name("en"), "English");
}

#[test]
fn settings_default_values() {
    let s = Settings::default();
    assert_eq!(s.provider, "azure");
    assert_eq!(s.openai_api_key, "");
    assert_eq!(s.azure_endpoint, "");
    assert_eq!(s.azure_api_key, "");
    assert_eq!(s.azure_deployment, "gpt-4o-mini");
    assert_eq!(s.style, "friendly");
}

#[test]
fn settings_credentials_presence_per_provider() {
    let mut s = Settings::default();
    assert!(!s.has_api_credentials());
    s.azure_endpoint = "https://example.invalid".to_string();
    assert!(!s.has_api_credentials());
    s.azure_api_key = "some-azure-key".to_string();
    assert!(s.has_api_credentials());
    s.provider = "openai".to_string();
    assert!(!s.has_api_credentials());
    s.openai_api_key = "some-openai-key".to_string();
    assert!(s.has_api_credentials());
}

#[test]
fn settings_clearing_wipes_keys_keeps_the_rest() {
    let s = Settings {
        provider: "azure".to_string(),
        openai_api_key: "some-openai-key".to_string(),
        azure_endpoint: "https://example.invalid".to_string(),
        azure_api_key: "some-azure-key".to_string(),
        azure_deployment: "my-deployment".to_string(),
        style: "formal".to_string(),
    };
    let c = s.clear_credentials();
    assert_eq!(c.provider, "azure");
    assert_eq!(c.openai_api_key, "");
    assert_eq!(c.azure_endpoint, "");
    assert_eq!(c.azure_api_key, "");
    assert_eq!(c.azure_deployment, "my-deployment");
    assert_eq!(c.style, "formal");
    assert!(!c.has_api_credentials());
}

#[test]
fn token_expiry_is_ninety_days() {
    assert_eq!(TOKEN_LIFETIME_S, 7_776_000);
    assert!(!token_is_expired(1_000_000 + TOKEN_LIFETIME_S, 1_000_000));
    assert!(token_is_expired(1_000_001 + TOKEN_LIFETIME_S, 1_000_000));
    // A creation time in the future never counts as expired.
    assert!(!token_is_expired(1_000_000, 2_000_000));
}

#[test]
fn strutil_equality_and_search() {
    assert!(str_eq("", ""));
    assert!(str_eq("abc", "abc"));
    assert!(!str_eq("abc", "abd"));
    assert!(!str_eq("abc", "ab"));
    assert!(contains_char("hello", 'e'));
    assert!(!contains_char("hello", 'z'));
    assert!(contains_sub("the 401 code", "401"));
    assert!(!contains_sub("the 40 1 code", "401"));
    assert!(contains_sub("anything", ""));
    assert_eq!(find_sub("abcabc", "bc"), Some(1));
    assert_eq!(find_sub("abcabc", "cb"), None);
    assert_eq!(find_sub("", ""), Some(0));
}
