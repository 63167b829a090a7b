use molt_guard::apply_filters;
use molt_guard::pii_filter::PiiFilter;
use molt_guard::redaction::{any_match, apply_rules, is_sensitive, RedactionRule};
use molt_guard::secrets_filter::SecretsFilter;

/// A cloud access key of the shape that the second secret rule looks for,
/// put together from pieces.
fn access_key() -> String {
    ["AKIA", "IOSF", "ODNN", "7EXA", "MPLE"].concat()
}

fn key_line() -> String {
    format!("key={};", access_key())
}

#[test]
fn test_redact_pii_email() {
    let filter = PiiFilter::new();
    let input = "Contact me at john.doe@example.com";
    let output = filter.redact(input);
    assert!(output.contains("[PII_REDACTED]"));
    assert!(!output.contains("john.doe"));
}

#[test]
fn test_redact_pii_phone() {
    let filter = PiiFilter::new();
    let input = "My number is 555-123-4567";
    let output = filter.redact(input);
    assert!(output.contains("[PII_REDACTED]"));
    assert!(!output.contains("555-123"));
}

#[test]
fn test_redact_secrets_api_key() {
    let filter = SecretsFilter::new();
    let input = "My API key is 12345-ABCDE-67890-FGHIJ";
    let output = filter.redact(input);
    assert!(output.contains("[SECRET_DETECTED]"));
    assert!(!output.contains("12345-ABCDE"));
}

#[test]
fn test_redact_secrets_multiple() {
    let filter = SecretsFilter::new();
    let input = "Key1: 12345-ABCDE-67890-FGHIJ, Key2: 09876-ZYXWV-54321-UTSRQ";
    let output = filter.redact(input);
    assert_eq!(output.matches("[SECRET_DETECTED]").count(), 2);
}

#[test]
fn leaked_key_is_replaced_exactly() {
    assert_eq!(
        apply_filters("My API key is 12345-ABCDE-67890-FGHIJ".to_string()),
        "My API key is [SECRET_DETECTED]"
    );
}

#[test]
fn cloud_access_key_is_replaced() {
    assert_eq!(access_key().len(), 20);
    assert_eq!(SecretsFilter::new().redact(&key_line()), "key=[SECRET_DETECTED];");
    assert_eq!(
        SecretsFilter::new().redact(&format!("a {} b {}", access_key(), access_key())),
        "a [SECRET_DETECTED] b [SECRET_DETECTED]"
    );
    assert_eq!(apply_filters(key_line()), "key=[SECRET_DETECTED];");
    let short = &access_key()[..19];
    assert_eq!(SecretsFilter::new().redact(short), short);
    let lower = access_key().to_lowercase();
    assert_eq!(SecretsFilter::new().redact(&lower), lower);
}

#[test]
fn phone_separators_are_optional() {
    let filter = PiiFilter::new();
    assert_eq!(filter.redact("call 5551234567 now"), "call [PII_REDACTED] now");
    assert_eq!(filter.redact("call 555.123.4567 now"), "call [PII_REDACTED] now");
    assert_eq!(filter.redact("call 555-123-4567 now"), "call [PII_REDACTED] now");
    assert_eq!(filter.redact("id 55512345678"), "id 55512345678");
}

#[test]
fn email_is_replaced_exactly() {
    assert_eq!(
        PiiFilter::new().redact("Contact me at john.doe@example.com"),
        "Contact me at [PII_REDACTED]"
    );
}

#[test]
fn every_match_is_replaced() {
    assert_eq!(
        apply_filters("a@b.io, c@d.org and 555-123-4567, 555-123-4568".to_string()),
        "[PII_REDACTED], [PII_REDACTED] and [PII_REDACTED], [PII_REDACTED]"
    );
}

#[test]
fn secrets_are_redacted_before_personal_data() {
    assert_eq!(
        apply_filters("key 12345-ABCDE-67890-FGHIJ mail john@example.com".to_string()),
        "key [SECRET_DETECTED] mail [PII_REDACTED]"
    );
    assert_eq!(
        apply_filters("11111-22222-33333-44444@example.com".to_string()),
        "[SECRET_DETECTED]@example.com"
    );
}

#[test]
fn clean_text_is_unchanged() {
    assert_eq!(apply_filters(String::new()), "");
    assert_eq!(
        apply_filters("This is a response from mock backend.".to_string()),
        "This is a response from mock backend."
    );
}

#[test]
fn redaction_is_idempotent_on_samples() {
    let mut samples: Vec<String> = [
        "",
        "Hello, how are you?",
        "My API key is 12345-ABCDE-67890-FGHIJ",
        "Key1: 12345-ABCDE-67890-FGHIJ, Key2: 09876-ZYXWV-54321-UTSRQ",
        "Contact me at john.doe@example.com or 555-123-4567",
        "aaaaa-bbbbb-ccccc-ddddd-eeeee-fffff-ggggg-hhhhh",
        "11111-22222-33333-44444@example.com",
        "x@y.zz5551234567",
        "[SECRET_DETECTED] [PII_REDACTED]",
    ]
    .iter()
    .map(|s| s.to_string())
    .collect();
    samples.push(key_line());
    samples.push(format!("{}{}", access_key(), access_key()));
    for sample in samples {
        let once = apply_filters(sample);
        let twice = apply_filters(once.clone());
        assert_eq!(twice, once);
    }
}

#[test]
fn rules_apply_in_order() {
    let rules = vec![RedactionRule::new("a", "b"), RedactionRule::new("b", "c")];
    assert_eq!(apply_rules(&rules, "abc"), "ccc");
    let reversed = vec![RedactionRule::new("b", "c"), RedactionRule::new("a", "b")];
    assert_eq!(apply_rules(&reversed, "abc"), "bcc");
    assert_eq!(apply_rules(&Vec::new(), "abc"), "abc");
}

#[test]
fn rule_with_invalid_pattern_matches_nothing() {
    let rule = RedactionRule::new("foo(bar", "x");
    assert_eq!(rule.apply("foo(bar"), "foo(bar");
    assert_eq!(RedactionRule::new("o+", "0").apply("foo boo"), "f0 b0");
}

#[test]
fn redaction_leaves_no_match_on_samples() {
    let mut samples: Vec<String> = [
        "",
        "Hello, how are you?",
        "My API key is 12345-ABCDE-67890-FGHIJ",
        "Key1: 12345-ABCDE-67890-FGHIJ, Key2: 09876-ZYXWV-54321-UTSRQ",
        "Contact me at john.doe@example.com or 555-123-4567",
        "aaaaa-bbbbb-ccccc-ddddd-eeeee-fffff-ggggg-hhhhh",
        "11111-22222-33333-44444@example.com",
        "x@y.zz5551234567",
        "a5551234567 5551234567b 555-123-4567.555-123-4567",
    ]
    .iter()
    .map(|s| s.to_string())
    .collect();
    samples.push(key_line());
    samples.push(format!("{}{}", access_key(), access_key()));
    for sample in samples {
        assert!(!is_sensitive(&apply_filters(sample)));
    }
}

#[test]
fn sensitive_text_is_detected() {
    assert!(is_sensitive("My API key is 12345-ABCDE-67890-FGHIJ"));
    assert!(is_sensitive(&key_line()));
    assert!(SecretsFilter::new().detects(&access_key()));
    assert!(!PiiFilter::new().detects(&access_key()));
    assert!(!is_sensitive(&access_key()[1..]));
    assert!(is_sensitive("john.doe@example.com"));
    assert!(is_sensitive("555-123-4567"));
    assert!(!is_sensitive("Hello, how are you?"));
    assert!(!is_sensitive(""));
    assert!(SecretsFilter::new().detects("12345-ABCDE-67890-FGHIJ"));
    assert!(!SecretsFilter::new().detects("john.doe@example.com"));
    assert!(PiiFilter::new().detects("john.doe@example.com"));
    assert!(!PiiFilter::new().detects("12345-ABCDE-67890-FGHIJ"));
}

#[test]
fn clean_text_is_a_fixed_point() {
    let samples = ["", "Hello, how are you?", "[SECRET_DETECTED] [PII_REDACTED]", "1234-5678"];
    for sample in samples {
        assert!(!is_sensitive(sample));
        assert_eq!(apply_filters(sample.to_string()), sample);
    }
}

#[test]
fn rule_matching() {
    assert!(RedactionRule::new("o+", "0").matches("foo"));
    assert!(!RedactionRule::new("o+", "0").matches("bar"));
    assert!(!RedactionRule::new("foo(bar", "x").matches("foo(bar"));
    let rules = vec![RedactionRule::new("a", "b"), RedactionRule::new("c", "d")];
    assert!(any_match(&rules, "xxc"));
    assert!(!any_match(&rules, "xxb"));
    assert!(!any_match(&Vec::new(), "abc"));
}
