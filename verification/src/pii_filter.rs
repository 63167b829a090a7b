//! Redaction of personal data.

use vstd::prelude::*;
use crate::redaction::{
    any_match, any_rule_matches, apply_rules, rules_output, rules_view, RedactionRule, Rule,
};

verus! {

/// The sentinel that replaces detected personal data.
pub open spec fn pii_sentinel() -> Seq<char> {
    "[PII_REDACTED]"@
}

/// The fixed rules for personal data: an e-mail address, and a North-American
/// phone number of ten digits with optional `-` or `.` between its groups.
pub open spec fn pii_rules() -> Seq<Rule> {
    seq![
        Rule {
            pattern: "[a-zA-Z0-9._%+-]+@[a-zA-Z0-9.-]+\\.[a-zA-Z]{2,}"@,
            replacement: pii_sentinel(),
        },
        Rule { pattern: "\\b\\d{3}[-.]?\\d{3}[-.]?\\d{4}\\b"@, replacement: pii_sentinel() },
    ]
}

/// Replaces personal data in text by `[PII_REDACTED]`.
#[derive(Debug)]
pub struct PiiFilter {
    rules: Vec<RedactionRule>,
}

impl PiiFilter {
    /// The rules that this filter applies, in order.
    pub closed spec fn rules(&self) -> Seq<Rule> {
        rules_view(self.rules@)
    }

    /// A filter with the fixed rules for personal data.
    pub fn new() -> (r: Self)
        ensures
            r.rules() == pii_rules(),
    {
        let mut rules: Vec<RedactionRule> = Vec::new();
        rules.push(
            RedactionRule::new("[a-zA-Z0-9._%+-]+@[a-zA-Z0-9.-]+\\.[a-zA-Z]{2,}", "[PII_REDACTED]"),
        );
        rules.push(RedactionRule::new("\\b\\d{3}[-.]?\\d{3}[-.]?\\d{4}\\b", "[PII_REDACTED]"));
        assert(rules_view(rules@) =~= pii_rules());
        PiiFilter { rules }
    }

    /// `input` with all personal data replaced.
    pub fn redact(&self, input: &str) -> (r: String)
        ensures
            r@ == rules_output(self.rules(), input@),
    {
        apply_rules(&self.rules, input)
    }

    /// Whether `input` holds personal data.
    pub fn detects(&self, input: &str) -> (r: bool)
        ensures
            r == any_rule_matches(self.rules(), input@),
    {
        any_match(&self.rules, input)
    }
}

} // verus!
