//! Redaction of credentials.

use vstd::prelude::*;
use crate::redaction::{
    any_match, any_rule_matches, apply_rules, rules_output, rules_view, RedactionRule, Rule,
};

verus! {

/// The sentinel that replaces a detected secret.
pub open spec fn secret_sentinel() -> Seq<char> {
    "[SECRET_DETECTED]"@
}

/// The fixed rules for secrets: a dashed token of four alphanumeric groups of
/// five, and a cloud access key (`AKIA` and sixteen upper-case letters or
/// digits).
pub open spec fn secret_rules() -> Seq<Rule> {
    seq![
        Rule {
            pattern: "[0-9a-zA-Z]{5}-[0-9a-zA-Z]{5}-[0-9a-zA-Z]{5}-[0-9a-zA-Z]{5}"@,
            replacement: secret_sentinel(),
        },
        Rule { pattern: "AKIA[0-9A-Z]{16}"@, replacement: secret_sentinel() },
    ]
}

/// Replaces secrets in text by `[SECRET_DETECTED]`.
#[derive(Debug)]
pub struct SecretsFilter {
    rules: Vec<RedactionRule>,
}

impl SecretsFilter {
    /// The rules that this filter applies, in order.
    pub closed spec fn rules(&self) -> Seq<Rule> {
        rules_view(self.rules@)
    }

    /// A filter with the fixed rules for secrets.
    pub fn new() -> (r: Self)
        ensures
            r.rules() == secret_rules(),
    {
        let mut rules: Vec<RedactionRule> = Vec::new();
        rules.push(
            RedactionRule::new(
                "[0-9a-zA-Z]{5}-[0-9a-zA-Z]{5}-[0-9a-zA-Z]{5}-[0-9a-zA-Z]{5}",
                "[SECRET_DETECTED]",
            ),
        );
        rules.push(RedactionRule::new("AKIA[0-9A-Z]{16}", "[SECRET_DETECTED]"));
        assert(rules_view(rules@) =~= secret_rules());
        SecretsFilter { rules }
    }

    /// `input` with every secret replaced.
    pub fn redact(&self, input: &str) -> (r: String)
        ensures
            r@ == rules_output(self.rules(), input@),
    {
        apply_rules(&self.rules, input)
    }

    /// Whether `input` holds a secret.
    pub fn detects(&self, input: &str) -> (r: bool)
        ensures
            r == any_rule_matches(self.rules(), input@),
    {
        any_match(&self.rules, input)
    }
}

} // verus!
