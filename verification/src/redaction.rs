//! The redaction pipeline: an ordered chain of pattern rules applied to any
//! text that leaves the gateway. Secrets are redacted first, then personal
//! data.

use vstd::prelude::*;
use crate::pii_filter::{pii_rules, PiiFilter};
use crate::secrets_filter::{secret_rules, SecretsFilter};

verus! {

/// Whether the `regex` crate accepts `pattern` as a regular expression.
pub uninterp spec fn regex_compiles(pattern: Seq<char>) -> bool;

/// Whether the regular expression `pattern` has a match anywhere in `text`,
/// as the `regex` crate finds it.
pub uninterp spec fn regex_matches(pattern: Seq<char>, text: Seq<char>) -> bool;

/// `text` with every non-overlapping match of the regular expression
/// `pattern` replaced by `replacement`, as the `regex` crate computes it.
pub uninterp spec fn regex_replaced(
    pattern: Seq<char>,
    text: Seq<char>,
    replacement: Seq<char>,
) -> Seq<char>;

/// Calls `regex::Regex::new` on `pattern` and, where that succeeds,
/// `Regex::is_match` on `text`. Whether the pattern compiles is given the name
/// [`regex_compiles`], whether it matches the name [`regex_matches`]; both
/// depend on the arguments alone. `None` stands for a pattern that the crate
/// rejects.
#[verifier::external_body]
fn regex_is_match(pattern: &str, text: &str) -> (r: Option<bool>)
    ensures
        r is Some <==> regex_compiles(pattern@),
        r matches Some(found) ==> found == regex_matches(pattern@, text@),
{
    match regex::Regex::new(pattern) {
        Ok(re) => Some(re.is_match(text)),
        Err(_) => None,
    }
}

/// Calls `regex::Regex::new` on `pattern` and, where that succeeds,
/// `Regex::replace_all` on `text` with `replacement`. The replaced text is
/// given the name [`regex_replaced`]; the crate documents that a text without
/// a match comes back unchanged. `None` stands for a pattern that the crate
/// rejects.
#[verifier::external_body]
fn regex_replace_all(pattern: &str, text: &str, replacement: &str) -> (r: Option<String>)
    ensures
        r is Some <==> regex_compiles(pattern@),
        r matches Some(out) ==> out@ == (if regex_matches(pattern@, text@) {
            regex_replaced(pattern@, text@, replacement@)
        } else {
            text@
        }),
{
    match regex::Regex::new(pattern) {
        Ok(re) => Some(re.replace_all(text, replacement).into_owned()),
        Err(_) => None,
    }
}

/// One redaction rule: every match of `pattern` is replaced by `replacement`.
#[derive(Clone, Debug, PartialEq, Eq)]
pub struct RedactionRule {
    /// A regular expression in the syntax of the `regex` crate.
    pub pattern: String,
    /// The sentinel that takes the place of each match.
    pub replacement: String,
}

/// The mathematical content of a [`RedactionRule`].
pub struct Rule {
    pub pattern: Seq<char>,
    pub replacement: Seq<char>,
}

impl View for RedactionRule {
    type V = Rule;

    open spec fn view(&self) -> Rule {
        Rule { pattern: self.pattern@, replacement: self.replacement@ }
    }
}

/// The rules of a list, as mathematical values.
pub open spec fn rules_view(rules: Seq<RedactionRule>) -> Seq<Rule> {
    rules.map_values(|r: RedactionRule| r@)
}

/// Whether a rule finds something to replace in `text`. A rule whose pattern
/// is not a valid regular expression matches nothing.
pub open spec fn rule_matches(rule: Rule, text: Seq<char>) -> bool {
    regex_compiles(rule.pattern) && regex_matches(rule.pattern, text)
}

/// What one rule makes of `text`: every match replaced, and a text without a
/// match left as it is.
pub open spec fn rule_output(rule: Rule, text: Seq<char>) -> Seq<char> {
    if rule_matches(rule, text) {
        regex_replaced(rule.pattern, text, rule.replacement)
    } else {
        text
    }
}

/// Whether some rule of the list finds something to replace in `text`.
pub open spec fn any_rule_matches(rules: Seq<Rule>, text: Seq<char>) -> bool {
    exists|i: int| 0 <= i < rules.len() && rule_matches(#[trigger] rules[i], text)
}

/// Whether `text` holds a secret or personal data: some rule of the pipeline
/// matches it.
pub open spec fn sensitive(text: Seq<char>) -> bool {
    any_rule_matches(secret_rules(), text) || any_rule_matches(pii_rules(), text)
}

/// What a list of rules makes of `text`: each rule works on the output of the
/// one before it.
pub open spec fn rules_output(rules: Seq<Rule>, text: Seq<char>) -> Seq<char>
    decreases rules.len(),
{
    if rules.len() == 0 {
        text
    } else {
        rule_output(rules.last(), rules_output(rules.drop_last(), text))
    }
}

/// What the whole pipeline makes of `text`: the secret rules, then the rules
/// for personal data.
pub open spec fn redacted(text: Seq<char>) -> Seq<char> {
    rules_output(pii_rules(), rules_output(secret_rules(), text))
}

impl RedactionRule {
    /// A rule that replaces each match of `pattern` by `replacement`.
    pub fn new(pattern: &str, replacement: &str) -> (r: Self)
        ensures
            r@ == (Rule { pattern: pattern@, replacement: replacement@ }),
    {
        RedactionRule { pattern: pattern.to_owned(), replacement: replacement.to_owned() }
    }

    /// Whether this rule finds something to replace in `text`.
    pub fn matches(&self, text: &str) -> (r: bool)
        ensures
            r == rule_matches(self@, text@),
    {
        match regex_is_match(self.pattern.as_str(), text) {
            Some(found) => found,
            None => false,
        }
    }

    /// Applies this rule to `text`.
    pub fn apply(&self, text: &str) -> (r: String)
        ensures
            r@ == rule_output(self@, text@),
    {
        match regex_replace_all(self.pattern.as_str(), text, self.replacement.as_str()) {
            Some(out) => out,
            None => text.to_owned(),
        }
    }
}

/// Applies `rules` to `text` in order.
pub fn apply_rules(rules: &Vec<RedactionRule>, text: &str) -> (r: String)
    ensures
        r@ == rules_output(rules_view(rules@), text@),
{
    let ghost all = rules_view(rules@);
    let mut output = text.to_owned();
    let mut k: usize = 0;
    while k < rules.len()
        invariant
            k <= rules.len(),
            all == rules_view(rules@),
            output@ == rules_output(all.take(k as int), text@),
        decreases rules.len() - k,
    {
        proof {
            let next = all.take(k + 1);
            assert(next.drop_last() =~= all.take(k as int));
            assert(next.last() == rules@[k as int]@);
        }
        output = rules[k].apply(output.as_str());
        k += 1;
    }
    assert(all.take(k as int) =~= all);
    output
}

/// Whether some rule of `rules` finds something to replace in `text`.
pub fn any_match(rules: &Vec<RedactionRule>, text: &str) -> (r: bool)
    ensures
        r == any_rule_matches(rules_view(rules@), text@),
{
    let ghost all = rules_view(rules@);
    let mut k: usize = 0;
    while k < rules.len()
        invariant
            k <= rules.len(),
            all == rules_view(rules@),
            forall|j: int| 0 <= j < k ==> !rule_matches(#[trigger] all[j], text@),
        decreases rules.len() - k,
    {
        if rules[k].matches(text) {
            assert(rule_matches(all[k as int], text@));
            return true;
        }
        k += 1;
    }
    false
}

/// Whether `text` holds a secret or personal data.
pub fn is_sensitive(text: &str) -> (r: bool)
    ensures
        r == sensitive(text@),
{
    SecretsFilter::new().detects(text) || PiiFilter::new().detects(text)
}

/// Redacts secrets and then personal data from `content`.
pub fn apply_filters(content: String) -> (r: String)
    ensures
        r@ == redacted(content@),
{
    let secrets_filter = SecretsFilter::new();
    let pii_filter = PiiFilter::new();
    let filtered = secrets_filter.redact(content.as_str());
    pii_filter.redact(filtered.as_str())
}

/// Rules that find nothing in a text leave it as it is.
pub proof fn lemma_rules_keep_clean_text(rules: Seq<Rule>, text: Seq<char>)
    requires
        !any_rule_matches(rules, text),
    ensures
        rules_output(rules, text) == text,
    decreases rules.len(),
{
    if rules.len() > 0 {
        let rest = rules.drop_last();
        assert forall|i: int| 0 <= i < rest.len() implies !rule_matches(
            #[trigger] rest[i],
            text,
        ) by {
            assert(rest[i] == rules[i]);
        }
        lemma_rules_keep_clean_text(rest, text);
        assert(!rule_matches(rules[rules.len() - 1], text));
    }
}

/// A text in which no rule of the pipeline finds anything is a fixed point of
/// redaction.
pub proof fn lemma_clean_text_is_fixed_point(text: Seq<char>)
    requires
        !sensitive(text),
    ensures
        redacted(text) == text,
{
    lemma_rules_keep_clean_text(secret_rules(), text);
    lemma_rules_keep_clean_text(pii_rules(), text);
}

/// Redaction is idempotent wherever it is total: if no rule of the pipeline
/// finds anything in the redacted text, redacting it again changes nothing.
pub proof fn lemma_redaction_idempotent_where_total(text: Seq<char>)
    requires
        !sensitive(redacted(text)),
    ensures
        redacted(redacted(text)) == redacted(text),
{
    lemma_clean_text_is_fixed_point(redacted(text));
}

} // verus!
