//! Input validation in front of the backend: turns the policy engine's
//! decision into what the request handler does with a prompt.

use vstd::prelude::*;
use crate::prompt_guard::{
    conclusion, failure_message, first_step, result_view, ClassifierOutcome,
    ClassifierOutcomeView,
    ClassifierRequest, ClassifierRequestView, GuardConfig, GuardError, GuardFailure,
    PolicyDecision, PolicyStep, PolicyStepView, PromptGuardClient, Verdict,
};
use crate::text::{has_substring, join3, lemma_middle_is_substring};

verus! {

/// What becomes of a prompt.
#[derive(Clone, Debug, PartialEq, Eq)]
pub enum Screening {
    /// The prompt may go to the backend, unchanged.
    Pass(String),
    /// The prompt is refused; the text is shown to the caller in place of an
    /// answer.
    Reject(String),
    /// The guard model has to be asked first.
    Classify(ClassifierRequest),
    /// No decision could be reached.
    Fail(GuardError),
}

/// The mathematical content of a [`Screening`].
pub enum ScreeningView {
    Pass(Seq<char>),
    Reject(Seq<char>),
    Classify(ClassifierRequestView),
    Fail(GuardFailure),
}

impl View for Screening {
    type V = ScreeningView;

    open spec fn view(&self) -> ScreeningView {
        match self {
            Screening::Pass(prompt) => ScreeningView::Pass(prompt@),
            Screening::Reject(message) => ScreeningView::Reject(message@),
            Screening::Classify(request) => ScreeningView::Classify(request@),
            Screening::Fail(error) => ScreeningView::Fail(error@),
        }
    }
}

/// The text shown to the caller when a prompt is refused for `reason`.
pub open spec fn rejection(reason: Seq<char>) -> Seq<char> {
    "Security block: "@ + reason
        + ". I'm sorry, but I can't process that request as it appears to contain patterns associated with prompt injection."@
}

/// What becomes of `prompt` once the policy engine has finished. A block is
/// refused with its reason. A guard model that is not installed yet is
/// refused too, with the advice to try again; the other failures are passed
/// on as failures.
pub open spec fn screened(prompt: Seq<char>, result: Result<Verdict, GuardFailure>) -> ScreeningView {
    match result {
        Ok(Verdict::Allow) => ScreeningView::Pass(prompt),
        Ok(Verdict::Block(reason)) => ScreeningView::Reject(rejection(reason)),
        Err(GuardFailure::ClassifierNotProvisioned { model }) => ScreeningView::Reject(
            rejection(failure_message(GuardFailure::ClassifierNotProvisioned { model })),
        ),
        Err(failure) => ScreeningView::Fail(failure),
    }
}

/// What [`InputValidationMiddleware::process`] returns.
pub open spec fn screening_start(cfg: GuardConfig, prompt: Seq<char>) -> ScreeningView {
    match first_step(cfg, prompt) {
        PolicyStepView::Decided(verdict) => screened(prompt, Ok(verdict)),
        PolicyStepView::Classify(request) => ScreeningView::Classify(request),
    }
}

/// What [`InputValidationMiddleware::resume`] returns.
pub open spec fn screening_end(
    cfg: GuardConfig,
    prompt: Seq<char>,
    outcome: ClassifierOutcomeView,
) -> ScreeningView {
    screened(prompt, conclusion(cfg, outcome))
}

/// Screens prompts with a policy engine.
#[derive(Debug)]
pub struct InputValidationMiddleware {
    guard: PromptGuardClient,
}

impl InputValidationMiddleware {
    /// The configuration of the policy engine behind this middleware.
    pub closed spec fn config(&self) -> GuardConfig {
        self.guard@
    }

    /// A middleware that screens with `guard`.
    pub fn new(guard: PromptGuardClient) -> (r: Self)
        ensures
            r.config() == guard@,
    {
        InputValidationMiddleware { guard }
    }

    /// Starts screening `prompt`.
    pub fn process(&self, prompt: &str) -> (r: Screening)
        ensures
            r@ == screening_start(self.config(), prompt@),
    {
        match self.guard.validate(prompt) {
            PolicyStep::Decided(decision) => Self::settle(prompt, Ok(decision)),
            PolicyStep::Classify(request) => Screening::Classify(request),
        }
    }

    /// Finishes screening `prompt` with the guard model's answer to the
    /// request that [`InputValidationMiddleware::process`] handed out.
    pub fn resume(&self, prompt: &str, outcome: ClassifierOutcome) -> (r: Screening)
        ensures
            r@ == screening_end(self.config(), prompt@, outcome@),
    {
        Self::settle(prompt, self.guard.conclude(outcome))
    }

    /// Turns a validation result into what becomes of `prompt`.
    pub fn settle(prompt: &str, result: Result<PolicyDecision, GuardError>) -> (r: Screening)
        ensures
            r@ == screened(prompt@, result_view(result)),
    {
        match result {
            Ok(PolicyDecision::Allow) => Screening::Pass(prompt.to_owned()),
            Ok(PolicyDecision::Block(reason)) => Screening::Reject(refusal(reason.as_str())),
            Err(error) => {
                let retry = match &error {
                    GuardError::ClassifierNotProvisioned { .. } => true,
                    _ => false,
                };
                if retry {
                    let message = error.message();
                    Screening::Reject(refusal(message.as_str()))
                } else {
                    Screening::Fail(error)
                }
            },
        }
    }
}

/// The text shown to the caller when a prompt is refused for `reason`.
pub fn refusal(reason: &str) -> (r: String)
    ensures
        r@ == rejection(reason@),
{
    join3(
        "Security block: ",
        reason,
        ". I'm sorry, but I can't process that request as it appears to contain patterns associated with prompt injection.",
    )
}

/// The reason of a block is never dropped: the text shown to the caller
/// contains it.
pub proof fn lemma_rejection_carries_reason(reason: Seq<char>)
    ensures
        has_substring(rejection(reason), reason),
{
    lemma_middle_is_substring(
        "Security block: "@,
        reason,
        ". I'm sorry, but I can't process that request as it appears to contain patterns associated with prompt injection."@,
    );
}

} // verus!
