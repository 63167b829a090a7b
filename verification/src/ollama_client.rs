//! Model provisioning on the backend: is the guard model installed, and if
//! not, what to ask the backend for.

use vstd::prelude::*;
use crate::status::{status_line, HttpStatus};
use crate::text::{join2, str_eq};

verus! {

/// What came back from the backend's model listing.
#[derive(Debug, PartialEq, Eq)]
pub enum TagsOutcome {
    /// The request got no answer; the text describes the transport failure.
    Unreachable(String),
    /// The backend answered. `names` holds the names of the installed models,
    /// or a description of why the body could not be decoded.
    Answered { status: HttpStatus, names: Result<Vec<String>, String> },
}

/// The mathematical content of a [`TagsOutcome`].
pub enum TagsOutcomeView {
    Unreachable(Seq<char>),
    Answered { status: u16, names: Result<Seq<Seq<char>>, Seq<char>> },
}

impl View for TagsOutcome {
    type V = TagsOutcomeView;

    open spec fn view(&self) -> TagsOutcomeView {
        match self {
            TagsOutcome::Unreachable(detail) => TagsOutcomeView::Unreachable(detail@),
            TagsOutcome::Answered { status, names } => TagsOutcomeView::Answered {
                status: status@,
                names: match names {
                    Ok(list) => Ok(list@.map_values(|n: String| n@)),
                    Err(detail) => Err(detail@),
                },
            },
        }
    }
}

/// A request to install a model.
#[derive(Clone, Debug, PartialEq, Eq)]
pub struct PullModelRequest {
    /// Where to POST the request.
    pub url: String,
    pub name: String,
    /// Always `false`: the backend answers when the model is installed.
    pub stream: bool,
}

/// The mathematical content of a [`PullModelRequest`].
pub struct PullModelRequestView {
    pub url: Seq<char>,
    pub name: Seq<char>,
    pub stream: bool,
}

impl View for PullModelRequest {
    type V = PullModelRequestView;

    open spec fn view(&self) -> PullModelRequestView {
        PullModelRequestView { url: self.url@, name: self.name@, stream: self.stream }
    }
}

/// Whether a model called `model` is installed, going by the backend's
/// listing; or the message of the failure.
pub open spec fn listed(outcome: TagsOutcomeView, model: Seq<char>) -> Result<bool, Seq<char>> {
    match outcome {
        TagsOutcomeView::Unreachable(detail) => Err(detail),
        TagsOutcomeView::Answered { status, names } => if !(200 <= status < 300) {
            Err("Failed to list models: "@ + status_line(status))
        } else {
            match names {
                Err(detail) => Err(detail),
                Ok(list) => Ok(list.contains(model)),
            }
        },
    }
}

/// The request that installs `model` from the backend at `base_url`.
pub open spec fn pull_request(base_url: Seq<char>, model: Seq<char>) -> PullModelRequestView {
    PullModelRequestView { url: base_url + "/api/pull"@, name: model, stream: false }
}

/// Whether the installation succeeded; or the message of the failure.
pub open spec fn pulled(outcome: Result<u16, Seq<char>>) -> Result<(), Seq<char>> {
    match outcome {
        Err(detail) => Err(detail),
        Ok(status) => if 200 <= status < 300 {
            Ok(())
        } else {
            Err("Failed to pull model: "@ + status_line(status))
        },
    }
}

/// Check, then pull: nothing to do where the model is listed, the request to
/// send where it is not; or the message of the failure.
pub open spec fn provision(base_url: Seq<char>, outcome: TagsOutcomeView, model: Seq<char>) -> Result<
    Option<PullModelRequestView>,
    Seq<char>,
> {
    match listed(outcome, model) {
        Err(message) => Err(message),
        Ok(true) => Ok(None),
        Ok(false) => Ok(Some(pull_request(base_url, model))),
    }
}

/// The mathematical content of a check's result.
pub open spec fn check_view(r: Result<bool, String>) -> Result<bool, Seq<char>> {
    match r {
        Ok(b) => Ok(b),
        Err(message) => Err(message@),
    }
}

/// The mathematical content of a pull's outcome.
pub open spec fn status_view(r: Result<HttpStatus, String>) -> Result<u16, Seq<char>> {
    match r {
        Ok(status) => Ok(status@),
        Err(detail) => Err(detail@),
    }
}

/// The mathematical content of a pull's result.
pub open spec fn unit_view(r: Result<(), String>) -> Result<(), Seq<char>> {
    match r {
        Ok(u) => Ok(()),
        Err(message) => Err(message@),
    }
}

/// The mathematical content of a provisioning decision.
pub open spec fn provision_view(r: Result<Option<PullModelRequest>, String>) -> Result<
    Option<PullModelRequestView>,
    Seq<char>,
> {
    match r {
        Ok(Some(request)) => Ok(Some(request@)),
        Ok(None) => Ok(None),
        Err(message) => Err(message@),
    }
}

/// Whether `names` holds `model`.
fn holds_name(names: &Vec<String>, model: &str) -> (r: bool)
    ensures
        r == names@.map_values(|n: String| n@).contains(model@),
{
    let ghost all = names@.map_values(|n: String| n@);
    let mut k: usize = 0;
    while k < names.len()
        invariant
            k <= names.len(),
            all == names@.map_values(|n: String| n@),
            forall|j: int| 0 <= j < k ==> all[j] != model@,
        decreases names.len() - k,
    {
        if str_eq(names[k].as_str(), model) {
            assert(all[k as int] == model@);
            return true;
        }
        k += 1;
    }
    false
}

/// The provisioning side of the backend.
#[derive(Clone, Debug, PartialEq, Eq)]
pub struct OllamaClient {
    base_url: String,
}

impl View for OllamaClient {
    type V = Seq<char>;

    closed spec fn view(&self) -> Seq<char> {
        self.base_url@
    }
}

impl OllamaClient {
    /// A client for the backend at `base_url`.
    pub fn new(base_url: &str) -> (r: Self)
        ensures
            r@ == base_url@,
    {
        OllamaClient { base_url: base_url.to_owned() }
    }

    /// Where the backend lists its installed models.
    pub fn tags_url(&self) -> (r: String)
        ensures
            r@ == self@ + "/api/tags"@,
    {
        join2(self.base_url.as_str(), "/api/tags")
    }

    /// Reads the backend's listing: whether `model_name` is installed.
    pub fn check_model_exists(&self, model_name: &str, outcome: TagsOutcome) -> (r: Result<
        bool,
        String,
    >)
        ensures
            check_view(r) == listed(outcome@, model_name@),
    {
        match outcome {
            TagsOutcome::Unreachable(detail) => Err(detail),
            TagsOutcome::Answered { status, names } => {
                if !status.is_success() {
                    let line = status.describe();
                    Err(join2("Failed to list models: ", line.as_str()))
                } else {
                    match names {
                        Err(detail) => Err(detail),
                        Ok(list) => Ok(holds_name(&list, model_name)),
                    }
                }
            },
        }
    }

    /// The request that installs `model_name`.
    pub fn pull_model(&self, model_name: &str) -> (r: PullModelRequest)
        ensures
            r@ == pull_request(self@, model_name@),
    {
        PullModelRequest {
            url: join2(self.base_url.as_str(), "/api/pull"),
            name: model_name.to_owned(),
            stream: false,
        }
    }

    /// Reads the backend's answer to a [`PullModelRequest`]: its status, or
    /// the description of a transport failure.
    pub fn pull_result(outcome: Result<HttpStatus, String>) -> (r: Result<(), String>)
        ensures
            unit_view(r) == pulled(status_view(outcome)),
    {
        match outcome {
            Err(detail) => Err(detail),
            Ok(status) => {
                if status.is_success() {
                    Ok(())
                } else {
                    let line = status.describe();
                    Err(join2("Failed to pull model: ", line.as_str()))
                }
            },
        }
    }

    /// Check, then pull: reads the backend's listing and says what to send
    /// where `model_name` is missing.
    pub fn ensure_model_exists(&self, model_name: &str, outcome: TagsOutcome) -> (r: Result<
        Option<PullModelRequest>,
        String,
    >)
        ensures
            provision_view(r) == provision(self@, outcome@, model_name@),
    {
        match self.check_model_exists(model_name, outcome) {
            Err(message) => Err(message),
            Ok(true) => Ok(None),
            Ok(false) => Ok(Some(self.pull_model(model_name))),
        }
    }
}

} // verus!
