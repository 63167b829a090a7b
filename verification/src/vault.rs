//! Configuration from a secret store.

use vstd::prelude::*;
use crate::status::{status_line, HttpStatus};
use crate::text::{join2, join3, str_eq};

verus! {

/// The configuration kept in the secret store.
#[derive(Clone, Debug, PartialEq, Eq)]
pub struct AppConfig {
    pub ollama_url: String,
}

impl View for AppConfig {
    type V = Seq<char>;

    open spec fn view(&self) -> Seq<char> {
        self.ollama_url@
    }
}

/// How to get the configuration.
#[derive(Clone, Debug, PartialEq, Eq)]
pub enum ConfigFetch {
    /// The configuration is known without asking.
    Fixed(AppConfig),
    /// GET `url` with the header `X-Vault-Token` set to `token`.
    Request { url: String, token: String },
}

/// The mathematical content of a [`ConfigFetch`].
pub enum ConfigFetchView {
    Fixed(Seq<char>),
    Request { url: Seq<char>, token: Seq<char> },
}

impl View for ConfigFetch {
    type V = ConfigFetchView;

    open spec fn view(&self) -> ConfigFetchView {
        match self {
            ConfigFetch::Fixed(config) => ConfigFetchView::Fixed(config@),
            ConfigFetch::Request { url, token } => ConfigFetchView::Request {
                url: url@,
                token: token@,
            },
        }
    }
}

/// What came back from the secret store.
#[derive(Debug, PartialEq, Eq)]
pub enum VaultOutcome {
    /// The request got no answer; the text describes the transport failure.
    Unreachable(String),
    /// The store answered. `config` is the decoded configuration, or a
    /// description of why the body could not be decoded.
    Answered { status: HttpStatus, config: Result<AppConfig, String> },
}

/// The mathematical content of a [`VaultOutcome`].
pub enum VaultOutcomeView {
    Unreachable(Seq<char>),
    Answered { status: u16, config: Result<Seq<char>, Seq<char>> },
}

impl View for VaultOutcome {
    type V = VaultOutcomeView;

    open spec fn view(&self) -> VaultOutcomeView {
        match self {
            VaultOutcome::Unreachable(detail) => VaultOutcomeView::Unreachable(detail@),
            VaultOutcome::Answered { status, config } => VaultOutcomeView::Answered {
                status: status@,
                config: match config {
                    Ok(c) => Ok(c@),
                    Err(detail) => Err(detail@),
                },
            },
        }
    }
}

/// The address that stands for a store with the built-in development
/// configuration.
pub open spec fn mock_address() -> Seq<char> {
    "http://mock-vault"@
}

/// How a client for the store at `address` gets the configuration at `path`.
pub open spec fn fetch_plan(address: Seq<char>, token: Seq<char>, path: Seq<char>) -> ConfigFetchView {
    if address == mock_address() {
        ConfigFetchView::Fixed("http://192.168.68.68:11434"@)
    } else {
        ConfigFetchView::Request { url: address + "/v1/"@ + path, token }
    }
}

/// The configuration that the store's answer holds; or the message of the
/// failure.
pub open spec fn config_read(outcome: VaultOutcomeView) -> Result<Seq<char>, Seq<char>> {
    match outcome {
        VaultOutcomeView::Unreachable(detail) => Err(detail),
        VaultOutcomeView::Answered { status, config } => if !(200 <= status < 300) {
            Err("Vault API returned error: "@ + status_line(status))
        } else {
            config
        },
    }
}

/// The mathematical content of a read configuration.
pub open spec fn config_view(r: Result<AppConfig, String>) -> Result<Seq<char>, Seq<char>> {
    match r {
        Ok(config) => Ok(config@),
        Err(message) => Err(message@),
    }
}

/// The mathematical content of a [`VaultClient`].
pub struct VaultClientView {
    pub address: Seq<char>,
    pub token: Seq<char>,
}

/// A client for the secret store.
#[derive(Clone, Debug, PartialEq, Eq)]
pub struct VaultClient {
    address: String,
    token: String,
}

impl View for VaultClient {
    type V = VaultClientView;

    closed spec fn view(&self) -> VaultClientView {
        VaultClientView { address: self.address@, token: self.token@ }
    }
}

impl VaultClient {
    /// A client for the store at `address` that authenticates with `token`.
    pub fn new(address: &str, token: &str) -> (r: Self)
        ensures
            r@ == (VaultClientView { address: address@, token: token@ }),
    {
        VaultClient { address: address.to_owned(), token: token.to_owned() }
    }

    /// Says how to get the configuration at `path`.
    pub fn fetch_config(&self, path: &str) -> (r: ConfigFetch)
        ensures
            r@ == fetch_plan(self@.address, self@.token, path@),
    {
        if str_eq(self.address.as_str(), "http://mock-vault") {
            ConfigFetch::Fixed(AppConfig { ollama_url: "http://192.168.68.68:11434".to_owned() })
        } else {
            ConfigFetch::Request {
                url: join3(self.address.as_str(), "/v1/", path),
                token: self.token.clone(),
            }
        }
    }

    /// Reads the store's answer to a [`ConfigFetch::Request`].
    pub fn read_config(outcome: VaultOutcome) -> (r: Result<AppConfig, String>)
        ensures
            config_view(r) == config_read(outcome@),
    {
        match outcome {
            VaultOutcome::Unreachable(detail) => Err(detail),
            VaultOutcome::Answered { status, config } => {
                if !status.is_success() {
                    let line = status.describe();
                    Err(join2("Vault API returned error: ", line.as_str()))
                } else {
                    config
                }
            },
        }
    }
}

} // verus!
