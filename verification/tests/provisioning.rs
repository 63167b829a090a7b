use molt_guard::ollama_client::{OllamaClient, TagsOutcome};
use molt_guard::status::HttpStatus;
use molt_guard::vault::{AppConfig, ConfigFetch, VaultClient, VaultOutcome};

fn listing() -> TagsOutcome {
    TagsOutcome::Answered {
        status: HttpStatus::from_u16(200).unwrap(),
        names: Ok(vec!["llama3:latest".to_string(), "prompt-guard:latest".to_string()]),
    }
}

#[test]
fn test_check_model_exists() {
    let client = OllamaClient::new("http://backend:11434");
    assert_eq!(client.tags_url(), "http://backend:11434/api/tags");
    let exists = client.check_model_exists("prompt-guard:latest", listing()).unwrap();
    assert!(exists);

    let missing = client.check_model_exists("gpt-4", listing()).unwrap();
    assert!(!missing);
}

#[test]
fn test_pull_model() {
    let client = OllamaClient::new("http://backend:11434");
    let request = client.pull_model("prompt-guard:latest");
    assert_eq!(request.url, "http://backend:11434/api/pull");
    assert_eq!(request.name, "prompt-guard:latest");
    assert!(!request.stream);
    let result = OllamaClient::pull_result(Ok(HttpStatus::from_u16(200).unwrap()));
    assert!(result.is_ok());
}

#[test]
fn test_vault_fetch_config_mock() {
    let client = VaultClient::new("http://mock-vault", "root");
    let config = match client.fetch_config("secret/molt-bot") {
        ConfigFetch::Fixed(config) => config,
        other => panic!("unexpected plan {:?}", other),
    };
    assert_eq!(config.ollama_url, "http://192.168.68.68:11434");
}

#[test]
fn listing_failures_are_reported() {
    let client = OllamaClient::new("http://backend:11434");
    let refused = TagsOutcome::Answered {
        status: HttpStatus::from_u16(500).unwrap(),
        names: Ok(vec!["gpt-4".to_string()]),
    };
    assert_eq!(
        client.check_model_exists("gpt-4", refused),
        Err("Failed to list models: 500 Internal Server Error".to_string())
    );
    let unreachable = TagsOutcome::Unreachable("timed out".to_string());
    assert_eq!(client.check_model_exists("gpt-4", unreachable), Err("timed out".to_string()));
    let undecodable =
        TagsOutcome::Answered { status: HttpStatus::ok(), names: Err("bad json".to_string()) };
    assert_eq!(client.check_model_exists("gpt-4", undecodable), Err("bad json".to_string()));
    let empty = TagsOutcome::Answered { status: HttpStatus::ok(), names: Ok(Vec::new()) };
    assert_eq!(client.check_model_exists("gpt-4", empty), Ok(false));
}

#[test]
fn model_names_are_compared_whole() {
    let client = OllamaClient::new("http://backend:11434");
    assert_eq!(client.check_model_exists("llama3", listing()), Ok(false));
    assert_eq!(client.check_model_exists("LLAMA3:latest", listing()), Ok(false));
    assert_eq!(client.check_model_exists("llama3:latest", listing()), Ok(true));
}

#[test]
fn pull_failures_are_reported() {
    assert_eq!(
        OllamaClient::pull_result(Ok(HttpStatus::from_u16(404).unwrap())),
        Err("Failed to pull model: 404 Not Found".to_string())
    );
    assert_eq!(
        OllamaClient::pull_result(Err("connection refused".to_string())),
        Err("connection refused".to_string())
    );
}

#[test]
fn missing_model_is_pulled() {
    let client = OllamaClient::new("http://backend:11434");
    assert_eq!(client.ensure_model_exists("prompt-guard:latest", listing()), Ok(None));
    assert_eq!(
        client.ensure_model_exists("gpt-4", listing()),
        Ok(Some(client.pull_model("gpt-4")))
    );
    let unreachable = TagsOutcome::Unreachable("timed out".to_string());
    assert_eq!(client.ensure_model_exists("gpt-4", unreachable), Err("timed out".to_string()));
}

#[test]
fn vault_request_carries_path_and_token() {
    let client = VaultClient::new("http://vault:8200", "root");
    assert_eq!(
        client.fetch_config("secret/molt-bot"),
        ConfigFetch::Request {
            url: "http://vault:8200/v1/secret/molt-bot".to_string(),
            token: "root".to_string(),
        }
    );
}

#[test]
fn vault_answer_is_read() {
    let config = AppConfig { ollama_url: "http://ollama:11434".to_string() };
    let answered = VaultOutcome::Answered { status: HttpStatus::ok(), config: Ok(config.clone()) };
    assert_eq!(VaultClient::read_config(answered), Ok(config.clone()));
    let denied = VaultOutcome::Answered {
        status: HttpStatus::from_u16(403).unwrap(),
        config: Ok(config),
    };
    assert_eq!(
        VaultClient::read_config(denied),
        Err("Vault API returned error: 403 Forbidden".to_string())
    );
    let undecodable =
        VaultOutcome::Answered { status: HttpStatus::ok(), config: Err("bad json".to_string()) };
    assert_eq!(VaultClient::read_config(undecodable), Err("bad json".to_string()));
    let unreachable = VaultOutcome::Unreachable("no route".to_string());
    assert_eq!(VaultClient::read_config(unreachable), Err("no route".to_string()));
}
