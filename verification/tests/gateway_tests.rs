use assistant_gateway::gateway::{
    any_name_starts_with, status_is_success, Client, GatewayError, GenerateOptions, GenerateResponse,
    ListResponse, ListedModel, Provisioned, PullResponse, Reply, HEALTH_TIMEOUT_SECS, REQUEST_TIMEOUT_SECS,
};

fn client() -> Client {
    Client::new("http://localhost:11434")
}

fn generated(text: &str) -> GenerateResponse {
    GenerateResponse {
        model: "phi3:3.8b".to_string(),
        created_at: "2024-01-01T00:00:00Z".to_string(),
        response: text.to_string(),
        done: true,
    }
}

fn listed(names: &[&str]) -> ListResponse {
    ListResponse {
        models: names
            .iter()
            .map(|n| ListedModel {
                name: n.to_string(),
                modified_at: "2024-01-01T00:00:00Z".to_string(),
                size: 42,
                digest: "abc".to_string(),
            })
            .collect(),
    }
}

fn ok<T>(value: T) -> Reply<T> {
    Reply::Answered { status: 200, text: None, decoded: Ok(value) }
}

fn refused<T>(status: u16, text: Option<&str>) -> Reply<T> {
    Reply::Answered { status, text: text.map(|s| s.to_string()), decoded: Err("not decoded".to_string()) }
}

#[test]
fn urls_hang_the_route_on_the_base() {
    let c = client();
    assert_eq!(c.base_url(), "http://localhost:11434");
    assert_eq!(c.generate_url(), "http://localhost:11434/api/generate");
    assert_eq!(c.pull_url(), "http://localhost:11434/api/pull");
    assert_eq!(c.tags_url(), "http://localhost:11434/api/tags");
    assert_eq!(REQUEST_TIMEOUT_SECS, 300);
    assert_eq!(HEALTH_TIMEOUT_SECS, 5);
}

#[test]
fn generate_request_combines_persona_and_message() {
    let request = client().generate_request("llama3.1:8b", "Be brief.", "What is 2+2?");
    assert_eq!(request.model, "llama3.1:8b");
    assert_eq!(request.prompt, "System: Be brief.\n\nHuman: What is 2+2?\n\nAssistant:");
    assert!(!request.stream);
    assert_eq!(
        request.options,
        Some(GenerateOptions {
            temperature_permille: Some(700),
            top_k: Some(40),
            top_p_permille: Some(900),
            num_predict: Some(2048),
        })
    );
    let empty = client().generate_request("m", "", "");
    assert_eq!(empty.prompt, "System: \n\nHuman: \n\nAssistant:");
}

#[test]
fn statuses_from_200_to_299_are_success() {
    assert!(!status_is_success(199));
    assert!(status_is_success(200));
    assert!(status_is_success(204));
    assert!(status_is_success(299));
    assert!(!status_is_success(300));
    assert!(!status_is_success(404));
    assert!(!status_is_success(500));
    assert!(!status_is_success(0));
}

#[test]
fn generate_returns_the_generated_text() {
    assert_eq!(client().generate(ok(generated("four"))), Ok("four".to_string()));
    let reply = Reply::Answered { status: 201, text: Some("raw".to_string()), decoded: Ok(generated("x")) };
    assert_eq!(client().generate(reply), Ok("x".to_string()));
}

#[test]
fn generate_fails_with_the_body_on_a_failure_status() {
    assert_eq!(
        client().generate(refused(500, Some("model not found"))),
        Err(GatewayError::Api { body: "model not found".to_string() })
    );
    assert_eq!(
        client().generate(refused(404, None)),
        Err(GatewayError::Api { body: "Unknown error".to_string() })
    );
    // a failure status fails even where the body decodes
    let reply = Reply::Answered { status: 503, text: Some("busy".to_string()), decoded: Ok(generated("x")) };
    assert_eq!(client().generate(reply), Err(GatewayError::Api { body: "busy".to_string() }));
}

#[test]
fn generate_fails_on_transport_failure_and_on_a_malformed_body() {
    assert_eq!(
        client().generate(Reply::Failed { detail: "connection refused".to_string() }),
        Err(GatewayError::Transport { detail: "connection refused".to_string() })
    );
    assert_eq!(
        client().generate(refused(200, Some("{}"))),
        Err(GatewayError::Malformed { detail: "not decoded".to_string() })
    );
}

#[test]
fn pull_request_names_the_model() {
    let request = client().pull_request("gemma2:9b");
    assert_eq!(request.name, "gemma2:9b");
    assert!(!request.stream);
}

#[test]
fn pull_with_another_status_is_a_warning_not_a_failure() {
    let pulled = |status: &str| PullResponse { status: status.to_string(), digest: None, total: None, completed: None };
    assert_eq!(client().pull_model("gemma2:9b", ok(pulled("success"))), Ok(Provisioned::Complete));
    assert_eq!(
        client().pull_model("gemma2:9b", ok(pulled("pulling manifest"))),
        Ok(Provisioned::Warning { status: "pulling manifest".to_string() })
    );
    assert_eq!(
        client().pull_model("gemma2:9b", ok(pulled("Success"))),
        Ok(Provisioned::Warning { status: "Success".to_string() })
    );
    assert_eq!(client().pull_model("gemma2:9b", ok(pulled(""))), Ok(Provisioned::Warning { status: String::new() }));
}

#[test]
fn pull_fails_on_failure_status_transport_failure_and_malformed_body() {
    assert_eq!(
        client().pull_model("gemma2:9b", refused(500, Some("disk full"))),
        Err(GatewayError::PullFailed { model: "gemma2:9b".to_string(), body: "disk full".to_string() })
    );
    assert_eq!(
        client().pull_model("gemma2:9b", refused(500, None)),
        Err(GatewayError::PullFailed { model: "gemma2:9b".to_string(), body: "Unknown error".to_string() })
    );
    assert_eq!(
        client().pull_model("gemma2:9b", Reply::Failed { detail: "timeout".to_string() }),
        Err(GatewayError::Transport { detail: "timeout".to_string() })
    );
    assert_eq!(
        client().pull_model("gemma2:9b", refused(200, None)),
        Err(GatewayError::Malformed { detail: "not decoded".to_string() })
    );
}

#[test]
fn list_models_gives_the_names_in_order() {
    assert_eq!(
        client().list_models(ok(listed(&["b:1", "a:2", "c:3"]))),
        Ok(vec!["b:1".to_string(), "a:2".to_string(), "c:3".to_string()])
    );
    assert_eq!(client().list_models(ok(listed(&[]))), Ok(vec![]));
    assert_eq!(
        client().list_models(refused(500, Some("oops"))),
        Err(GatewayError::ListFailed { body: "oops".to_string() })
    );
    assert_eq!(
        client().list_models(Reply::Failed { detail: "down".to_string() }),
        Err(GatewayError::Transport { detail: "down".to_string() })
    );
    assert_eq!(
        client().list_models(refused(200, None)),
        Err(GatewayError::Malformed { detail: "not decoded".to_string() })
    );
}

#[test]
fn a_model_is_available_where_a_name_begins_with_it() {
    let c = client();
    assert!(c.is_model_available("llama3.1", ok(listed(&["phi3:3.8b", "llama3.1:8b-instruct-q4_0"]))));
    assert!(c.is_model_available("phi3:3.8b", ok(listed(&["phi3:3.8b"]))));
    assert!(c.is_model_available("", ok(listed(&["phi3:3.8b"]))));
    // a name that only holds it, or that it begins with, does not count
    assert!(!c.is_model_available("3.1", ok(listed(&["llama3.1:8b"]))));
    assert!(!c.is_model_available("llama3.1:8b-instruct", ok(listed(&["llama3.1:8b"]))));
    assert!(!c.is_model_available("llama", ok(listed(&[]))));
    assert!(!c.is_model_available("", ok(listed(&[]))));
}

#[test]
fn a_failed_listing_counts_as_not_available() {
    let c = client();
    assert!(!c.is_model_available("phi3", Reply::Failed { detail: "down".to_string() }));
    assert!(!c.is_model_available("phi3", refused(500, Some("oops"))));
    assert!(!c.is_model_available("phi3", refused(200, None)));
    let failure = Reply::Answered { status: 500, text: None, decoded: Ok(listed(&["phi3:3.8b"])) };
    assert!(!c.is_model_available("phi3", failure));
}

#[test]
fn any_name_starts_with_looks_at_every_name() {
    let names = vec!["alpha".to_string(), "beta".to_string(), "gamma".to_string()];
    assert!(any_name_starts_with(&names, "al"));
    assert!(any_name_starts_with(&names, "gamma"));
    assert!(!any_name_starts_with(&names, "eta"));
    assert!(!any_name_starts_with(&names, "gammas"));
    assert!(!any_name_starts_with(&vec![], "a"));
}

#[test]
fn health_goes_by_the_status_alone() {
    let c = client();
    assert_eq!(c.health_check(ok(listed(&[]))), Ok(()));
    assert_eq!(c.health_check(refused(200, None)), Ok(()));
    assert_eq!(c.health_check(refused(500, Some("oops"))), Err(GatewayError::Unhealthy));
    assert_eq!(c.health_check(refused(199, None)), Err(GatewayError::Unhealthy));
    assert_eq!(
        c.health_check(Reply::Failed { detail: "timed out".to_string() }),
        Err(GatewayError::Transport { detail: "timed out".to_string() })
    );
}

#[test]
fn failures_describe_themselves() {
    assert_eq!(GatewayError::Transport { detail: "down".to_string() }.describe(), "down");
    assert_eq!(GatewayError::Api { body: "boom".to_string() }.describe(), "Ollama API error: boom");
    assert_eq!(
        GatewayError::PullFailed { model: "m:1".to_string(), body: "boom".to_string() }.describe(),
        "Failed to pull model m:1: boom"
    );
    assert_eq!(GatewayError::ListFailed { body: "boom".to_string() }.describe(), "Failed to list models: boom");
    assert_eq!(GatewayError::Malformed { detail: "eof".to_string() }.describe(), "eof");
    assert_eq!(GatewayError::Unhealthy.describe(), "Ollama health check failed");
}
