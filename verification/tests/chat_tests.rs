use assistant_gateway::chat::{complete_chat, conclude_chat, plan_chat, system_prompt_for, Completed};
use assistant_gateway::config::{startup_models, Config, ModelsConfig};
use assistant_gateway::gateway::{Client, GatewayError};
use assistant_gateway::hardware::HardwareTier;
use assistant_gateway::models::{
    ChatRequest, ChatResponse, MemoryEntry, SearchRequest, SearchResponse, Timestamp,
};
use assistant_gateway::routing::{Category, ModelCatalog};
use assistant_gateway::service::{chat_handler, health_check, search_handler, ApiError};
use assistant_gateway::store::Database;

fn request(message: &str, message_type: Option<&str>) -> ChatRequest {
    ChatRequest {
        message: message.to_string(),
        message_type: message_type.map(|s| s.to_string()),
        context: None,
        model_override: None,
    }
}

fn client() -> Client {
    Client::new("http://localhost:11434")
}

#[test]
fn personas_are_fixed_per_category() {
    assert_eq!(
        system_prompt_for(Category::Chat),
        "You are a helpful AI assistant. Provide clear, concise, and accurate responses."
    );
    assert_eq!(
        system_prompt_for(Category::Reasoning),
        "You are an AI assistant specialized in logical reasoning and problem-solving. Break down complex problems step by step and provide detailed analysis."
    );
    assert_eq!(
        system_prompt_for(Category::Code),
        "You are an expert programming assistant. Provide clean, well-documented code with explanations. Consider best practices, error handling, and performance."
    );
}

#[test]
fn code_request_on_a_heavy_machine_is_served_and_recorded() {
    let mut history = Database::new();
    let catalog = ModelCatalog::default();
    let req = request("reverse a string", Some("code"));

    let dispatch = plan_chat(&client(), &catalog, &req, HardwareTier::Heavy);
    assert_eq!(dispatch.model, "deepseek-coder:33b");
    assert_eq!(dispatch.request.model, "deepseek-coder:33b");
    assert_eq!(
        dispatch.request.prompt,
        "System: You are an expert programming assistant. Provide clean, well-documented code with explanations. Consider best practices, error handling, and performance.\n\nHuman: reverse a string\n\nAssistant:"
    );
    assert!(!dispatch.request.stream);

    let done = chat_handler(&mut history, &req, dispatch.model, Ok("s.chars().rev().collect()".to_string()))
        .unwrap();
    assert_eq!(
        done.response,
        ChatResponse {
            response: "s.chars().rev().collect()".to_string(),
            model_used: "deepseek-coder:33b".to_string(),
        }
    );
    assert_eq!(history.len(), 1);
    let stored = history.get_memory_by_id(&done.record.id).unwrap();
    assert_eq!(stored, done.record);
    assert_eq!(stored.message, "reverse a string");
    assert_eq!(stored.response, "s.chars().rev().collect()");
    assert_eq!(stored.message_type, Some("code".to_string()));
}

#[test]
fn a_failed_generation_records_nothing() {
    let mut history = Database::new();
    let req = request("hello", None);
    let failure = GatewayError::Api { body: "secret internals".to_string() };
    assert_eq!(chat_handler(&mut history, &req, "m".to_string(), Err(failure.clone())), Err(ApiError::Internal));
    assert_eq!(history.len(), 0);
    assert_eq!(complete_chat(&mut history, &req, "m".to_string(), Err(failure.clone())), Err(failure));
    assert_eq!(history.len(), 0);
}

#[test]
fn every_exchange_gets_an_id_of_its_own() {
    let mut history = Database::new();
    let req = request("hello", Some("chat"));
    let a = complete_chat(&mut history, &req, "m".to_string(), Ok("one".to_string())).unwrap();
    let b = complete_chat(&mut history, &req, "m".to_string(), Ok("two".to_string())).unwrap();
    assert_eq!(a.record.id.chars().count(), 36);
    assert_eq!(b.record.id.chars().count(), 36);
    assert_ne!(a.record.id, b.record.id);
    assert_eq!(history.len(), 2);
    assert_eq!(history.get_memory_by_id(&a.record.id).unwrap().response, "one");
    assert_eq!(history.get_memory_by_id(&b.record.id).unwrap().response, "two");
    assert!(!b.record.timestamp.is_before(a.record.timestamp));
    assert!(a.record.timestamp.secs > 1_600_000_000);
}

#[test]
fn conclude_builds_the_record_from_what_it_is_given() {
    let req = request("why", Some("reasoning"));
    let now = Timestamp { secs: 1_700_000_000, nanos: 5 };
    let done = conclude_chat(&req, "gemma2:9b".to_string(), Ok("because".to_string()), "id-1".to_string(), now);
    assert_eq!(
        done,
        Ok(Completed {
            response: ChatResponse { response: "because".to_string(), model_used: "gemma2:9b".to_string() },
            record: MemoryEntry {
                id: "id-1".to_string(),
                message: "why".to_string(),
                response: "because".to_string(),
                timestamp: now,
                message_type: Some("reasoning".to_string()),
            },
        })
    );
    let untyped = conclude_chat(&request("hi", None), "m".to_string(), Ok("yo".to_string()), "id-2".to_string(), now);
    assert_eq!(untyped.unwrap().record.message_type, None);
    let failed = conclude_chat(&req, "m".to_string(), Err(GatewayError::Unhealthy), "id-3".to_string(), now);
    assert_eq!(failed, Err(GatewayError::Unhealthy));
}

#[test]
fn plan_uses_the_persona_of_the_category() {
    let catalog = ModelCatalog::default();
    let chat = plan_chat(&client(), &catalog, &request("hi", None), HardwareTier::Light);
    assert_eq!(chat.model, "phi3:3.8b");
    assert_eq!(
        chat.request.prompt,
        "System: You are a helpful AI assistant. Provide clear, concise, and accurate responses.\n\nHuman: hi\n\nAssistant:"
    );
    let reasoning = plan_chat(&client(), &catalog, &request("hi", Some("reasoning")), HardwareTier::Medium);
    assert_eq!(reasoning.model, "gemma2:9b");
    assert!(reasoning.request.prompt.starts_with("System: You are an AI assistant specialized in logical reasoning"));
    let mut overridden = request("hi", Some("code"));
    overridden.model_override = Some("custom:1b".to_string());
    let plan = plan_chat(&client(), &catalog, &overridden, HardwareTier::Heavy);
    assert_eq!(plan.model, "custom:1b");
    assert_eq!(plan.request.model, "custom:1b");
    assert!(plan.request.prompt.starts_with("System: You are an expert programming assistant."));
}

#[test]
fn search_is_answered_with_no_hits() {
    let response = search_handler(SearchRequest { query: "anything".to_string(), limit: Some(5), filters: None });
    assert_eq!(response, SearchResponse { results: vec![], query: "anything".to_string(), total_results: 0 });
}

#[test]
fn health_is_ok() {
    assert_eq!(health_check(), "OK");
}

#[test]
fn default_config() {
    let config = Config::default();
    assert_eq!(config.database.path, "data/assistant.db");
    assert_eq!(config.ollama.base_url, "http://localhost:11434");
    assert_eq!(config.ollama.timeout_seconds, 300);
    assert_eq!(config.models.light_tier, ["phi3:3.8b"]);
    assert_eq!(config.models.medium_tier, ["gemma2:9b", "deepseek-coder:6.7b"]);
    assert_eq!(config.models.heavy_tier, ["llama3.1:8b", "gemma2:27b", "deepseek-coder:33b"]);
    assert_eq!(config.models.npu_tier, ["phi3:3.8b", "gemma2:2b"]);
    assert_eq!(config.models, ModelsConfig::default());
}

#[test]
fn startup_models_per_tier() {
    assert_eq!(startup_models(HardwareTier::Light), ["phi3:3.8b"]);
    assert_eq!(startup_models(HardwareTier::Medium), ["gemma2:9b", "deepseek-coder:6.7b"]);
    assert_eq!(startup_models(HardwareTier::Heavy), ["llama3.1:8b", "gemma2:27b", "deepseek-coder:33b"]);
    assert_eq!(startup_models(HardwareTier::NPU), ["phi3:3.8b", "gemma2:2b"]);
    let config = ModelsConfig {
        light_tier: vec!["a".to_string()],
        medium_tier: vec!["b".to_string()],
        heavy_tier: vec!["c".to_string()],
        npu_tier: vec![],
    };
    assert_eq!(config.for_tier(HardwareTier::Light), &["a"]);
    assert_eq!(config.for_tier(HardwareTier::Medium), &["b"]);
    assert_eq!(config.for_tier(HardwareTier::Heavy), &["c"]);
    assert!(config.for_tier(HardwareTier::NPU).is_empty());
}
