//! The protocol of the inference server: what is sent to it, and what its
//! answers mean. The host carries the bytes; nothing here touches the network.

use vstd::prelude::*;
use crate::text::{same_text, starts_with_text};

verus! {

/// Seconds that a generation or a download may take.
pub const REQUEST_TIMEOUT_SECS: u64 = 300;

/// Seconds that a health check may take.
pub const HEALTH_TIMEOUT_SECS: u64 = 5;

/// Sampling temperature of every generation, in thousandths.
pub const TEMPERATURE_PERMILLE: u32 = 700;

/// Nucleus sampling bound of every generation, in thousandths.
pub const TOP_P_PERMILLE: u32 = 900;

/// Number of candidate tokens of every generation.
pub const TOP_K: i32 = 40;

/// Most tokens that a generation may produce.
pub const NUM_PREDICT: i32 = 2048;

/// Sampling options of a generation. The two fractions are in thousandths.
#[derive(Debug, Clone, PartialEq, Eq)]
pub struct GenerateOptions {
    pub temperature_permille: Option<u32>,
    pub top_k: Option<i32>,
    pub top_p_permille: Option<u32>,
    pub num_predict: Option<i32>,
}

/// The body of a generation request.
#[derive(Debug, Clone, PartialEq, Eq)]
pub struct GenerateRequest {
    pub model: String,
    pub prompt: String,
    pub stream: bool,
    pub options: Option<GenerateOptions>,
}

/// The body of the answer to a generation request.
#[derive(Debug, Clone, PartialEq, Eq)]
pub struct GenerateResponse {
    pub model: String,
    pub created_at: String,
    pub response: String,
    pub done: bool,
}

/// The body of a request to download a model.
#[derive(Debug, Clone, PartialEq, Eq)]
pub struct PullRequest {
    pub name: String,
    pub stream: bool,
}

/// The body of the answer to a download request.
#[derive(Debug, Clone, PartialEq, Eq)]
pub struct PullResponse {
    pub status: String,
    pub digest: Option<String>,
    pub total: Option<u64>,
    pub completed: Option<u64>,
}

/// One model in the server's list.
#[derive(Debug, Clone, PartialEq, Eq)]
pub struct ListedModel {
    pub name: String,
    pub modified_at: String,
    pub size: u64,
    pub digest: String,
}

/// The body of the answer to a request for the list of models.
#[derive(Debug, Clone, PartialEq, Eq)]
pub struct ListResponse {
    pub models: Vec<ListedModel>,
}

/// What came back for a request.
#[derive(Debug, PartialEq, Eq)]
pub enum Reply<T> {
    /// No answer: the request could not be sent, or timed out.
    Failed { detail: String },
    /// An answer with its status code, its body as text where that could be
    /// read, and the body decoded, or why it could not be.
    Answered { status: u16, text: Option<String>, decoded: Result<T, String> },
}

/// Why a call to the inference server failed.
#[derive(Debug, Clone, PartialEq, Eq)]
pub enum GatewayError {
    /// No answer came back.
    Transport { detail: String },
    /// A generation was answered with a failure status; `body` is the answer's text.
    Api { body: String },
    /// A download was answered with a failure status.
    PullFailed { model: String, body: String },
    /// The list of models was answered with a failure status.
    ListFailed { body: String },
    /// The answer's body could not be decoded.
    Malformed { detail: String },
    /// The health check was answered with a failure status.
    Unhealthy,
}

/// How a download ended.
#[derive(Debug, Clone, PartialEq, Eq)]
pub enum Provisioned {
    /// The server reports success.
    Complete,
    /// The server reports another status, which is worth a warning and no more.
    Warning { status: String },
}

/// A client of one inference server.
#[derive(Debug, Clone, PartialEq, Eq)]
pub struct Client {
    base_url: String,
}

/// Status codes that mean success: 200 to 299.
pub open spec fn is_success(status: u16) -> bool {
    200 <= status < 300
}

/// The text of a failed answer, "Unknown error" where it could not be read.
pub open spec fn body_or_unknown(text: Option<String>) -> Seq<char> {
    match text {
        Some(t) => t@,
        None => "Unknown error"@,
    }
}

/// The prompt of a generation: the persona, the user's message, and the cue
/// for the answer.
pub open spec fn full_prompt(system_prompt: Seq<char>, user_message: Seq<char>) -> Seq<char> {
    "System: "@ + system_prompt + "\n\nHuman: "@ + user_message + "\n\nAssistant:"@
}

/// Some name in `names` begins with `prefix`.
pub open spec fn any_starts_with(names: Seq<String>, prefix: Seq<char>) -> bool {
    exists|i: int| 0 <= i < names.len() && prefix.is_prefix_of(#[trigger] names[i]@)
}

/// The models that an answer lists: those of its decoded body where the
/// status is a success, none otherwise.
pub open spec fn listed(reply: Reply<ListResponse>) -> Seq<ListedModel> {
    match reply {
        Reply::Answered { status, text, decoded: Ok(answer) } => if is_success(status) {
            answer.models@
        } else {
            Seq::empty()
        },
        _ => Seq::empty(),
    }
}

/// What a failure says of itself.
pub open spec fn description(error: GatewayError) -> Seq<char> {
    match error {
        GatewayError::Transport { detail } => detail@,
        GatewayError::Api { body } => "Ollama API error: "@ + body@,
        GatewayError::PullFailed { model, body } => "Failed to pull model "@ + model@ + ": "@ + body@,
        GatewayError::ListFailed { body } => "Failed to list models: "@ + body@,
        GatewayError::Malformed { detail } => detail@,
        GatewayError::Unhealthy => "Ollama health check failed"@,
    }
}

impl GatewayError {
    /// What this failure says of itself, for the log.
    pub fn describe(&self) -> (text: String)
        ensures
            text@ == description(*self),
    {
        match self {
            GatewayError::Transport { detail } => detail.clone(),
            GatewayError::Api { body } => "Ollama API error: ".to_owned().concat(body.as_str()),
            GatewayError::PullFailed { model, body } => "Failed to pull model ".to_owned().concat(
                model.as_str(),
            ).concat(": ").concat(body.as_str()),
            GatewayError::ListFailed { body } => "Failed to list models: ".to_owned().concat(body.as_str()),
            GatewayError::Malformed { detail } => detail.clone(),
            GatewayError::Unhealthy => "Ollama health check failed".to_owned(),
        }
    }
}

/// Whether a status code means success.
pub fn status_is_success(status: u16) -> (ok: bool)
    ensures
        ok == is_success(status),
{
    200 <= status && status < 300
}

/// The text of a failed answer, "Unknown error" where it could not be read.
fn failure_text(text: Option<String>) -> (body: String)
    ensures
        body@ == body_or_unknown(text),
{
    match text {
        Some(t) => t,
        None => "Unknown error".to_owned(),
    }
}

impl Client {
    /// The address of the server, without a trailing path.
    pub closed spec fn base(&self) -> Seq<char> {
        self.base_url@
    }

    /// A client of the server at `base_url`.
    pub fn new(base_url: &str) -> (client: Client)
        ensures
            client.base() == base_url@,
    {
        Client { base_url: base_url.to_owned() }
    }

    /// The address of the server.
    pub fn base_url(&self) -> (url: &str)
        ensures
            url@ == self.base(),
    {
        self.base_url.as_str()
    }

    /// Where generation requests go.
    pub fn generate_url(&self) -> (url: String)
        ensures
            url@ == self.base() + "/api/generate"@,
    {
        self.base_url.clone().concat("/api/generate")
    }

    /// Where download requests go.
    pub fn pull_url(&self) -> (url: String)
        ensures
            url@ == self.base() + "/api/pull"@,
    {
        self.base_url.clone().concat("/api/pull")
    }

    /// Where the list of models is asked for, and the health of the server.
    pub fn tags_url(&self) -> (url: String)
        ensures
            url@ == self.base() + "/api/tags"@,
    {
        self.base_url.clone().concat("/api/tags")
    }

    /// The request for one completion, not streamed, of the prompt made of
    /// `system_prompt` and `user_message`.
    pub fn generate_request(&self, model: &str, system_prompt: &str, user_message: &str) -> (request:
        GenerateRequest)
        ensures
            request.model@ == model@,
            request.prompt@ == full_prompt(system_prompt@, user_message@),
            !request.stream,
            request.options == Some(
                GenerateOptions {
                    temperature_permille: Some(TEMPERATURE_PERMILLE),
                    top_k: Some(TOP_K),
                    top_p_permille: Some(TOP_P_PERMILLE),
                    num_predict: Some(NUM_PREDICT),
                },
            ),
    {
        let prompt = "System: ".to_owned().concat(system_prompt).concat("\n\nHuman: ").concat(
            user_message,
        ).concat("\n\nAssistant:");
        GenerateRequest {
            model: model.to_owned(),
            prompt,
            stream: false,
            options: Some(
                GenerateOptions {
                    temperature_permille: Some(TEMPERATURE_PERMILLE),
                    top_k: Some(TOP_K),
                    top_p_permille: Some(TOP_P_PERMILLE),
                    num_predict: Some(NUM_PREDICT),
                },
            ),
        }
    }

    /// The generated text of an answer to a generation request. It fails
    /// where no answer came, where the status is not a success (the error
    /// carries the answer's text), and where the body could not be decoded.
    pub fn generate(&self, reply: Reply<GenerateResponse>) -> (result: Result<String, GatewayError>)
        ensures
            match reply {
                Reply::Failed { detail } => result == Err::<String, GatewayError>(
                    GatewayError::Transport { detail },
                ),
                Reply::Answered { status, text, decoded } => if !is_success(status) {
                    result matches Err(GatewayError::Api { body }) && body@ == body_or_unknown(text)
                } else {
                    match decoded {
                        Ok(answer) => result == Ok::<String, GatewayError>(answer.response),
                        Err(detail) => result == Err::<String, GatewayError>(
                            GatewayError::Malformed { detail },
                        ),
                    }
                },
            },
    {
        match reply {
            Reply::Failed { detail } => Err(GatewayError::Transport { detail }),
            Reply::Answered { status, text, decoded } => {
                if !status_is_success(status) {
                    Err(GatewayError::Api { body: failure_text(text) })
                } else {
                    match decoded {
                        Ok(answer) => Ok(answer.response),
                        Err(detail) => Err(GatewayError::Malformed { detail }),
                    }
                }
            },
        }
    }

    /// The request to download `model_name`, not streamed.
    pub fn pull_request(&self, model_name: &str) -> (request: PullRequest)
        ensures
            request.name@ == model_name@,
            !request.stream,
    {
        PullRequest { name: model_name.to_owned(), stream: false }
    }

    /// How the download of `model_name` ended. A status other than "success"
    /// in a decoded answer is a warning, not a failure.
    pub fn pull_model(&self, model_name: &str, reply: Reply<PullResponse>) -> (result: Result<
        Provisioned,
        GatewayError,
    >)
        ensures
            match reply {
                Reply::Failed { detail } => result == Err::<Provisioned, GatewayError>(
                    GatewayError::Transport { detail },
                ),
                Reply::Answered { status, text, decoded } => if !is_success(status) {
                    result matches Err(GatewayError::PullFailed { model, body }) && model@ == model_name@
                        && body@ == body_or_unknown(text)
                } else {
                    match decoded {
                        Ok(answer) => if answer.status@ == "success"@ {
                            result == Ok::<Provisioned, GatewayError>(Provisioned::Complete)
                        } else {
                            result == Ok::<Provisioned, GatewayError>(
                                Provisioned::Warning { status: answer.status },
                            )
                        },
                        Err(detail) => result == Err::<Provisioned, GatewayError>(
                            GatewayError::Malformed { detail },
                        ),
                    }
                },
            },
    {
        match reply {
            Reply::Failed { detail } => Err(GatewayError::Transport { detail }),
            Reply::Answered { status, text, decoded } => {
                if !status_is_success(status) {
                    Err(
                        GatewayError::PullFailed {
                            model: model_name.to_owned(),
                            body: failure_text(text),
                        },
                    )
                } else {
                    match decoded {
                        Ok(answer) => {
                            if same_text(answer.status.as_str(), "success") {
                                Ok(Provisioned::Complete)
                            } else {
                                Ok(Provisioned::Warning { status: answer.status })
                            }
                        },
                        Err(detail) => Err(GatewayError::Malformed { detail }),
                    }
                }
            },
        }
    }

    /// The names of the models in an answer to a request for the list, in
    /// the order of the answer.
    pub fn list_models(&self, reply: Reply<ListResponse>) -> (result: Result<Vec<String>, GatewayError>)
        ensures
            match reply {
                Reply::Failed { detail } => result == Err::<Vec<String>, GatewayError>(
                    GatewayError::Transport { detail },
                ),
                Reply::Answered { status, text, decoded } => if !is_success(status) {
                    result matches Err(GatewayError::ListFailed { body }) && body@ == body_or_unknown(text)
                } else {
                    match decoded {
                        Ok(answer) => result matches Ok(names) && names@.len() == answer.models@.len()
                            && forall|i: int|
                            0 <= i < names@.len() ==> (#[trigger] names@[i]) == answer.models@[i].name,
                        Err(detail) => result == Err::<Vec<String>, GatewayError>(
                            GatewayError::Malformed { detail },
                        ),
                    }
                },
            },
    {
        match reply {
            Reply::Failed { detail } => Err(GatewayError::Transport { detail }),
            Reply::Answered { status, text, decoded } => {
                if !status_is_success(status) {
                    Err(GatewayError::ListFailed { body: failure_text(text) })
                } else {
                    match decoded {
                        Ok(answer) => {
                            let mut names: Vec<String> = Vec::new();
                            let mut i: usize = 0;
                            while i < answer.models.len()
                                invariant
                                    i <= answer.models@.len(),
                                    names@.len() == i,
                                    forall|j: int|
                                        0 <= j < i ==> (#[trigger] names@[j]) == answer.models@[j].name,
                                decreases answer.models@.len() - i,
                            {
                                names.push(answer.models[i].name.clone());
                                i += 1;
                            }
                            Ok(names)
                        },
                        Err(detail) => Err(GatewayError::Malformed { detail }),
                    }
                }
            },
        }
    }

    /// Whether the server holds a model whose name begins with `model_name`,
    /// by its answer to a request for the list. A failed request counts as no.
    pub fn is_model_available(&self, model_name: &str, reply: Reply<ListResponse>) -> (available: bool)
        ensures
            available == exists|i: int|
                0 <= i < listed(reply).len() && model_name@.is_prefix_of(#[trigger] listed(reply)[i].name@),
    {
        let ghost models = listed(reply);
        match self.list_models(reply) {
            Ok(names) => {
                let any = any_name_starts_with(&names, model_name);
                proof {
                    if any {
                        let i = choose|i: int|
                            0 <= i < names@.len() && model_name@.is_prefix_of(#[trigger] names@[i]@);
                        assert(model_name@.is_prefix_of(models[i].name@));
                    } else {
                        assert forall|i: int| 0 <= i < models.len() implies !model_name@.is_prefix_of(
                            #[trigger] models[i].name@,
                        ) by {
                            assert(names@[i] == models[i].name);
                        }
                    }
                }
                any
            },
            Err(_) => false,
        }
    }

    /// Whether the server is alive, by its answer to a request for the list:
    /// it is where the status is a success, whatever the body holds.
    pub fn health_check(&self, reply: Reply<ListResponse>) -> (result: Result<(), GatewayError>)
        ensures
            match reply {
                Reply::Failed { detail } => result == Err::<(), GatewayError>(
                    GatewayError::Transport { detail },
                ),
                Reply::Answered { status, text, decoded } => if is_success(status) {
                    result.is_ok()
                } else {
                    result == Err::<(), GatewayError>(GatewayError::Unhealthy)
                },
            },
    {
        match reply {
            Reply::Failed { detail } => Err(GatewayError::Transport { detail }),
            Reply::Answered { status, text, decoded } => {
                if status_is_success(status) {
                    Ok(())
                } else {
                    Err(GatewayError::Unhealthy)
                }
            },
        }
    }
}

/// Whether some name in `names` begins with `prefix`.
pub fn any_name_starts_with(names: &Vec<String>, prefix: &str) -> (any: bool)
    ensures
        any == any_starts_with(names@, prefix@),
{
    let mut i: usize = 0;
    while i < names.len()
        invariant
            i <= names@.len(),
            forall|j: int| 0 <= j < i ==> !prefix@.is_prefix_of(#[trigger] names@[j]@),
        decreases names@.len() - i,
    {
        if starts_with_text(names[i].as_str(), prefix) {
            return true;
        }
        i += 1;
    }
    false
}

} // verus!
