use vstd::prelude::*;
use crate::json::{buffered_reply_text, json_response_field};
use crate::policy::{allowed_model, is_allowed_model};
use crate::retry::{simulate_call, simulation_holds, AttemptResult, CallOutcome, CallReport, RetryConfig};

verus! {

/// The message shown when a caller asks for a model outside the allow-list.
pub const ERR_UNSUPPORTED_MODEL: &'static str = "サポートされていないモデルです。gemma3:1bまたはgemma3:4bを使用してください。";

/// The message shown when the user stopped the generation.
pub const MSG_CANCELLED: &'static str = "キャンセルされました";

/// The start of the message shown when every attempt failed.
pub const MSG_EXHAUSTED: &'static str = "リクエスト失敗: ";

/// The failure recorded for a buffered reply without a "response" text.
pub const MSG_NO_REPLY: &'static str = "応答なし";

/// How one buffered exchange ended, from the reply's body: a reply when the
/// body holds a "response" text, a failure (to be retried) when it does not.
pub fn buffered_attempt(body: &[u8]) -> (r: AttemptResult)
    ensures
        match r {
            AttemptResult::Replied(t) => json_response_field(body@) == Some(t@),
            AttemptResult::Failed(e) => json_response_field(body@) is None && e@ == MSG_NO_REPLY@,
        },
{
    match buffered_reply_text(body) {
        Some(t) => AttemptResult::Replied(t),
        None => AttemptResult::Failed(String::from_str(MSG_NO_REPLY)),
    }
}

/// The failures that reach a caller of the gateway.
pub enum GatewayError {
    UnsupportedModel,
    Cancelled,
    ExhaustedRetries { attempts: u32, last_error: String },
}

impl GatewayError {
    /// The user-facing text of the failure.
    pub open spec fn message_spec(&self) -> Seq<char> {
        match self {
            GatewayError::UnsupportedModel => ERR_UNSUPPORTED_MODEL@,
            GatewayError::Cancelled => MSG_CANCELLED@,
            GatewayError::ExhaustedRetries { attempts: _, last_error } => MSG_EXHAUSTED@ + last_error@,
        }
    }

    /// The user-facing text of the failure; for exhausted retries the last
    /// underlying error follows the classified message.
    pub fn message(&self) -> (r: String)
        ensures
            r@ == self.message_spec(),
    {
        match self {
            GatewayError::UnsupportedModel => String::from_str(ERR_UNSUPPORTED_MODEL),
            GatewayError::Cancelled => String::from_str(MSG_CANCELLED),
            GatewayError::ExhaustedRetries { attempts: _, last_error } => {
                let mut m = String::from_str(MSG_EXHAUSTED);
                m.append(last_error.as_str());
                m
            },
        }
    }
}

/// How long one attempt may take: conversational turns get the short
/// ceiling, analysis and summaries the long one.
#[derive(Clone, Copy, Debug, PartialEq, Eq, Structural)]
pub enum TimeoutTier {
    Conversational,
    Analysis,
}

/// The ceiling of one attempt for conversational turns, in milliseconds.
pub const SHORT_TIMEOUT_MS: u64 = 60000;

/// The ceiling of one attempt for analysis and summaries, in milliseconds.
pub const LONG_TIMEOUT_MS: u64 = 180000;

/// The ceiling of one attempt in a tier, in milliseconds.
pub fn timeout_ms(tier: TimeoutTier) -> (r: u64)
    ensures
        tier == TimeoutTier::Conversational ==> r == SHORT_TIMEOUT_MS,
        tier == TimeoutTier::Analysis ==> r == LONG_TIMEOUT_MS,
{
    match tier {
        TimeoutTier::Conversational => SHORT_TIMEOUT_MS,
        TimeoutTier::Analysis => LONG_TIMEOUT_MS,
    }
}

/// One generate call to send: only a model that passed the allow-list check
/// is ever put in one.
pub struct GenerationRequest {
    model: String,
    prompt: String,
    stream: bool,
}

impl GenerationRequest {
    /// The model the request names.
    pub closed spec fn model_spec(&self) -> Seq<char> {
        self.model@
    }

    /// The prompt the request carries.
    pub closed spec fn prompt_spec(&self) -> Seq<char> {
        self.prompt@
    }

    /// Whether the reply is asked for as a stream.
    pub closed spec fn stream_spec(&self) -> bool {
        self.stream
    }

    /// Checks `model` against the allow-list and builds the request, or
    /// rejects it with `UnsupportedModel`.
    pub fn new(model: String, prompt: String, stream: bool) -> (r: Result<GenerationRequest, GatewayError>)
        ensures
            match r {
                Ok(q) => allowed_model(model@) && q.model_spec() == model@
                    && q.prompt_spec() == prompt@ && q.stream_spec() == stream,
                Err(e) => !allowed_model(model@) && e is UnsupportedModel,
            },
    {
        if is_allowed_model(model.as_str()) {
            Ok(GenerationRequest { model, prompt, stream })
        } else {
            Err(GatewayError::UnsupportedModel)
        }
    }

    /// The model the request names.
    pub fn model(&self) -> (r: &str)
        ensures
            r@ == self.model_spec(),
    {
        self.model.as_str()
    }

    /// The prompt the request carries.
    pub fn prompt(&self) -> (r: &str)
        ensures
            r@ == self.prompt_spec(),
    {
        self.prompt.as_str()
    }

    /// Whether the reply is asked for as a stream.
    pub fn stream(&self) -> (r: bool)
        ensures
            r == self.stream_spec(),
    {
        self.stream
    }
}

/// The result a caller gets for how a call ended.
pub open spec fn outcome_result(o: CallOutcome) -> Result<Seq<char>, GatewayError> {
    match o {
        CallOutcome::Success(t) => Ok(t@),
        CallOutcome::Cancelled => Err(GatewayError::Cancelled),
        CallOutcome::Exhausted { attempts, last_error } => Err(
            GatewayError::ExhaustedRetries { attempts, last_error },
        ),
    }
}

/// A caller's result as values.
pub open spec fn text_result(r: Result<String, GatewayError>) -> Result<Seq<char>, GatewayError> {
    match r {
        Ok(t) => Ok(t@),
        Err(e) => Err(e),
    }
}

/// Classifies how a call ended for the caller.
pub fn outcome_to_result(o: CallOutcome) -> (r: Result<String, GatewayError>)
    ensures
        text_result(r) == outcome_result(o),
{
    match o {
        CallOutcome::Success(t) => Ok(t),
        CallOutcome::Cancelled => Err(GatewayError::Cancelled),
        CallOutcome::Exhausted { attempts, last_error } => Err(
            GatewayError::ExhaustedRetries { attempts, last_error },
        ),
    }
}

/// A whole gateway call against a scripted backend (see `simulate_call`):
/// the model is checked first, and a rejected model reaches no attempt.
pub fn simulate_gateway(
    model: String,
    prompt: String,
    config: RetryConfig,
    replies: &Vec<AttemptResult>,
    cancel_at_ms: Option<u64>,
) -> (r: Result<CallReport, GatewayError>)
    requires
        config.valid(),
    ensures
        match r {
            Ok(report) => allowed_model(model@) && simulation_holds(config, replies@, cancel_at_ms, report),
            Err(e) => !allowed_model(model@) && e is UnsupportedModel,
        },
{
    match GenerationRequest::new(model, prompt, false) {
        Err(e) => Err(e),
        Ok(_q) => Ok(simulate_call(config, replies, cancel_at_ms)),
    }
}

} // verus!
