// A gateway between a discussion assistant and a locally hosted text
// generation backend: an allow-list of models, a cancellation broadcaster,
// a retry state machine with exponential backoff, a framer for streamed
// replies, and the prompts the assistant sends.

pub mod cancel;
pub mod framer;
pub mod gateway;
pub mod history;
pub mod json;
pub mod logmask;
pub mod models;
pub mod policy;
pub mod prompts;
pub mod retry;
pub mod session;
pub mod templates;
pub mod text;
