//! A gateway core that turns one chat-completion call into a budgeted
//! two-phase exchange with an upstream model server: a capped reasoning
//! phase followed by a bounded answer phase.
//!
//! The library decides and the caller acts. [`llm_request`] validates a
//! request and builds the requests of the two phases; [`service`] merges
//! the two responses of a completion that is answered in one piece;
//! [`stream`] is the state machine of a completion that is answered as a
//! stream; [`sse`] de-frames and frames server-sent events; [`llm_client`]
//! says what a call to the upstream holds and how its answer is judged;
//! [`queue`] is the bounded queue between the orchestrator and the response
//! writer. Network, files and the runtime belong to the program around the
//! library.

pub mod config;
pub mod consts;
pub mod errors;
pub mod handlers;
pub mod llm_client;
pub mod llm_request;
pub mod models;
pub mod queue;
pub mod service;
pub mod sse;
pub mod stream;
pub mod test_utils;
pub mod text;
