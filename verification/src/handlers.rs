//! What the HTTP layer decides of a completion call before it serves it.

use crate::config::Config;
use crate::models::request::ChatCompletionCreate;
use vstd::prelude::*;

verus! {

/// How a completion call is served.
#[derive(Debug, Clone, Copy, PartialEq, Eq, Structural)]
pub enum Dispatch {
    /// The table names no route for the model: the call is turned down.
    UnknownModel,
    /// The completion is answered in one piece, over the route at this index.
    Direct(usize),
    /// The completion is answered as a stream, over the route at this index.
    Stream(usize),
}

/// The client asked for a stream.
pub open spec fn wants_stream(request: ChatCompletionCreate) -> bool {
    request.stream == Some(true)
}

/// Decides how a completion call is served: by the route that the table
/// holds for the model, as a stream where the client asked for one.
pub fn dispatch(config: &Config, request: &ChatCompletionCreate) -> (d: Dispatch)
    ensures
        match config.index_of(request.model@) {
            None => d == Dispatch::UnknownModel,
            Some(i) => 0 <= i < config.models@.len() && (if wants_stream(*request) {
                d == Dispatch::Stream(i as usize)
            } else {
                d == Dispatch::Direct(i as usize)
            }),
        },
{
    match config.position(&request.model) {
        None => Dispatch::UnknownModel,
        Some(i) => {
            let stream = match request.stream {
                Some(b) => b,
                None => false,
            };
            if stream {
                Dispatch::Stream(i)
            } else {
                Dispatch::Direct(i)
            }
        },
    }
}

} // verus!
