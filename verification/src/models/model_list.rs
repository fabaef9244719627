//! The answer of the model-listing endpoint.

use vstd::prelude::*;

verus! {

#[derive(Debug, Clone, Copy, PartialEq, Eq, Structural)]
pub enum ObjectType {
    Model,
}

#[derive(Debug, Clone, Copy, PartialEq, Eq, Structural)]
pub enum Owner {
    AdaptiveReasoner,
}

#[derive(Debug, Clone)]
pub struct ModelList {
    pub data: Vec<Model>,
}

#[derive(Debug, Clone)]
pub struct Model {
    pub id: String,
    pub object: ObjectType,
    pub created: i64,
    pub owned_by: Owner,
}

} // verus!
