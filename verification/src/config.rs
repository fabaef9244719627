//! The table of routes: which upstream serves a logical model name.

use crate::errors::ReasonerError;
use crate::models::model_list::{Model, ModelList, ObjectType, Owner};
use serde_json::Value;
use std::collections::HashMap;
use vstd::prelude::*;
use vstd::string::StringExecFns;

verus! {

/// The upstream destination of one logical model name.
#[derive(Debug, Clone)]
pub struct ModelConfig {
    /// The name under which the upstream knows the model.
    pub model_name: String,
    pub api_url: String,
    /// The secret itself; in the file on disk, the name of the variable that holds it.
    pub api_key: String,
    /// The allowance of the reasoning phase, in tokens.
    pub reasoning_budget: i32,
    /// Body fields that go into every upstream call of this route.
    pub extra: Option<HashMap<String, Value>>,
}

impl ModelConfig {
    /// Puts the resolved secret in place of the variable's name: the value
    /// of the variable, or the empty text where it is not set.
    pub fn resolve_api_key(&mut self, value: Option<String>)
        ensures
            final(self).api_key@ == (match value {
                Some(v) => v@,
                None => Seq::<char>::empty(),
            }),
            final(self).model_name == old(self).model_name,
            final(self).api_url == old(self).api_url,
            final(self).reasoning_budget == old(self).reasoning_budget,
            final(self).extra == old(self).extra,
    {
        match value {
            Some(v) => {
                self.api_key = v;
            },
            None => {
                self.api_key = String::new();
            },
        }
    }
}

/// A route under its logical name.
#[derive(Debug, Clone)]
pub struct NamedModel {
    pub name: String,
    pub config: ModelConfig,
}

/// The routes by logical name. No name stands twice.
#[derive(Debug, Clone)]
pub struct Config {
    pub models: Vec<NamedModel>,
}

/// The index of the first route of the given name among the first `upto`.
pub open spec fn position_of(models: Seq<NamedModel>, name: Seq<char>, upto: int) -> Option<int>
    decreases upto,
{
    if upto <= 0 {
        None
    } else {
        match position_of(models, name, upto - 1) {
            Some(i) => Some(i),
            None => if models[upto - 1].name@ == name {
                Some(upto - 1)
            } else {
                None
            },
        }
    }
}

/// What `position_of` finds is the first route of that name, and it finds
/// one wherever there is one.
pub proof fn lemma_position_of(models: Seq<NamedModel>, name: Seq<char>, upto: int)
    requires
        0 <= upto <= models.len(),
    ensures
        match position_of(models, name, upto) {
            Some(i) => 0 <= i < upto && models[i].name@ == name && forall|j: int|
                0 <= j < i ==> models[j].name@ != name,
            None => forall|j: int| 0 <= j < upto ==> models[j].name@ != name,
        },
    decreases upto,
{
    if upto > 0 {
        lemma_position_of(models, name, upto - 1);
    }
}

/// Once found, the first route of a name stays the answer for every longer
/// prefix of the table.
proof fn lemma_position_stays(models: Seq<NamedModel>, name: Seq<char>, i: int, upto: int)
    requires
        0 <= i < upto,
        position_of(models, name, i + 1) == Some(i),
    ensures
        position_of(models, name, upto) == Some(i),
    decreases upto,
{
    if upto > i + 1 {
        lemma_position_stays(models, name, i, upto - 1);
    }
}

impl Config {
    /// No logical name stands twice.
    pub open spec fn wf(&self) -> bool {
        forall|i: int, j: int|
            0 <= i < j < self.models@.len() ==> self.models@[i].name@ != self.models@[j].name@
    }

    /// The index of the route of the given name.
    pub open spec fn index_of(&self, name: Seq<char>) -> Option<int> {
        position_of(self.models@, name, self.models@.len() as int)
    }

    /// A table without routes.
    pub fn new() -> (c: Config)
        ensures
            c.models@.len() == 0,
            c.wf(),
    {
        Config { models: Vec::new() }
    }

    /// The index of the route that serves `model`.
    pub fn position(&self, model: &String) -> (r: Option<usize>)
        ensures
            match r {
                Some(i) => i < self.models@.len() && self.index_of(model@) == Some(i as int),
                None => self.index_of(model@) is None,
            },
    {
        let mut i: usize = 0;
        while i < self.models.len()
            invariant
                i <= self.models@.len(),
                position_of(self.models@, model@, i as int) is None,
            decreases self.models@.len() - i,
        {
            if self.models[i].name == *model {
                proof {
                    lemma_position_stays(self.models@, model@, i as int, self.models@.len() as int);
                }
                return Some(i);
            }
            i += 1;
        }
        None
    }

    /// The route that serves `model`, where the table names it.
    pub fn find(&self, model: &String) -> (r: Option<&ModelConfig>)
        ensures
            match r {
                Some(c) => self.index_of(model@) is Some && *c == self.models@[self.index_of(
                    model@,
                )->0].config,
                None => self.index_of(model@) is None,
            },
    {
        match self.position(model) {
            Some(i) => Some(&self.models[i].config),
            None => None,
        }
    }

    /// Enters a route under `name`: in place of the one that holds the name,
    /// or behind the others.
    pub fn insert(&mut self, name: String, config: ModelConfig)
        requires
            old(self).wf(),
        ensures
            final(self).wf(),
            match old(self).index_of(name@) {
                Some(i) => final(self).models@ == old(self).models@.update(
                    i,
                    NamedModel { name, config },
                ),
                None => final(self).models@ == old(self).models@.push(NamedModel { name, config }),
            },
    {
        proof {
            lemma_position_of(self.models@, name@, self.models@.len() as int);
        }
        match self.position(&name) {
            Some(i) => {
                self.models[i] = NamedModel { name, config };
            },
            None => {
                self.models.push(NamedModel { name, config });
            },
        }
    }

    /// The listing of the logical names, one entry for each route, in the
    /// order of the table.
    pub fn list_models(&self) -> (list: ModelList)
        ensures
            list.data@.len() == self.models@.len(),
            forall|i: int|
                0 <= i < self.models@.len() ==> {
                    &&& (#[trigger] list.data@[i]).id@ == self.models@[i].name@
                    &&& list.data@[i].object == ObjectType::Model
                    &&& list.data@[i].created == 0
                    &&& list.data@[i].owned_by == Owner::AdaptiveReasoner
                },
    {
        let mut data: Vec<Model> = Vec::new();
        let mut i: usize = 0;
        while i < self.models.len()
            invariant
                i <= self.models@.len(),
                data@.len() == i,
                forall|k: int|
                    0 <= k < i ==> {
                        &&& (#[trigger] data@[k]).id@ == self.models@[k].name@
                        &&& data@[k].object == ObjectType::Model
                        &&& data@[k].created == 0
                        &&& data@[k].owned_by == Owner::AdaptiveReasoner
                    },
            decreases self.models@.len() - i,
        {
            data.push(
                Model {
                    id: self.models[i].name.clone(),
                    object: ObjectType::Model,
                    created: 0,
                    owned_by: Owner::AdaptiveReasoner,
                },
            );
            i += 1;
        }
        ModelList { data }
    }
}

/// A source of the table of routes.
pub trait ConfigLoader: Send + Sync {
    /// Loads the table, or says why it cannot be had.
    fn load_config(&self) -> Result<Config, ReasonerError>;
}

/// The loader that reads the table from a file.
#[derive(Debug, Clone, Copy)]
pub struct FileConfigLoader;

impl FileConfigLoader {
    pub fn new() -> (l: FileConfigLoader) {
        FileConfigLoader
    }

    /// The path of the file to read: the one that the environment names, or
    /// `./config.json` where it names none.
    pub fn config_file(&self, named: Option<String>) -> (path: String)
        ensures
            path@ == (match named {
                Some(p) => p@,
                None => "./config.json"@,
            }),
    {
        match named {
            Some(p) => p,
            None => String::from_str("./config.json"),
        }
    }
}

} // verus!
