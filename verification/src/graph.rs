//! The models that an application knows, and the handle through which user
//! code reaches them.
use vstd::prelude::*;
use crate::collections::same_text;
use crate::model::Model;
use crate::server::error::{Error, ErrorView};

verus! {

/// The models of an application, in declared order.
pub struct Graph {
    pub models: Vec<Model>,
}

/// The place of the first of `models` that goes by `name`, or the number of
/// models where none does.
pub open spec fn model_place(models: Seq<Model>, name: Seq<char>) -> int
    decreases models.len(),
{
    if models.len() == 0 {
        0
    } else if models[0].name@ == name {
        0
    } else {
        1 + model_place(models.skip(1), name)
    }
}

/// The place of a model is `k`, where no model before `k` goes by the name and
/// the one at `k`, if there is one, does.
pub proof fn model_place_is(models: Seq<Model>, name: Seq<char>, k: int)
    requires
        0 <= k <= models.len(),
        forall|j: int| 0 <= j < k ==> (#[trigger] models[j]).name@ != name,
        k < models.len() ==> models[k].name@ == name,
    ensures
        model_place(models, name) == k,
    decreases models.len(),
{
    if k > 0 {
        let rest = models.skip(1);
        assert(models[0].name@ != name);
        assert forall|j: int| 0 <= j < k - 1 implies (#[trigger] rest[j]).name@ != name by {
            assert(rest[j] == models[j + 1]);
        }
        model_place_is(rest, name, k - 1);
    }
}

impl Graph {
    /// The graph without models.
    pub fn new() -> (r: Graph)
        ensures
            r.models@.len() == 0,
    {
        Graph { models: Vec::new() }
    }

    /// The first model that goes by `name`.
    pub fn model(&self, name: &str) -> (r: Result<&Model, Error>)
        ensures
            match r {
                Ok(m) => model_place(self.models@, name@) < self.models@.len() && *m
                    == self.models@[model_place(self.models@, name@)],
                Err(e) => model_place(self.models@, name@) == self.models@.len() && e@
                    == (ErrorView::ModelNotFound { name: name@ }),
            },
    {
        let mut i: usize = 0;
        while i < self.models.len()
            invariant
                i <= self.models.len(),
                forall|j: int| 0 <= j < i ==> (#[trigger] self.models[j]).name@ != name@,
            decreases self.models.len() - i,
        {
            if same_text(self.models[i].name.as_str(), name) {
                proof {
                    model_place_is(self.models@, name@, i as int);
                }
                return Ok(&self.models[i]);
            }
            i += 1;
        }
        proof {
            model_place_is(self.models@, name@, self.models.len() as int);
        }
        Err(Error::model_not_found(name))
    }
}

/// A model together with the connection through which its records are reached.
pub struct ModelCtx<'a, C> {
    pub conn: &'a C,
    pub model: &'a Model,
}

/// The handle that user code holds: a connection of the kind `C`.
pub struct UserCtx<C> {
    pub conn: C,
}

impl<C> UserCtx<C> {
    /// The handle with the connection `conn`.
    pub fn new(conn: C) -> (r: Self)
        ensures
            r.conn == conn,
    {
        Self { conn }
    }

    /// The model of `graph` that goes by `name`, with the connection of this
    /// handle.
    pub fn model_ctx<'a>(&'a self, graph: &'a Graph, name: &str) -> (r: Result<
        ModelCtx<'a, C>,
        Error,
    >)
        ensures
            match r {
                Ok(ctx) => model_place(graph.models@, name@) < graph.models@.len() && *ctx.model
                    == graph.models@[model_place(graph.models@, name@)] && *ctx.conn == self.conn,
                Err(e) => model_place(graph.models@, name@) == graph.models@.len() && e@
                    == (ErrorView::ModelNotFound { name: name@ }),
            },
    {
        let model = match graph.model(name) {
            Ok(model) => model,
            Err(error) => {
                return Err(error);
            },
        };
        Ok(ModelCtx { conn: &self.conn, model })
    }
}

} // verus!
